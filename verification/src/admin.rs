//! The hardware-node rows of the server's debug report, and how their
//! status columns are shown.

use vstd::prelude::*;

verus! {

/// One hardware node as the server's debug report describes it.
#[derive(Clone, Debug, PartialEq)]
pub struct HardwareNode {
    pub name: String,
    pub online: bool,
    pub enabled: bool,
    pub url: String,
    pub token: String,
}

/// One row of the hardware-node table.
#[derive(Clone, Debug, PartialEq)]
pub struct TableHardwareNode {
    pub name: String,
    pub online: bool,
    pub enabled: bool,
    pub url: String,
    pub token: String,
}

impl vstd::std_specs::convert::FromSpecImpl<HardwareNode> for TableHardwareNode {
    open spec fn obeys_from_spec() -> bool {
        true
    }

    open spec fn from_spec(n: HardwareNode) -> TableHardwareNode {
        TableHardwareNode {
            name: n.name,
            online: n.online,
            enabled: n.enabled,
            url: n.url,
            token: n.token,
        }
    }
}

impl From<HardwareNode> for TableHardwareNode {
    /// Carries a node into its table row.
    fn from(n: HardwareNode) -> (r: TableHardwareNode) {
        TableHardwareNode {
            name: n.name,
            online: n.online,
            enabled: n.enabled,
            url: n.url,
            token: n.token,
        }
    }
}

impl TableHardwareNode {
    /// How the status column shows whether the node is reachable.
    pub fn display_online(online: &bool) -> (r: String)
        ensures
            r@ == if *online {
                "\x1b[1;32mONLINE\x1b[1;0m"@
            } else {
                "\x1b[1;31mOFFLINE\x1b[1;0m"@
            },
    {
        if *online {
            String::from_str("\x1b[1;32mONLINE\x1b[1;0m")
        } else {
            String::from_str("\x1b[1;31mOFFLINE\x1b[1;0m")
        }
    }

    /// How the enabled column shows whether the node is in use.
    pub fn display_enabled(enabled: &bool) -> (r: String)
        ensures
            r@ == if *enabled {
                "\x1b[1;32mENABLED\x1b[1;0m"@
            } else {
                "\x1b[1;31mDISABLED\x1b[1;0m"@
            },
    {
        if *enabled {
            String::from_str("\x1b[1;32mENABLED\x1b[1;0m")
        } else {
            String::from_str("\x1b[1;31mDISABLED\x1b[1;0m")
        }
    }
}

/// The file the configuration export is written to: the server's host
/// name, the moment of the export, and a fixed suffix.
pub fn export_file_name(host: &String, timestamp: &String) -> (r: String)
    ensures
        r@ == host@ + "_"@ + timestamp@ + "_smarthome_export.json"@,
{
    let mut s = String::new();
    s.append(host.as_str());
    s.append("_");
    s.append(timestamp.as_str());
    s.append("_smarthome_export.json");
    proof {
        assert(s@ =~= host@ + "_"@ + timestamp@ + "_smarthome_export.json"@);
    }
    s
}

} // verus!

//! The rows of the script listing, and how their flag columns are shown.

use vstd::prelude::*;

use crate::script::HomescriptData;

verus! {

/// One row of the script listing.
#[derive(Clone, Debug, PartialEq)]
pub struct TableHomescriptData {
    pub id: String,
    pub name: String,
    pub md_icon: String,
    pub workspace: String,
    pub quick_actions_enabled: bool,
    pub scheduler_enabled: bool,
}

impl vstd::std_specs::convert::FromSpecImpl<HomescriptData> for TableHomescriptData {
    open spec fn obeys_from_spec() -> bool {
        true
    }

    open spec fn from_spec(d: HomescriptData) -> TableHomescriptData {
        TableHomescriptData {
            id: d.id,
            name: d.name,
            md_icon: d.md_icon,
            workspace: d.workspace,
            quick_actions_enabled: d.quick_actions_enabled,
            scheduler_enabled: d.scheduler_enabled,
        }
    }
}

impl From<HomescriptData> for TableHomescriptData {
    /// Keeps the columns the listing shows and drops the rest.
    fn from(d: HomescriptData) -> (r: TableHomescriptData) {
        TableHomescriptData {
            id: d.id,
            name: d.name,
            md_icon: d.md_icon,
            workspace: d.workspace,
            quick_actions_enabled: d.quick_actions_enabled,
            scheduler_enabled: d.scheduler_enabled,
        }
    }
}

impl TableHomescriptData {
    /// How the quick-actions column shows the flag.
    pub fn display_quick_actions(quick_actions_enabled: &bool) -> (r: String)
        ensures
            r@ == if *quick_actions_enabled {
                "on"@
            } else {
                "off"@
            },
    {
        if *quick_actions_enabled {
            String::from_str("on")
        } else {
            String::from_str("off")
        }
    }

    /// How the scheduler column shows the flag.
    pub fn display_scheduler_enabled(scheduler_enabled: &bool) -> (r: String)
        ensures
            r@ == if *scheduler_enabled {
                "shown"@
            } else {
                "hidden"@
            },
    {
        if *scheduler_enabled {
            String::from_str("shown")
        } else {
            String::from_str("hidden")
        }
    }
}

} // verus!

//! Power-control decisions: which switch a toggle flips and to what, how
//! remote power failures are classified, and the integer summaries behind
//! the power-draw report (current draw, its split into active and passive,
//! the 24-hour peak, and the exact watt-minute total that the cost figures
//! are derived from).

use vstd::prelude::*;

verus! {

/// The power-related facts of one device, when it has the power capability
/// and reported them.
#[derive(Clone, Copy, PartialEq, Eq, Structural, Debug)]
pub struct ParsedPower {
    pub status: bool,
    pub watts: usize,
}

/// One device as the power commands see it.
#[derive(Clone, Debug, PartialEq)]
pub struct ParsedDevice {
    pub id: String,
    pub name: String,
    pub room_id: String,
    pub power: Option<ParsedPower>,
}

/// One row of the device table.
#[derive(Clone, Debug, PartialEq)]
pub struct TableDevice {
    pub id: String,
    pub name: String,
    pub room_id: String,
    pub watts: Option<usize>,
    pub power_on: Option<bool>,
}

impl vstd::std_specs::convert::FromSpecImpl<ParsedDevice> for TableDevice {
    open spec fn obeys_from_spec() -> bool {
        true
    }

    open spec fn from_spec(d: ParsedDevice) -> TableDevice {
        TableDevice {
            id: d.id,
            name: d.name,
            room_id: d.room_id,
            watts: match d.power {
                Some(p) => Some(p.watts),
                None => None,
            },
            power_on: match d.power {
                Some(p) => Some(p.status),
                None => None,
            },
        }
    }
}

impl From<ParsedDevice> for TableDevice {
    /// Flattens a device into its table row.
    fn from(d: ParsedDevice) -> (r: TableDevice) {
        let (watts, power_on): (Option<usize>, Option<bool>) = match d.power {
            Some(p) => (Some(p.watts), Some(p.status)),
            None => (None, None),
        };
        TableDevice { id: d.id, name: d.name, room_id: d.room_id, watts, power_on }
    }
}

impl TableDevice {
    /// How the power column shows a state: on, off, or not available.
    pub fn display_power(power_on: &Option<bool>) -> (r: String)
        ensures
            r@ == match *power_on {
                Some(true) => "\x1b[1;32mON\x1b[1;0m"@,
                Some(false) => "\x1b[1;31mOFF\x1b[1;0m"@,
                None => "\x1b[1;30mN/A\x1b[1;0m"@,
            },
    {
        match power_on {
            Some(true) => String::from_str("\x1b[1;32mON\x1b[1;0m"),
            Some(false) => String::from_str("\x1b[1;31mOFF\x1b[1;0m"),
            None => String::from_str("\x1b[1;30mN/A\x1b[1;0m"),
        }
    }

    /// How the watts column shows a draw: the number, or not available.
    pub fn display_watts(watts: &Option<usize>) -> (r: String)
        ensures
            r@ == match *watts {
                Some(w) => crate::text::dec_digits(w as nat),
                None => "\x1b[1;30mN/A\x1b[1;0m"@,
            },
    {
        match watts {
            Some(w) => crate::text::u64_to_string(*w as u64),
            None => String::from_str("\x1b[1;30mN/A\x1b[1;0m"),
        }
    }
}

impl ParsedDevice {
    /// The power facts a device exposes: only a device that has the power
    /// capability and reported its state has any.
    pub fn merge_power(has_capability: bool, info: Option<ParsedPower>) -> (r: Option<ParsedPower>)
        ensures
            r == if has_capability {
                info
            } else {
                None::<ParsedPower>
            },
    {
        if has_capability {
            info
        } else {
            None
        }
    }
}

/// Everything a power command can fail with.
#[derive(Debug, PartialEq)]
pub enum PowerError {
    /// The device list could not be fetched.
    GetDevices { message: String },
    /// The power-draw history could not be fetched.
    GetPowerDrawData { message: String },
    /// The switch does not exist, or cannot switch power.
    InvalidSwitch { id: String },
    /// The caller may not use this switch.
    PermissionDenied { id: String },
    /// Computing a 24-hour summary needs at least one measurement.
    NotEnoughPowerDrawData,
    /// The server was unable to handle the switch.
    ServerError,
    /// Any other failure of a remote call, with its description.
    Unknown { message: String },
}

/// Classifies a failed remote power call against the switch it concerned.
pub fn classify_power_failure(switch_id: &String, f: crate::errors::RemoteFailure) -> (e:
    PowerError)
    ensures
        match f {
            crate::errors::RemoteFailure::Status { code } => if code == 422 {
                e matches PowerError::InvalidSwitch { id } && id@ == switch_id@
            } else if code == 403 {
                e matches PowerError::PermissionDenied { id } && id@ == switch_id@
            } else if code == 503 {
                e is ServerError
            } else {
                e matches PowerError::Unknown { message } && message@
                    == crate::errors::unexpected_status_message(code)
            },
            crate::errors::RemoteFailure::Transport { message: cause } => e matches
                PowerError::Unknown { message } && message == cause,
        },
{
    match f {
        crate::errors::RemoteFailure::Status { code } => {
            if code == 422 {
                PowerError::InvalidSwitch { id: switch_id.clone() }
            } else if code == 403 {
                PowerError::PermissionDenied { id: switch_id.clone() }
            } else if code == 503 {
                PowerError::ServerError
            } else {
                let mut message = String::new();
                message.append("unexpected server status ");
                message.append(crate::text::u64_to_string(code as u64).as_str());
                proof {
                    reveal_strlit("unexpected server status ");
                    assert(message@ =~= crate::errors::unexpected_status_message(code));
                }
                PowerError::Unknown { message }
            }
        },
        crate::errors::RemoteFailure::Transport { message } => PowerError::Unknown { message },
    }
}

/// The first device in `devices` whose id is `id`, if any.
pub open spec fn lookup_device(devices: Seq<ParsedDevice>, id: Seq<char>) -> Option<ParsedDevice>
    decreases devices.len(),
{
    if devices.len() == 0 {
        None
    } else if devices[0].id@ == id {
        Some(devices[0])
    } else {
        lookup_device(devices.drop_first(), id)
    }
}

proof fn lemma_lookup_device_found(devices: Seq<ParsedDevice>, id: Seq<char>, i: int)
    requires
        0 <= i < devices.len(),
        devices[i].id@ == id,
        forall|j: int| 0 <= j < i ==> devices[j].id@ != id,
    ensures
        lookup_device(devices, id) == Some(devices[i]),
    decreases i,
{
    if i > 0 {
        lemma_lookup_device_found(devices.drop_first(), id, i - 1);
    }
}

proof fn lemma_lookup_device_absent(devices: Seq<ParsedDevice>, id: Seq<char>)
    requires
        forall|j: int| 0 <= j < devices.len() ==> devices[j].id@ != id,
    ensures
        lookup_device(devices, id) is None,
    decreases devices.len(),
{
    if devices.len() > 0 {
        lemma_lookup_device_absent(devices.drop_first(), id);
    }
}

/// Decides what a toggle does to one switch: the inverse of its current
/// state. A switch that is not in the caller's device list, or that cannot
/// switch power, is rejected.
pub fn toggle_target(devices: &Vec<ParsedDevice>, switch_id: &String) -> (r: Result<
    bool,
    PowerError,
>)
    ensures
        match lookup_device(devices@, switch_id@) {
            None => r matches Err(PowerError::InvalidSwitch { id }) && id@ == switch_id@,
            Some(d) => match d.power {
                None => r matches Err(PowerError::InvalidSwitch { id }) && id@
                    == "device does not support power"@,
                Some(p) => r matches Ok(next) && next == !p.status,
            },
        },
{
    let n = devices.len();
    let mut i: usize = 0;
    while i < n
        invariant
            i <= n,
            n == devices@.len(),
            forall|j: int| 0 <= j < i ==> devices@[j].id@ != switch_id@,
        decreases n - i,
    {
        if devices[i].id.eq(switch_id) {
            proof {
                lemma_lookup_device_found(devices@, switch_id@, i as int);
            }
            return match &devices[i].power {
                Some(p) => Ok(!p.status),
                None => Err(
                    PowerError::InvalidSwitch {
                        id: String::from_str("device does not support power"),
                    },
                ),
            };
        }
        i = i + 1;
    }
    proof {
        lemma_lookup_device_absent(devices@, switch_id@);
    }
    Err(PowerError::InvalidSwitch { id: switch_id.clone() })
}

// ---------------------------------------------------------------------------
// Power-draw summaries
// ---------------------------------------------------------------------------
/// The wattage a device contributes to the total draw.
pub open spec fn device_watts(d: ParsedDevice) -> int {
    match d.power {
        Some(p) => p.watts as int,
        None => 0,
    }
}

/// The wattage a device contributes to the active draw: only switched-on
/// devices count.
pub open spec fn device_active_watts(d: ParsedDevice) -> int {
    match d.power {
        Some(p) => if p.status {
            p.watts as int
        } else {
            0
        },
        None => 0,
    }
}

/// The total draw of a device list.
pub open spec fn sum_watts(devices: Seq<ParsedDevice>) -> int
    decreases devices.len(),
{
    if devices.len() == 0 {
        0
    } else {
        sum_watts(devices.drop_last()) + device_watts(devices.last())
    }
}

/// The active draw of a device list.
pub open spec fn sum_active_watts(devices: Seq<ParsedDevice>) -> int
    decreases devices.len(),
{
    if devices.len() == 0 {
        0
    } else {
        sum_active_watts(devices.drop_last()) + device_active_watts(devices.last())
    }
}

proof fn lemma_sums_bounded(devices: Seq<ParsedDevice>)
    ensures
        0 <= sum_active_watts(devices) <= sum_watts(devices),
        sum_watts(devices) <= devices.len() * (usize::MAX as int),
    decreases devices.len(),
{
    if devices.len() > 0 {
        lemma_sums_bounded(devices.drop_last());
        assert((devices.len() - 1) * (usize::MAX as int) + (usize::MAX as int) == devices.len() * (
        usize::MAX as int)) by (nonlinear_arith);
    }
}

/// The current power draw, split into its parts. All three are exact sums;
/// `passive` is what draws power without being switched on.
pub struct PowerSummary {
    pub total: u64,
    pub active: u64,
    pub passive: u64,
}

/// Sums the current draw of every device: the total, the active part
/// (switched-on devices) and the passive remainder. `None` only when the
/// total would not fit 64 bits.
pub fn power_summary(devices: &Vec<ParsedDevice>) -> (r: Option<PowerSummary>)
    ensures
        match r {
            Some(s) => s.total == sum_watts(devices@) && s.active == sum_active_watts(devices@)
                && s.passive == s.total - s.active,
            None => sum_watts(devices@) > u64::MAX,
        },
{
    let n = devices.len();
    let mut total: u128 = 0;
    let mut active: u128 = 0;
    let mut i: usize = 0;
    proof {
        assert(devices@.subrange(0, 0) =~= Seq::<ParsedDevice>::empty());
    }
    while i < n
        invariant
            i <= n,
            n == devices@.len(),
            total == sum_watts(devices@.subrange(0, i as int)),
            active == sum_active_watts(devices@.subrange(0, i as int)),
            0 <= active <= total,
        decreases n - i,
    {
        proof {
            lemma_sums_bounded(devices@.subrange(0, i as int));
            assert((i as int) * (usize::MAX as int) <= (usize::MAX as int) * (usize::MAX as int))
                by (nonlinear_arith)
                requires
                    0 <= i <= usize::MAX,
            ;
            assert(devices@.subrange(0, i as int + 1).drop_last() =~= devices@.subrange(
                0,
                i as int,
            ));
        }
        match &devices[i].power {
            Some(p) => {
                total = total + p.watts as u128;
                if p.status {
                    active = active + p.watts as u128;
                }
            },
            None => {},
        }
        i = i + 1;
    }
    proof {
        assert(devices@.subrange(0, n as int) =~= devices@);
    }
    if total > u64::MAX as u128 {
        None
    } else {
        Some(
            PowerSummary {
                total: total as u64,
                active: active as u64,
                passive: (total - active) as u64,
            },
        )
    }
}

/// One measurement of the power-draw history: when it was taken
/// (milliseconds since the epoch) and the switched-on draw at that moment.
#[derive(Clone, Copy, PartialEq, Eq, Structural, Debug)]
pub struct PowerDrawPoint {
    pub time: u64,
    pub on_watts: usize,
}

/// The highest switched-on draw among the measurements, if there are any.
pub fn peak_on_watts(points: &Vec<PowerDrawPoint>) -> (r: Result<usize, PowerError>)
    ensures
        match r {
            Ok(peak) => points@.len() > 0 && (exists|i: int|
                0 <= i < points@.len() && points@[i].on_watts == peak) && (forall|i: int|
                0 <= i < points@.len() ==> points@[i].on_watts <= peak),
            Err(e) => points@.len() == 0 && e is NotEnoughPowerDrawData,
        },
{
    let n = points.len();
    if n == 0 {
        return Err(PowerError::NotEnoughPowerDrawData);
    }
    let mut peak: usize = points[0].on_watts;
    let mut i: usize = 1;
    while i < n
        invariant
            1 <= i <= n,
            n == points@.len(),
            exists|k: int| 0 <= k < i && points@[k].on_watts == peak,
            forall|k: int| 0 <= k < i ==> points@[k].on_watts <= peak,
        decreases n - i,
    {
        if points[i].on_watts > peak {
            peak = points[i].on_watts;
        }
        i = i + 1;
    }
    Ok(peak)
}

/// The whole minutes between two adjacent measurements.
pub open spec fn gap_minutes(earlier: PowerDrawPoint, later: PowerDrawPoint) -> int {
    ((later.time - earlier.time) / 1000) / 60
}

/// The exact watt-minutes of switched-on draw that a time-ordered history
/// accounts for: each measurement's draw, weighted by the whole minutes
/// since the previous measurement.
pub open spec fn watt_minutes(points: Seq<PowerDrawPoint>) -> int
    decreases points.len(),
{
    if points.len() < 2 {
        0
    } else {
        watt_minutes(points.drop_last()) + points.last().on_watts * gap_minutes(
            points[points.len() - 2],
            points.last(),
        )
    }
}

/// Measurements ordered by time, oldest first.
pub open spec fn time_ordered(points: Seq<PowerDrawPoint>) -> bool {
    forall|i: int| 0 <= i < points.len() - 1 ==> #[trigger] points[i].time <= points[i + 1].time
}

proof fn lemma_time_ordered_ends(points: Seq<PowerDrawPoint>)
    requires
        time_ordered(points),
        points.len() >= 1,
    ensures
        points[0].time <= points.last().time,
    decreases points.len(),
{
    if points.len() >= 2 {
        let shorter = points.drop_last();
        assert(time_ordered(shorter)) by {
            assert(forall|i: int|
                0 <= i < shorter.len() ==> #[trigger] shorter[i].time == points[i].time);
        }
        lemma_time_ordered_ends(shorter);
        assert(points[points.len() - 2].time <= points.last().time);
    }
}

proof fn lemma_watt_minutes_bounded(points: Seq<PowerDrawPoint>)
    requires
        time_ordered(points),
    ensures
        0 <= watt_minutes(points),
        points.len() >= 1 ==> watt_minutes(points) <= (usize::MAX as int) * ((points.last().time
            - points[0].time) / 60000),
    decreases points.len(),
{
    if points.len() >= 2 {
        let shorter = points.drop_last();
        assert(time_ordered(shorter)) by {
            assert(forall|i: int|
                0 <= i < shorter.len() - 1 ==> #[trigger] shorter[i].time == points[i].time
                    && shorter[i + 1].time == points[i + 1].time);
        }
        lemma_watt_minutes_bounded(shorter);
        let prev = points[points.len() - 2];
        let last = points.last();
        assert(prev.time <= last.time);
        let gap = gap_minutes(prev, last);
        assert(0 <= gap == (last.time - prev.time) / 60000) by {
            vstd::arithmetic::div_mod::lemma_div_denominator(
                last.time - prev.time,
                1000,
                60,
            );
        }
        assert(last.on_watts * gap <= (usize::MAX as int) * gap) by (nonlinear_arith)
            requires
                0 <= gap,
                0 <= last.on_watts <= usize::MAX,
        ;
        assert(0 <= last.on_watts * gap) by (nonlinear_arith)
            requires
                0 <= gap,
                0 <= last.on_watts,
        ;
        assert(points[0].time <= prev.time) by {
            lemma_time_ordered_ends(shorter);
            assert(shorter[0] == points[0] && shorter.last() == prev);
        }
        let a = prev.time - points[0].time;
        let b = last.time - prev.time;
        let d = 60000int;
        let prior_span = a / d;
        let full_span = (a + b) / d;
        assert(shorter.last() == prev && shorter[0] == points[0]);
        assert(watt_minutes(shorter) <= (usize::MAX as int) * prior_span);
        assert(gap == b / d);
        assert(0 <= prior_span) by {
            vstd::arithmetic::div_mod::lemma_div_pos_is_pos(a, d);
        }
        assert(prior_span + gap <= full_span) by {
            vstd::arithmetic::div_mod::lemma_fundamental_div_mod(a, d);
            vstd::arithmetic::div_mod::lemma_fundamental_div_mod(b, d);
            vstd::arithmetic::div_mod::lemma_mod_bound(a, d);
            vstd::arithmetic::div_mod::lemma_mod_bound(b, d);
            vstd::arithmetic::div_mod::lemma_div_multiples_vanish(a / d + b / d, d);
            vstd::arithmetic::div_mod::lemma_div_is_ordered(d * (a / d + b / d), a + b, d);
        }
        assert((usize::MAX as int) * prior_span + (usize::MAX as int) * gap <= (usize::MAX
            as int) * full_span) by (nonlinear_arith)
            requires
                prior_span + gap <= full_span,
                0 <= prior_span,
                0 <= gap,
        ;
        assert(full_span == (points.last().time - points[0].time) / 60000);
    }
}

/// Sums the watt-minutes of a time-ordered history. The shell turns this
/// exact integer into the kilowatt-hour and cost figures. At least one
/// measurement must exist for the 24-hour report.
pub fn watt_minutes_total(points: &Vec<PowerDrawPoint>) -> (r: Result<u128, PowerError>)
    requires
        time_ordered(points@),
    ensures
        match r {
            Ok(w) => points@.len() >= 1 && w == watt_minutes(points@),
            Err(e) => points@.len() == 0 && e is NotEnoughPowerDrawData,
        },
{
    let n = points.len();
    if n == 0 {
        return Err(PowerError::NotEnoughPowerDrawData);
    }
    let mut acc: u128 = 0;
    let mut i: usize = 1;
    proof {
        assert(watt_minutes(points@.subrange(0, 1)) == 0);
    }
    while i < n
        invariant
            1 <= i <= n,
            n == points@.len(),
            time_ordered(points@),
            acc == watt_minutes(points@.subrange(0, i as int)),
        decreases n - i,
    {
        let prev = points[i - 1];
        let cur = points[i];
        proof {
            assert(prev.time <= cur.time);
        }
        let gap: u64 = ((cur.time - prev.time) / 1000) / 60;
        proof {
            assert((cur.on_watts as int) * (gap as int) <= (u64::MAX as int) * (u64::MAX as int))
                by (nonlinear_arith)
                requires
                    0 <= cur.on_watts <= u64::MAX,
                    0 <= gap <= u64::MAX,
            ;
        }
        let contribution: u128 = (cur.on_watts as u128) * (gap as u128);
        proof {
            let prefix = points@.subrange(0, i as int + 1);
            assert(prefix.drop_last() =~= points@.subrange(0, i as int));
            assert(time_ordered(prefix)) by {
                assert(forall|k: int|
                    0 <= k < prefix.len() ==> #[trigger] prefix[k].time == points@[k].time);
            }
            assert(prefix.last() == cur && prefix[prefix.len() - 2] == prev && prefix[0]
                == points@[0]);
            lemma_watt_minutes_bounded(prefix);
            lemma_time_ordered_ends(prefix);
            let span = (cur.time - points@[0].time) / 60000;
            vstd::arithmetic::div_mod::lemma_div_pos_is_pos(cur.time - points@[0].time, 60000);
            vstd::arithmetic::div_mod::lemma_div_nonincreasing(cur.time - points@[0].time, 60000);
            assert((usize::MAX as int) * span <= (u64::MAX as int) * (u64::MAX as int))
                by (nonlinear_arith)
                requires
                    0 <= span <= u64::MAX,
                    0 <= usize::MAX as int <= u64::MAX as int,
            ;
            assert(gap == gap_minutes(prev, cur)) by {
                vstd::arithmetic::div_mod::lemma_div_denominator(cur.time - prev.time, 1000, 60);
            }
            assert(watt_minutes(prefix) == acc + contribution);
        }
        acc = acc + contribution;
        i = i + 1;
    }
    proof {
        assert(points@.subrange(0, n as int) =~= points@);
    }
    Ok(acc)
}

} // verus!

verus! {

/// The text each power error is reported with.
pub open spec fn power_error_message(e: PowerError) -> Seq<char> {
    match e {
        PowerError::GetDevices { message } => "Could not get switches: "@ + message@,
        PowerError::GetPowerDrawData { message } => "Could not get power draw data: "@ + message@,
        PowerError::InvalidSwitch { id } => "The switch `"@ + id@ + "` does not exist"@,
        PowerError::PermissionDenied { id } =>
            "You are either lacking permission to use switches or you do not have access to the switch `"@
            + id@ + "`"@,
        PowerError::NotEnoughPowerDrawData =>
            "Not enough power draw data: averaging requires more power draw data: please wait a few hours"@,
        PowerError::ServerError => "The server was unable to handle this switch"@,
        PowerError::Unknown { message } => "Unknown error: "@ + message@,
    }
}

impl PowerError {
    /// Renders this power error for the user.
    pub fn message(&self) -> (r: String)
        ensures
            r@ == power_error_message(*self),
    {
        let mut s = String::new();
        match self {
            PowerError::GetDevices { message } => {
                s.append("Could not get switches: ");
                s.append(message.as_str());
            },
            PowerError::GetPowerDrawData { message } => {
                s.append("Could not get power draw data: ");
                s.append(message.as_str());
            },
            PowerError::InvalidSwitch { id } => {
                s.append("The switch `");
                s.append(id.as_str());
                s.append("` does not exist");
            },
            PowerError::PermissionDenied { id } => {
                s.append(
                    "You are either lacking permission to use switches or you do not have access to the switch `",
                );
                s.append(id.as_str());
                s.append("`");
            },
            PowerError::NotEnoughPowerDrawData => {
                s.append(
                    "Not enough power draw data: averaging requires more power draw data: please wait a few hours",
                );
            },
            PowerError::ServerError => {
                s.append("The server was unable to handle this switch");
            },
            PowerError::Unknown { message } => {
                s.append("Unknown error: ");
                s.append(message.as_str());
            },
        }
        proof {
            assert(s@ =~= power_error_message(*self));
        }
        s
    }
}

} // verus!

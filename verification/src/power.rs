//! The binary protocol of the kernel power bridge.
use crate::ipc::{BatteryStatus, UNKNOWN_PERCENT};
use vstd::prelude::*;

verus! {

/// The version byte of the protocol.
pub const PROTOCOL_VERSION: u8 = 2;

/// What became of an update.
#[derive(Clone, Copy, Debug, PartialEq, Eq, Structural)]
pub enum UpdateOutcome {
    /// The whole payload was written.
    Written,
    /// There is no device node, so nothing was written.
    Missing,
}

/// The percentage as the protocol holds it: below zero becomes 0, above one
/// hundred becomes 100.
pub open spec fn capacity(percent: i16) -> u8 {
    if percent < 0 {
        0
    } else if percent > 100 {
        100
    } else {
        percent as u8
    }
}

/// A boolean as a byte.
pub open spec fn flag(value: bool) -> u8 {
    if value {
        1
    } else {
        0
    }
}

/// The update that carries a battery status: the version, then presence,
/// capacity and charging of the left earbud, of the right one and of the case,
/// and last whether the value of the case is an old one.
pub open spec fn payload(battery: BatteryStatus) -> Seq<u8> {
    seq![
        PROTOCOL_VERSION,
        flag(battery.left_percent >= 0),
        capacity(battery.left_percent),
        flag(battery.left_charging),
        flag(battery.right_percent >= 0),
        capacity(battery.right_percent),
        flag(battery.right_charging),
        flag(battery.case_percent >= 0),
        capacity(battery.case_percent),
        flag(battery.case_charging),
        flag(battery.case_stale),
    ]
}

/// What the kernel accepts as an update.
pub open spec fn accepted_by_kernel(update: Seq<u8>) -> bool {
    &&& update.len() == 11
    &&& update[0] == PROTOCOL_VERSION
    &&& update[1] <= 1 && update[3] <= 1
    &&& update[4] <= 1 && update[6] <= 1
    &&& update[7] <= 1 && update[9] <= 1 && update[10] <= 1
    &&& update[1] == 1 ==> update[2] <= 100
    &&& update[4] == 1 ==> update[5] <= 100
    &&& update[7] == 1 ==> update[8] <= 100
}

/// The percentage that an update gives.
pub open spec fn percent_in(present: u8, capacity: u8) -> i16 {
    if present == 1 {
        capacity as i16
    } else {
        UNKNOWN_PERCENT
    }
}

/// The battery status that an update gives.
pub open spec fn status_in(update: Seq<u8>) -> BatteryStatus {
    BatteryStatus {
        left_percent: percent_in(update[1], update[2]),
        left_charging: update[3] == 1,
        right_percent: percent_in(update[4], update[5]),
        right_charging: update[6] == 1,
        case_percent: percent_in(update[7], update[8]),
        case_charging: update[9] == 1,
        case_stale: update[10] == 1,
    }
}

fn percent_byte(percent: i16) -> (byte: u8)
    ensures
        byte == capacity(percent),
{
    if percent < 0 {
        0
    } else if percent > 100 {
        100
    } else {
        percent as u8
    }
}

fn flag_byte(value: bool) -> (byte: u8)
    ensures
        byte == flag(value),
{
    if value {
        1
    } else {
        0
    }
}

/// The device node of the kernel module, opened anew for every update.
#[derive(Debug)]
pub struct PowerBridge {
    /// The path of the device node.
    pub path: String,
}

impl Default for PowerBridge {
    /// The bridge at `/dev/airpods_power`.
    fn default() -> (bridge: PowerBridge)
        ensures
            bridge.path@ == "/dev/airpods_power"@,
    {
        PowerBridge { path: "/dev/airpods_power".to_owned() }
    }
}

impl PowerBridge {
    /// The update that removes every battery.
    pub fn invalidate(&self) -> (update: Vec<u8>)
        ensures
            update@ == payload(BatteryStatus::none()),
    {
        self.update(BatteryStatus::unavailable())
    }

    /// The update that carries a battery status.
    pub fn update(&self, battery: BatteryStatus) -> (update: Vec<u8>)
        ensures
            update@ == payload(battery),
    {
        vec![
            PROTOCOL_VERSION,
            flag_byte(battery.left_percent >= 0),
            percent_byte(battery.left_percent),
            flag_byte(battery.left_charging),
            flag_byte(battery.right_percent >= 0),
            percent_byte(battery.right_percent),
            flag_byte(battery.right_charging),
            flag_byte(battery.case_percent >= 0),
            percent_byte(battery.case_percent),
            flag_byte(battery.case_charging),
            flag_byte(battery.case_stale),
        ]
    }
}

/// What became of writing to the device node.
#[derive(Debug)]
pub enum NodeAccess {
    /// There is no device node.
    NotFound,
    /// The device node could not be opened, or not be written to, with the reason.
    Failed(String),
    /// The whole update was written.
    Complete,
}

/// What became of an update. That there is no device node is no error.
pub fn update_outcome(access: NodeAccess) -> (outcome: Result<UpdateOutcome, String>)
    ensures
        outcome == (match access {
            NodeAccess::NotFound => Ok::<UpdateOutcome, String>(UpdateOutcome::Missing),
            NodeAccess::Failed(error) => Err::<UpdateOutcome, String>(error),
            NodeAccess::Complete => Ok::<UpdateOutcome, String>(UpdateOutcome::Written),
        }),
{
    match access {
        NodeAccess::NotFound => Ok(UpdateOutcome::Missing),
        NodeAccess::Failed(error) => Err(error),
        NodeAccess::Complete => Ok(UpdateOutcome::Written),
    }
}

/// Every update is one that the kernel accepts.
pub proof fn law_updates_are_accepted(battery: BatteryStatus)
    ensures
        accepted_by_kernel(payload(battery)),
{
}

/// An update gives back the status that it was made from, where the percentages
/// are unknown or between 0 and 100.
pub proof fn law_updates_keep_the_status(battery: BatteryStatus)
    requires
        battery.in_range(),
    ensures
        status_in(payload(battery)) == battery,
{
}

/// The update that removes every battery marks all three of them absent.
pub proof fn law_invalidation_removes_all()
    ensures
        payload(BatteryStatus::none())[1] == 0,
        payload(BatteryStatus::none())[4] == 0,
        payload(BatteryStatus::none())[7] == 0,
{
}

/// An update says of each battery what the status says of it: byte by byte its presence,
/// its percentage up to one hundred, and whether it is charging.
pub proof fn law_updates_say_what_the_status_says(
    bridge: &PowerBridge,
    battery: BatteryStatus,
    update: Vec<u8>,
)
    requires
        call_ensures(PowerBridge::update, (bridge, battery), update),
    ensures
        update@.len() == 11 && update@[0] == 2,
        update@[1] == 1 <==> battery.left_percent >= 0,
        update@[3] == 1 <==> battery.left_charging,
        update@[4] == 1 <==> battery.right_percent >= 0,
        update@[6] == 1 <==> battery.right_charging,
        update@[7] == 1 <==> battery.case_percent >= 0,
        update@[9] == 1 <==> battery.case_charging,
        update@[10] == 1 <==> battery.case_stale,
        0 <= battery.left_percent <= 100 ==> update@[2] == battery.left_percent,
        0 <= battery.right_percent <= 100 ==> update@[5] == battery.right_percent,
        0 <= battery.case_percent <= 100 ==> update@[8] == battery.case_percent,
        battery.left_percent > 100 ==> update@[2] == 100,
        battery.right_percent > 100 ==> update@[5] == 100,
        battery.case_percent > 100 ==> update@[8] == 100,
        battery.left_percent < 0 ==> update@[2] == 0,
        battery.right_percent < 0 ==> update@[5] == 0,
        battery.case_percent < 0 ==> update@[8] == 0,
        forall|i: int| 0 <= i < 11 && i % 3 != 2 && i > 0 ==> #[trigger] update@[i] <= 1,
{
}

/// An invalidation removes all three batteries and claims nothing of them.
pub proof fn law_invalidations_remove_every_battery(bridge: &PowerBridge, update: Vec<u8>)
    requires
        call_ensures(PowerBridge::invalidate, (bridge,), update),
    ensures
        update@ == seq![2u8, 0, 0, 0, 0, 0, 0, 0, 0, 0, 1],
{
    assert(update@ =~= seq![2u8, 0, 0, 0, 0, 0, 0, 0, 0, 0, 1]);
}

/// Only a complete write counts as one; a missing node is no error, and any other obstacle
/// is handed on.
pub proof fn law_only_complete_writes_count(
    access: NodeAccess,
    outcome: Result<UpdateOutcome, String>,
)
    requires
        call_ensures(update_outcome, (access,), outcome),
    ensures
        outcome == Ok::<UpdateOutcome, String>(UpdateOutcome::Written) <==> access is Complete,
        outcome == Ok::<UpdateOutcome, String>(UpdateOutcome::Missing) <==> access is NotFound,
        access matches NodeAccess::Failed(error) ==> outcome == Err::<UpdateOutcome, String>(error),
{
}

} // verus!

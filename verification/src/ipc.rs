//! The D-Bus contract that the daemon, the command line and the GUI share.
use crate::decibel::Decibels;
use vstd::prelude::*;

verus! {

/// The name of the daemon on the session bus.
pub const BUS_NAME: &'static str = "io.github.abdulloh404.AirPods";

/// The object path of the daemon.
pub const OBJECT_PATH: &'static str = "/io/github/abdulloh404/AirPods";

/// The name of the interface that manages AirPods.
pub const MANAGER_INTERFACE: &'static str = "io.github.abdulloh404.AirPods.Manager1";

/// The latest state of the daemon and of the virtual microphone.
#[derive(Debug)]
pub struct DaemonStatus {
    /// The name of the audio state, for display.
    pub state: String,
    /// The Bluetooth address of the selected device, empty where none is selected.
    pub selected_device: String,
    /// Whether the virtual microphone is running.
    pub mic_active: bool,
    /// The number of the reconnect attempt of the current audio session.
    pub reconnect_attempt: u32,
    /// The gain before the limiter, in dB.
    pub gain_db: Decibels,
    /// The ceiling of the limiter, in dBFS.
    pub limiter_db: Decibels,
    /// Whether the kernel power bridge is available.
    pub power_bridge_available: bool,
    /// The last error, empty where there is none.
    pub last_error: String,
}

/// The model of a `DaemonStatus`.
pub struct StatusView {
    pub state: Seq<char>,
    pub selected_device: Seq<char>,
    pub mic_active: bool,
    pub reconnect_attempt: u32,
    pub gain_db: Decibels,
    pub limiter_db: Decibels,
    pub power_bridge_available: bool,
    pub last_error: Seq<char>,
}

impl View for DaemonStatus {
    type V = StatusView;

    open spec fn view(&self) -> StatusView {
        StatusView {
            state: self.state@,
            selected_device: self.selected_device@,
            mic_active: self.mic_active,
            reconnect_attempt: self.reconnect_attempt,
            gain_db: self.gain_db,
            limiter_db: self.limiter_db,
            power_bridge_available: self.power_bridge_available,
            last_error: self.last_error@,
        }
    }
}

impl Clone for DaemonStatus {
    /// A copy of the status.
    fn clone(&self) -> (status: DaemonStatus)
        ensures
            status@ == self@,
    {
        DaemonStatus {
            state: self.state.clone(),
            selected_device: self.selected_device.clone(),
            mic_active: self.mic_active,
            reconnect_attempt: self.reconnect_attempt,
            gain_db: self.gain_db,
            limiter_db: self.limiter_db,
            power_bridge_available: self.power_bridge_available,
            last_error: self.last_error.clone(),
        }
    }
}

/// AirPods that the daemon found through BlueZ.
#[derive(Debug, PartialEq, Eq)]
pub struct DeviceInfo {
    /// The Bluetooth address, which selects the device.
    pub address: String,
    /// The name that BlueZ reports.
    pub name: String,
    /// Whether BlueZ reports the device as connected.
    pub connected: bool,
    /// Whether the daemon has this device selected.
    pub selected: bool,
}

/// The model of a `DeviceInfo`.
pub struct DeviceView {
    pub address: Seq<char>,
    pub name: Seq<char>,
    pub connected: bool,
    pub selected: bool,
}

impl View for DeviceInfo {
    type V = DeviceView;

    open spec fn view(&self) -> DeviceView {
        DeviceView {
            address: self.address@,
            name: self.name@,
            connected: self.connected,
            selected: self.selected,
        }
    }
}

/// The models of a list of devices.
pub open spec fn device_views(devices: Seq<DeviceInfo>) -> Seq<DeviceView> {
    devices.map_values(|d: DeviceInfo| d@)
}

impl Clone for DeviceInfo {
    /// A copy of the device.
    fn clone(&self) -> (device: DeviceInfo)
        ensures
            device@ == self@,
    {
        DeviceInfo {
            address: self.address.clone(),
            name: self.name.clone(),
            connected: self.connected,
            selected: self.selected,
        }
    }
}

impl DeviceInfo {
    /// Whether two devices agree in every field.
    pub fn same_as(&self, other: &DeviceInfo) -> (same: bool)
        ensures
            same == (self@ == other@),
    {
        self.address == other.address && self.name == other.name && self.connected
            == other.connected && self.selected == other.selected
    }
}

/// A copy of a list of devices.
pub(crate) fn copy_devices(devices: &Vec<DeviceInfo>) -> (copies: Vec<DeviceInfo>)
    ensures
        device_views(copies@) == device_views(devices@),
{
    let mut copies: Vec<DeviceInfo> = Vec::new();
    for i in 0..devices.len()
        invariant
            copies.len() == i,
            forall|j: int| 0 <= j < i ==> (#[trigger] copies@[j])@ == devices@[j]@,
    {
        copies.push(devices[i].clone());
    }
    assert(device_views(copies@) =~= device_views(devices@));
    copies
}

/// Whether two lists hold the same devices in the same order.
pub(crate) fn same_devices(left: &Vec<DeviceInfo>, right: &Vec<DeviceInfo>) -> (same: bool)
    ensures
        same == (device_views(left@) == device_views(right@)),
{
    if left.len() != right.len() {
        assert(device_views(left@).len() != device_views(right@).len());
        return false;
    }
    for i in 0..left.len()
        invariant
            left.len() == right.len(),
            forall|j: int| 0 <= j < i ==> (#[trigger] left@[j])@ == right@[j]@,
    {
        if !left[i].same_as(&right[i]) {
            assert(device_views(left@)[i as int] != device_views(right@)[i as int]);
            return false;
        }
    }
    assert(device_views(left@) =~= device_views(right@));
    true
}

/// The percentage of a battery of which no value is known.
pub const UNKNOWN_PERCENT: i16 = -1;

/// The battery values of both earbuds and of the charging case.
#[derive(Clone, Copy, Debug, PartialEq, Eq, Structural)]
pub struct BatteryStatus {
    /// The percentage of the left earbud, `-1` where it is unknown.
    pub left_percent: i16,
    /// Whether the left earbud is charging.
    pub left_charging: bool,
    /// The percentage of the right earbud, `-1` where it is unknown.
    pub right_percent: i16,
    /// Whether the right earbud is charging.
    pub right_charging: bool,
    /// The percentage of the case, `-1` where none was ever received.
    pub case_percent: i16,
    /// Whether the case was charging when its value was received.
    pub case_charging: bool,
    /// Whether the value of the case is an old one, kept while the case is silent.
    pub case_stale: bool,
}

/// Whether a percentage is unknown or between 0 and 100.
pub open spec fn known_or_unknown(percent: i16) -> bool {
    -1 <= percent <= 100
}

impl BatteryStatus {
    /// The status in which no battery value can be relied on.
    pub open spec fn none() -> BatteryStatus {
        BatteryStatus {
            left_percent: UNKNOWN_PERCENT,
            left_charging: false,
            right_percent: UNKNOWN_PERCENT,
            right_charging: false,
            case_percent: UNKNOWN_PERCENT,
            case_charging: false,
            case_stale: true,
        }
    }

    /// Whether every percentage is unknown or between 0 and 100.
    pub open spec fn in_range(self) -> bool {
        &&& known_or_unknown(self.left_percent)
        &&& known_or_unknown(self.right_percent)
        &&& known_or_unknown(self.case_percent)
    }

    /// The status in which no battery value can be relied on.
    pub fn unavailable() -> (status: BatteryStatus)
        ensures
            status == BatteryStatus::none(),
    {
        BatteryStatus {
            left_percent: UNKNOWN_PERCENT,
            left_charging: false,
            right_percent: UNKNOWN_PERCENT,
            right_charging: false,
            case_percent: UNKNOWN_PERCENT,
            case_charging: false,
            case_stale: true,
        }
    }
}

/// Devices are equal exactly where each of their fields is.
pub proof fn law_devices_are_equal_field_by_field(left: &DeviceInfo, right: &DeviceInfo, same: bool)
    requires
        call_ensures(DeviceInfo::same_as, (left, right), same),
    ensures
        same <==> left.address@ == right.address@ && left.name@ == right.name@ && left.connected
            == right.connected && left.selected == right.selected,
{
}

/// Without a value nothing is claimed: every percentage is -1, nothing is charging, and the
/// value of the case is an old one.
pub proof fn law_nothing_is_claimed_without_a_value(status: BatteryStatus)
    requires
        call_ensures(BatteryStatus::unavailable, (), status),
    ensures
        status.left_percent == -1 && status.right_percent == -1 && status.case_percent == -1,
        !status.left_charging && !status.right_charging && !status.case_charging,
        status.case_stale,
{
}

} // verus!

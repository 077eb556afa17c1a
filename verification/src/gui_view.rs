//! What the GUI shows, and what it asks for.
//!
//! Levels stay levels here; they become text where the widgets are.
use crate::decibel::Decibels;
use crate::gui_client::{Command, Event, EventView};
use crate::ipc::{device_views, BatteryStatus, DaemonStatus, DeviceInfo, DeviceView, StatusView};
use crate::text::{
    ascii, decimal, lowercase, same_text, text_option, to_decimal, to_lowercase, to_uppercase,
    unicode_uppercase, uppercase,
};
use vstd::prelude::*;

verus! {

/// The interval at which the GUI looks for events.
pub const EVENT_INTERVAL_MS: u64 = 80;

/// The command of the microphone button.
pub fn mic_clicked(mic_active: bool) -> (command: Command)
    ensures
        command == if mic_active {
            Command::StopMic
        } else {
            Command::StartMic
        },
{
    if mic_active {
        Command::StopMic
    } else {
        Command::StartMic
    }
}

/// The command of a gain that was changed, unless the GUI itself changed it.
pub fn gain_changed(updating: bool, gain_db: Decibels) -> (command: Option<Command>)
    ensures
        command == if updating {
            None
        } else {
            Some(Command::SetGain(gain_db))
        },
{
    if updating {
        None
    } else {
        Some(Command::SetGain(gain_db))
    }
}

/// The command of a limiter that was changed, unless the GUI itself changed it.
pub fn limiter_changed(updating: bool, limiter_db: Decibels) -> (command: Option<Command>)
    ensures
        command == if updating {
            None
        } else {
            Some(Command::SetLimiter(limiter_db))
        },
{
    if updating {
        None
    } else {
        Some(Command::SetLimiter(limiter_db))
    }
}

/// The command of a device that was chosen, unless the GUI itself chose it.
pub fn device_chosen(updating: bool, address: Option<String>) -> (command: Option<Command>)
    ensures
        command == (match address {
            Some(address) => if updating {
                None
            } else {
                Some(Command::SelectDevice(address))
            },
            None => None,
        }),
{
    if updating {
        return None;
    }
    match address {
        Some(address) => Some(Command::SelectDevice(address)),
        None => None,
    }
}

/// An entry of the list of devices.
#[derive(Debug)]
pub struct DeviceRow {
    /// The address, by which the entry is chosen.
    pub address: String,
    /// What the entry shows.
    pub label: String,
}

/// The model of a `DeviceRow`.
pub struct RowView {
    pub address: Seq<char>,
    pub label: Seq<char>,
}

impl View for DeviceRow {
    type V = RowView;

    open spec fn view(&self) -> RowView {
        RowView { address: self.address@, label: self.label@ }
    }
}

/// The list of devices as the GUI shows it.
#[derive(Debug)]
pub struct DevicesPanel {
    /// The entries, in their order.
    pub rows: Vec<DeviceRow>,
    /// The address of the chosen entry.
    pub active: Option<String>,
    /// Whether there are no entries.
    pub is_empty: bool,
    /// The state of the chosen device.
    pub state: &'static str,
}

/// The model of a `DevicesPanel`.
pub struct DevicesPanelView {
    pub rows: Seq<RowView>,
    pub active: Option<Seq<char>>,
    pub is_empty: bool,
    pub state: Seq<char>,
}

impl View for DevicesPanel {
    type V = DevicesPanelView;

    open spec fn view(&self) -> DevicesPanelView {
        DevicesPanelView {
            rows: self.rows@.map_values(|r: DeviceRow| r@),
            active: text_option(self.active),
            is_empty: self.is_empty,
            state: self.state@,
        }
    }
}

/// The entry of a device.
pub open spec fn row_of(device: DeviceView) -> RowView {
    RowView {
        address: device.address,
        label: device.name + "  ·  "@ + if device.connected {
            "connected"@
        } else {
            "offline"@
        },
    }
}

/// The first device with the given address.
pub open spec fn with_address(devices: Seq<DeviceView>, address: Seq<char>) -> Option<DeviceView>
    decreases devices.len(),
{
    if devices.len() == 0 {
        None
    } else if devices[0].address == address {
        Some(devices[0])
    } else {
        with_address(devices.skip(1), address)
    }
}

/// The first device that is selected.
pub open spec fn first_selected(devices: Seq<DeviceView>) -> Option<DeviceView>
    decreases devices.len(),
{
    if devices.len() == 0 {
        None
    } else if devices[0].selected {
        Some(devices[0])
    } else {
        first_selected(devices.skip(1))
    }
}

/// The address of the entry to choose: the given one where there is such a device,
/// else that of the selected device.
pub open spec fn chosen_address(devices: Seq<DeviceView>, selected: Seq<char>) -> Option<
    Seq<char>,
> {
    match with_address(devices, selected) {
        Some(device) => Some(device.address),
        None => match first_selected(devices) {
            Some(device) => Some(device.address),
            None => None,
        },
    }
}

/// What the GUI says of the chosen device.
pub open spec fn device_state(devices: Seq<DeviceView>, chosen: Option<Seq<char>>) -> Seq<char> {
    let device = match chosen {
        Some(address) => with_address(devices, address),
        None => None,
    };
    match device {
        Some(device) => if device.connected {
            "CONNECTED"@
        } else {
            "NOT CONNECTED"@
        },
        None => if devices.len() == 0 {
            "NO DEVICE"@
        } else {
            "SELECT A DEVICE"@
        },
    }
}

/// The list of devices as the GUI shows it.
pub open spec fn shown_devices(devices: Seq<DeviceView>, selected: Seq<char>) -> DevicesPanelView {
    DevicesPanelView {
        rows: devices.map_values(|d: DeviceView| row_of(d)),
        active: chosen_address(devices, selected),
        is_empty: devices.len() == 0,
        state: device_state(devices, chosen_address(devices, selected)),
    }
}

fn find_address<'a>(devices: &'a Vec<DeviceInfo>, address: &str) -> (found: Option<&'a DeviceInfo>)
    ensures
        match found {
            Some(device) => with_address(device_views(devices@), address@) == Some(device@),
            None => with_address(device_views(devices@), address@) is None,
        },
{
    let ghost views = device_views(devices@);
    assert(views.skip(0) =~= views);
    for i in 0..devices.len()
        invariant
            views == device_views(devices@),
            with_address(views, address@) == with_address(views.skip(i as int), address@),
    {
        assert(views.skip(i as int)[0] == devices@[i as int]@);
        assert(views.skip(i as int).skip(1) =~= views.skip(i + 1));
        if same_text(devices[i].address.as_str(), address) {
            return Some(&devices[i]);
        }
    }
    None
}

fn find_selected(devices: &Vec<DeviceInfo>) -> (found: Option<&DeviceInfo>)
    ensures
        match found {
            Some(device) => first_selected(device_views(devices@)) == Some(device@),
            None => first_selected(device_views(devices@)) is None,
        },
{
    let ghost views = device_views(devices@);
    assert(views.skip(0) =~= views);
    for i in 0..devices.len()
        invariant
            views == device_views(devices@),
            first_selected(views) == first_selected(views.skip(i as int)),
    {
        assert(views.skip(i as int)[0] == devices@[i as int]@);
        assert(views.skip(i as int).skip(1) =~= views.skip(i + 1));
        if devices[i].selected {
            return Some(&devices[i]);
        }
    }
    None
}

/// The list of devices, with the given address as the one to choose.
pub fn update_devices(devices: &Vec<DeviceInfo>, selected_address: &str) -> (panel: DevicesPanel)
    ensures
        panel@ == shown_devices(device_views(devices@), selected_address@),
{
    let mut rows: Vec<DeviceRow> = Vec::new();
    for i in 0..devices.len()
        invariant
            rows.len() == i,
            forall|j: int| 0 <= j < i ==> (#[trigger] rows@[j])@ == row_of(devices@[j]@),
    {
        let mut label = devices[i].name.clone();
        label.append("  ·  ");
        label.append(
            if devices[i].connected {
                "connected"
            } else {
                "offline"
            },
        );
        rows.push(DeviceRow { address: devices[i].address.clone(), label });
    }
    assert(rows@.map_values(|r: DeviceRow| r@) =~= device_views(devices@).map_values(
        |d: DeviceView| row_of(d),
    ));
    let active = match find_address(devices, selected_address) {
        Some(device) => Some(device.address.clone()),
        None => match find_selected(devices) {
            Some(device) => Some(device.address.clone()),
            None => None,
        },
    };
    let is_empty = devices.len() == 0;
    let device = match &active {
        Some(address) => find_address(devices, address.as_str()),
        None => None,
    };
    let state = match device {
        Some(device) => if device.connected {
            "CONNECTED"
        } else {
            "NOT CONNECTED"
        },
        None => if is_empty {
            "NO DEVICE"
        } else {
            "SELECT A DEVICE"
        },
    };
    DevicesPanel { rows, active, is_empty, state }
}

/// The status as the GUI shows it.
#[derive(Debug)]
pub struct StatusPanel {
    /// The text of the badge.
    pub badge: String,
    /// The style of the badge.
    pub badge_class: &'static str,
    /// Whether the controls can be used.
    pub has_device: bool,
    /// Whether the microphone is running.
    pub mic_active: bool,
    /// The label of the microphone button.
    pub mic_label: &'static str,
    /// The gain.
    pub gain_db: Decibels,
    /// The limiter.
    pub limiter_db: Decibels,
    /// What is said of the power bridge.
    pub power_bridge: &'static str,
    /// The error to show; `None` hides the last one.
    pub error: Option<String>,
}

/// The style of the badge for a state, in any case.
pub open spec fn class_of(state: Seq<char>) -> Seq<char> {
    let normalized = lowercase(state);
    if normalized == "streaming"@ || normalized == "idle"@ || normalized == "ready"@ {
        "state-ok"@
    } else if normalized == "error"@ {
        "state-error"@
    } else {
        "state-warn"@
    }
}

/// The style of the badge for a state, in any case.
pub fn state_class(state: &str) -> (class: &'static str)
    ensures
        class@ == class_of(state@),
{
    let normalized = to_lowercase(state);
    if same_text(normalized.as_str(), "streaming") || same_text(normalized.as_str(), "idle")
        || same_text(normalized.as_str(), "ready") {
        "state-ok"
    } else if same_text(normalized.as_str(), "error") {
        "state-error"
    } else {
        "state-warn"
    }
}

/// Whether a panel shows a status, with the given badge.
pub open spec fn shows(panel: StatusPanel, status: StatusView, badge: Seq<char>) -> bool {
    &&& panel.badge@ == badge
    &&& panel.badge_class@ == class_of(status.state)
    &&& panel.has_device == (status.selected_device.len() > 0)
    &&& panel.mic_active == status.mic_active
    &&& panel.mic_label@ == if status.mic_active {
        "Stop microphone"@
    } else {
        "Start microphone"@
    }
    &&& panel.gain_db == status.gain_db
    &&& panel.limiter_db == status.limiter_db
    &&& panel.power_bridge@ == if status.power_bridge_available {
        "UPower bridge: online"@
    } else {
        "UPower bridge: unavailable"@
    }
    &&& text_option(panel.error) == if status.last_error.len() == 0 {
        None
    } else {
        Some(status.last_error)
    }
}

/// The status with a given badge, as the GUI shows it.
pub fn status_panel(status: &DaemonStatus, badge: String) -> (panel: StatusPanel)
    ensures
        shows(panel, status@, badge@),
{
    StatusPanel {
        badge,
        badge_class: state_class(status.state.as_str()),
        has_device: !status.selected_device.as_str().is_empty(),
        mic_active: status.mic_active,
        mic_label: if status.mic_active {
            "Stop microphone"
        } else {
            "Start microphone"
        },
        gain_db: status.gain_db,
        limiter_db: status.limiter_db,
        power_bridge: if status.power_bridge_available {
            "UPower bridge: online"
        } else {
            "UPower bridge: unavailable"
        },
        error: if status.last_error.as_str().is_empty() {
            None
        } else {
            Some(status.last_error.clone())
        },
    }
}

/// The status as the GUI shows it; its badge is the state in uppercase.
pub fn update_status(status: &DaemonStatus) -> (panel: StatusPanel)
    ensures
        shows(panel, status@, unicode_uppercase(status.state@)),
        ascii(status.state@) ==> panel.badge@ == uppercase(status.state@),
{
    status_panel(status, to_uppercase(status.state.as_str()))
}

/// A battery as the GUI shows it.
#[derive(Debug)]
pub struct BatteryPanel {
    /// The value.
    pub value: String,
    /// How far the bar is filled, in percent.
    pub filled_percent: u8,
    /// The tooltip of the bar.
    pub tooltip: String,
}

/// The model of a `BatteryPanel`.
pub struct BatteryPanelView {
    pub value: Seq<char>,
    pub filled_percent: u8,
    pub tooltip: Seq<char>,
}

impl View for BatteryPanel {
    type V = BatteryPanelView;

    open spec fn view(&self) -> BatteryPanelView {
        BatteryPanelView {
            value: self.value@,
            filled_percent: self.filled_percent,
            tooltip: self.tooltip@,
        }
    }
}

/// A percentage, at most one hundred.
pub open spec fn at_most_full(percent: i16) -> u8 {
    if percent > 100 {
        100
    } else {
        percent as u8
    }
}

/// A battery as the GUI shows it.
pub open spec fn shown_battery(percent: i16, charging: bool) -> BatteryPanelView {
    if percent < 0 {
        BatteryPanelView {
            value: "—"@,
            filled_percent: 0,
            tooltip: "Battery level unavailable"@,
        }
    } else {
        let filled = at_most_full(percent);
        BatteryPanelView {
            value: (if charging {
                "⚡ "@
            } else {
                ""@
            }) + decimal(filled as nat) + "%"@,
            filled_percent: filled,
            tooltip: "Battery level: "@ + decimal(filled as nat) + "%"@ + if charging {
                ", charging"@
            } else {
                ""@
            },
        }
    }
}

/// A battery as the GUI shows it.
pub fn update_battery(percent: i16, charging: bool) -> (panel: BatteryPanel)
    ensures
        panel@ == shown_battery(percent, charging),
{
    if percent < 0 {
        return BatteryPanel {
            value: "—".to_owned(),
            filled_percent: 0,
            tooltip: "Battery level unavailable".to_owned(),
        };
    }
    let filled: u8 = if percent > 100 {
        100
    } else {
        percent as u8
    };
    let number = to_decimal(filled as u128);
    let mut value = if charging {
        "⚡ ".to_owned()
    } else {
        "".to_owned()
    };
    value.append(number.as_str());
    value.append("%");
    let mut tooltip = "Battery level: ".to_owned();
    tooltip.append(number.as_str());
    tooltip.append("%");
    tooltip.append(
        if charging {
            ", charging"
        } else {
            ""
        },
    );
    BatteryPanel { value, filled_percent: filled, tooltip }
}

/// A part of the GUI that is to be shown anew.
#[derive(Debug)]
pub enum Update {
    /// The list of devices.
    Devices(DevicesPanel),
    /// The status.
    Status(StatusPanel),
    /// The battery of the left earbud.
    Left(BatteryPanel),
    /// The battery of the right earbud.
    Right(BatteryPanel),
    /// The badge, with its style.
    Badge { text: &'static str, class: &'static str },
    /// An error.
    Error(String),
}

/// Whether an update shows the batteries of a status, the left one or the right one.
pub open spec fn updates_battery(update: Update, battery: BatteryStatus, left: bool) -> bool {
    if left {
        update matches Update::Left(panel) && panel@ == shown_battery(
            battery.left_percent,
            battery.left_charging,
        )
    } else {
        update matches Update::Right(panel) && panel@ == shown_battery(
            battery.right_percent,
            battery.right_charging,
        )
    }
}

/// Whether an update shows a list of devices.
pub open spec fn updates_devices(
    update: Update,
    devices: Seq<DeviceView>,
    selected: Seq<char>,
) -> bool {
    update matches Update::Devices(panel) && panel@ == shown_devices(devices, selected)
}

/// Whether an update shows a status.
pub open spec fn updates_status(update: Update, status: StatusView) -> bool {
    update matches Update::Status(panel) && shows(panel, status, unicode_uppercase(status.state))
}

/// Whether updates show an event, in their order. `chosen` is the address of the
/// entry that is chosen in the list of devices.
pub open spec fn updates_show(
    updates: Seq<Update>,
    event: EventView,
    chosen: Option<Seq<char>>,
) -> bool {
    match event {
        EventView::Snapshot { status, devices, battery } => {
            &&& updates.len() == 4
            &&& updates_devices(updates[0], devices, status.selected_device)
            &&& updates_status(updates[1], status)
            &&& updates_battery(updates[2], battery, true)
            &&& updates_battery(updates[3], battery, false)
        },
        EventView::Status(status) => updates.len() == 1 && updates_status(updates[0], status),
        EventView::Battery(battery) => {
            &&& updates.len() == 2
            &&& updates_battery(updates[0], battery, true)
            &&& updates_battery(updates[1], battery, false)
        },
        EventView::Devices(devices) => {
            &&& updates.len() == 1
            &&& updates_devices(
                updates[0],
                devices,
                match chosen {
                    Some(address) => address,
                    None => Seq::empty(),
                },
            )
        },
        EventView::Error(message) => {
            &&& updates.len() == 2
            &&& updates[0] matches Update::Badge { text, class } && text@ == "UNAVAILABLE"@
                && class@ == "state-error"@
            &&& updates[1] matches Update::Error(shown) && shown@ == message
        },
    }
}

/// The updates that show an event. A change of the devices keeps the chosen entry
/// where it can.
pub fn event_updates(event: Event, chosen: Option<String>) -> (updates: Vec<Update>)
    ensures
        updates_show(updates@, event@, text_option(chosen)),
{
    match event {
        Event::Snapshot { status, devices, battery } => vec![
            Update::Devices(update_devices(&devices, status.selected_device.as_str())),
            Update::Status(update_status(&status)),
            Update::Left(update_battery(battery.left_percent, battery.left_charging)),
            Update::Right(update_battery(battery.right_percent, battery.right_charging)),
        ],
        Event::Status(status) => vec![Update::Status(update_status(&status))],
        Event::Battery(battery) => vec![
            Update::Left(update_battery(battery.left_percent, battery.left_charging)),
            Update::Right(update_battery(battery.right_percent, battery.right_charging)),
        ],
        Event::Devices(devices) => {
            let selected = match chosen {
                Some(address) => address,
                None => String::new(),
            };
            vec![Update::Devices(update_devices(&devices, selected.as_str()))]
        },
        Event::Error(message) => vec![
            Update::Badge { text: "UNAVAILABLE", class: "state-error" },
            Update::Error(message),
        ],
    }
}

proof fn lemma_found_by_address(devices: Seq<DeviceView>, address: Seq<char>)
    ensures
        with_address(devices, address) matches Some(device) ==> device.address == address
            && devices.contains(device),
        with_address(devices, address) is None ==> forall|i: int|
            0 <= i < devices.len() ==> #[trigger] devices[i].address != address,
    decreases devices.len(),
{
    if devices.len() > 0 {
        lemma_found_by_address(devices.skip(1), address);
        if devices[0].address == address {
            assert(devices.contains(devices[0]));
        } else {
            match with_address(devices.skip(1), address) {
                Some(device) => {
                    let i = choose|i: int|
                        0 <= i < devices.skip(1).len() && devices.skip(1)[i] == device;
                    assert(devices[i + 1] == device);
                },
                None => {
                    assert forall|i: int| 0 <= i < devices.len() implies #[trigger] devices[i].address
                        != address by {
                        if i > 0 {
                            assert(devices.skip(1)[i - 1].address != address);
                        }
                    }
                },
            }
        }
    }
}

proof fn lemma_found_selected(devices: Seq<DeviceView>)
    ensures
        first_selected(devices) matches Some(device) ==> device.selected && devices.contains(
            device,
        ),
    decreases devices.len(),
{
    if devices.len() > 0 {
        lemma_found_selected(devices.skip(1));
        if devices[0].selected {
            assert(devices.contains(devices[0]));
        } else {
            match first_selected(devices.skip(1)) {
                Some(device) => {
                    let i = choose|i: int|
                        0 <= i < devices.skip(1).len() && devices.skip(1)[i] == device;
                    assert(devices[i + 1] == device);
                },
                None => {},
            }
        }
    }
}

/// The chosen entry is always one of the list, and it is the given one where the list
/// has it. So a list without entries says that there is no device, and a list in
/// which nothing is chosen asks for a choice.
pub proof fn law_chosen_entry_is_listed(devices: Seq<DeviceView>, selected: Seq<char>)
    ensures
        ({
            let panel = shown_devices(devices, selected);
            &&& panel.active matches Some(address) ==> exists|i: int|
                0 <= i < devices.len() && #[trigger] devices[i].address == address
            &&& (exists|i: int| 0 <= i < devices.len() && #[trigger] devices[i].address == selected)
                ==> panel.active == Some(selected)
            &&& panel.active is None ==> panel.state == if devices.len() == 0 {
                "NO DEVICE"@
            } else {
                "SELECT A DEVICE"@
            }
        }),
{
    lemma_found_by_address(devices, selected);
    lemma_found_selected(devices);
    match with_address(devices, selected) {
        Some(device) => {
            let i = choose|i: int| 0 <= i < devices.len() && devices[i] == device;
            assert(devices[i].address == selected);
        },
        None => match first_selected(devices) {
            Some(device) => {
                let i = choose|i: int| 0 <= i < devices.len() && devices[i] == device;
                assert(devices[i].address == device.address);
            },
            None => {},
        },
    }
}

/// A bar is never filled beyond its end, and shows every percentage as it is.
pub proof fn law_bars_stay_within_bounds(percent: i16, charging: bool)
    ensures
        shown_battery(percent, charging).filled_percent <= 100,
        0 <= percent <= 100 ==> shown_battery(percent, charging).filled_percent == percent,
{
}

/// The microphone button does the opposite of what is going on, and nothing that the GUI itself
/// changes becomes a command; what the user changes becomes the command for exactly that.
pub proof fn law_only_the_user_gives_commands(
    mic_active: bool,
    clicked: Command,
    updating: bool,
    level: Decibels,
    gain: Option<Command>,
    limiter: Option<Command>,
    address: Option<String>,
    chosen: Option<Command>,
)
    requires
        call_ensures(mic_clicked, (mic_active,), clicked),
        call_ensures(gain_changed, (updating, level), gain),
        call_ensures(limiter_changed, (updating, level), limiter),
        call_ensures(device_chosen, (updating, address), chosen),
    ensures
        clicked is StopMic <==> mic_active,
        clicked is StartMic <==> !mic_active,
        updating ==> gain is None && limiter is None && chosen is None,
        !updating ==> gain == Some(Command::SetGain(level)),
        !updating ==> limiter == Some(Command::SetLimiter(level)),
        !updating && address is Some ==> chosen == Some(Command::SelectDevice(address->0)),
        address is None ==> chosen is None,
{
}

proof fn lemma_first_selected(devices: Seq<DeviceView>, i: int)
    requires
        0 <= i < devices.len(),
        devices[i].selected,
        forall|j: int| 0 <= j < i ==> !(#[trigger] devices[j]).selected,
    ensures
        first_selected(devices) == Some(devices[i]),
    decreases devices.len(),
{
    if i > 0 {
        let rest = devices.skip(1);
        assert(!devices[0].selected);
        assert forall|j: int| 0 <= j < i - 1 implies !(#[trigger] rest[j]).selected by {
            assert(!devices[j + 1].selected);
        }
        lemma_first_selected(rest, i - 1);
    }
}

proof fn lemma_first_with_address(devices: Seq<DeviceView>, address: Seq<char>, i: int)
    requires
        0 <= i < devices.len(),
        devices[i].address == address,
        forall|j: int| 0 <= j < i ==> (#[trigger] devices[j]).address != address,
    ensures
        with_address(devices, address) == Some(devices[i]),
    decreases devices.len(),
{
    if i > 0 {
        let rest = devices.skip(1);
        assert(devices[0].address != address);
        assert forall|j: int| 0 <= j < i - 1 implies (#[trigger] rest[j]).address != address by {
            assert(devices[j + 1].address != address);
        }
        lemma_first_with_address(rest, address, i - 1);
    }
}

proof fn lemma_none_selected(devices: Seq<DeviceView>)
    requires
        forall|j: int| 0 <= j < devices.len() ==> !(#[trigger] devices[j]).selected,
    ensures
        first_selected(devices) is None,
    decreases devices.len(),
{
    if devices.len() > 0 {
        let rest = devices.skip(1);
        assert(!devices[0].selected);
        assert forall|j: int| 0 <= j < rest.len() implies !(#[trigger] rest[j]).selected by {
            assert(!devices[j + 1].selected);
        }
        lemma_none_selected(rest);
    }
}

/// Every device has an entry, in the order of the list, under its own address, with its name and
/// whether it is connected.
pub proof fn law_every_device_has_its_entry(
    devices: &Vec<DeviceInfo>,
    selected: &str,
    panel: DevicesPanel,
    i: int,
)
    requires
        call_ensures(update_devices, (devices, selected), panel),
    ensures
        panel.rows@.len() == devices@.len(),
        panel.is_empty <==> devices@.len() == 0,
        0 <= i < devices@.len() ==> panel.rows@[i].address@ == devices@[i].address@,
        0 <= i < devices@.len() && devices@[i].connected ==> panel.rows@[i].label@
            == devices@[i].name@ + "  ·  "@ + "connected"@,
        0 <= i < devices@.len() && !devices@[i].connected ==> panel.rows@[i].label@
            == devices@[i].name@ + "  ·  "@ + "offline"@,
{
    let views = device_views(devices@);
    let rows = panel@.rows;
    assert(views.len() == devices@.len());
    assert(rows.len() == panel.rows@.len());
    assert(panel@.is_empty == panel.is_empty);
    if 0 <= i < devices@.len() {
        assert(views[i] == devices@[i]@);
        assert(rows[i] == panel.rows@[i]@);
        assert(rows[i] == row_of(views[i]));
        assert(panel.rows@[i]@.address == panel.rows@[i].address@);
    }
}

/// The entry with the given address is chosen. Where there is none, it is that of the first
/// device that is selected, and where nothing is selected either, none. The state is that of the
/// first device with the chosen address.
pub proof fn law_the_given_device_is_chosen(
    devices: &Vec<DeviceInfo>,
    selected: &str,
    panel: DevicesPanel,
    i: int,
)
    requires
        call_ensures(update_devices, (devices, selected), panel),
    ensures
        ({
            let listed = exists|j: int|
                0 <= j < devices@.len() && (#[trigger] devices@[j]).address@ == selected@;
            &&& listed ==> panel.active is Some && panel.active->0@ == selected@
            &&& !listed && 0 <= i < devices@.len() && devices@[i].selected && (forall|j: int|
                0 <= j < i ==> !(#[trigger] devices@[j]).selected) ==> panel.active is Some
                && panel.active->0@ == devices@[i].address@
            &&& !listed && (forall|j: int|
                0 <= j < devices@.len() ==> !(#[trigger] devices@[j]).selected)
                ==> panel.active is None
            &&& panel.active is Some && 0 <= i < devices@.len() && devices@[i].address@
                == panel.active->0@ && (forall|j: int|
                0 <= j < i ==> (#[trigger] devices@[j]).address@ != panel.active->0@) ==> (
            devices@[i].connected ==> panel.state@ == "CONNECTED"@) && (!devices@[i].connected
                ==> panel.state@ == "NOT CONNECTED"@)
            &&& panel.active is None && devices@.len() == 0 ==> panel.state@ == "NO DEVICE"@
            &&& panel.active is None && devices@.len() > 0 ==> panel.state@ == "SELECT A DEVICE"@
        }),
{
    let views = device_views(devices@);
    assert(views.len() == devices@.len());
    assert forall|j: int| 0 <= j < views.len() implies #[trigger] views[j] == devices@[j]@ by {}
    let shown = panel@;
    assert(shown.state == panel.state@);
    lemma_found_by_address(views, selected@);
    lemma_found_selected(views);
    if exists|j: int| 0 <= j < devices@.len() && (#[trigger] devices@[j]).address@ == selected@ {
        let j = choose|j: int|
            0 <= j < devices@.len() && (#[trigger] devices@[j]).address@ == selected@;
        assert(views[j].address == selected@);
    } else {
        if with_address(views, selected@) is Some {
            let device = with_address(views, selected@)->0;
            let j = choose|j: int| 0 <= j < views.len() && views[j] == device;
            assert(devices@[j].address@ == selected@);
        }
        if 0 <= i < devices@.len() && devices@[i].selected && (forall|j: int|
            0 <= j < i ==> !(#[trigger] devices@[j]).selected) {
            assert forall|j: int| 0 <= j < i implies !(#[trigger] views[j]).selected by {
                assert(!devices@[j].selected);
            }
            lemma_first_selected(views, i);
        }
        if forall|j: int| 0 <= j < devices@.len() ==> !(#[trigger] devices@[j]).selected {
            assert forall|j: int| 0 <= j < views.len() implies !(#[trigger] views[j]).selected by {
                assert(!devices@[j].selected);
            }
            lemma_none_selected(views);
        }
    }
    if panel.active is Some && 0 <= i < devices@.len() && devices@[i].address@ == panel.active->0@
        && (forall|j: int|
        0 <= j < i ==> (#[trigger] devices@[j]).address@ != panel.active->0@) {
        assert forall|j: int| 0 <= j < i
            implies (#[trigger] views[j]).address != panel.active->0@ by {
            assert(devices@[j].address@ != panel.active->0@);
        }
        lemma_first_with_address(views, panel.active->0@, i);
    }
}

/// The status is shown field by field: the controls need a device, the button says what it would
/// do, and an error is shown exactly where there is one.
pub proof fn law_the_status_is_shown_field_by_field(status: &DaemonStatus, panel: StatusPanel)
    requires
        call_ensures(update_status, (status,), panel),
    ensures
        panel.has_device <==> status.selected_device@.len() > 0,
        panel.mic_active == status.mic_active,
        status.mic_active ==> panel.mic_label@ == "Stop microphone"@,
        !status.mic_active ==> panel.mic_label@ == "Start microphone"@,
        panel.gain_db == status.gain_db && panel.limiter_db == status.limiter_db,
        status.power_bridge_available ==> panel.power_bridge@ == "UPower bridge: online"@,
        !status.power_bridge_available ==> panel.power_bridge@ == "UPower bridge: unavailable"@,
        panel.error is Some <==> status.last_error@.len() > 0,
        panel.error matches Some(error) ==> error@ == status.last_error@,
        panel.badge@ == unicode_uppercase(status.state@),
{
    assert(shows(panel, status@, unicode_uppercase(status.state@)));
}

/// A state that is streaming, idle or ready, in any case, has the good style, an error has the bad
/// one, and everything else is a warning.
pub proof fn law_states_have_their_style(state: &str, class: &'static str)
    requires
        call_ensures(state_class, (state,), class),
    ensures
        ({
            let good = crate::text::same_ignoring_case(state@, "streaming"@)
                || crate::text::same_ignoring_case(state@, "idle"@)
                || crate::text::same_ignoring_case(state@, "ready"@);
            let bad = crate::text::same_ignoring_case(state@, "error"@);
            &&& good ==> class@ == "state-ok"@
            &&& !good && bad ==> class@ == "state-error"@
            &&& !good && !bad ==> class@ == "state-warn"@
        }),
{
    reveal_strlit("streaming");
    reveal_strlit("idle");
    reveal_strlit("ready");
    reveal_strlit("error");
    assert(lowercase("streaming"@) =~= "streaming"@);
    assert(lowercase("idle"@) =~= "idle"@);
    assert(lowercase("ready"@) =~= "ready"@);
    assert(lowercase("error"@) =~= "error"@);
}

/// A battery shows its percentage, up to one hundred, both as a number and as a bar, and says
/// whether it is charging; below zero it shows an empty bar and no number.
pub proof fn law_batteries_show_their_percentage(
    percent: i16,
    charging: bool,
    panel: BatteryPanel,
)
    requires
        call_ensures(update_battery, (percent, charging), panel),
    ensures
        percent < 0 ==> panel.filled_percent == 0 && panel.value@ == "—"@,
        0 <= percent <= 100 ==> panel.filled_percent == percent,
        percent > 100 ==> panel.filled_percent == 100,
        percent >= 0 && charging ==> panel.value@ == "⚡ "@ + decimal(panel.filled_percent as nat)
            + "%"@ && panel.tooltip@ == "Battery level: "@ + decimal(panel.filled_percent as nat)
            + "%"@ + ", charging"@,
        percent >= 0 && !charging ==> panel.value@ == decimal(panel.filled_percent as nat) + "%"@
            && panel.tooltip@ == "Battery level: "@ + decimal(panel.filled_percent as nat) + "%"@,
{
    reveal_strlit("");
    assert(panel@ == shown_battery(percent, charging));
    assert(panel@.value == panel.value@ && panel@.tooltip == panel.tooltip@);
    assert(panel@.filled_percent == panel.filled_percent);
    let number = decimal(panel.filled_percent as nat);
    assert(""@ + number + "%"@ =~= number + "%"@);
    assert("Battery level: "@ + number + "%"@ + ""@ =~= "Battery level: "@ + number + "%"@);
}

/// An event shows what it brings and nothing else: a snapshot everything, with the device of its
/// status chosen; a status the status; batteries the left one and then the right one; devices the
/// list, with the chosen entry kept; and an error that nothing can be had, and why.
pub proof fn law_events_show_what_they_bring(
    event: Event,
    chosen: Option<String>,
    updates: Vec<Update>,
    devices_panel: DevicesPanel,
    status_panel: StatusPanel,
    left: BatteryPanel,
    right: BatteryPanel,
    address: &str,
)
    requires
        call_ensures(event_updates, (event, chosen), updates),
        event matches Event::Snapshot { status, devices, battery } ==> address@
            == status.selected_device@ && call_ensures(
            update_devices,
            (&devices, address),
            devices_panel,
        ) && call_ensures(update_status, (&status,), status_panel) && call_ensures(
            update_battery,
            (battery.left_percent, battery.left_charging),
            left,
        ) && call_ensures(update_battery, (battery.right_percent, battery.right_charging), right),
        event matches Event::Status(status) ==> call_ensures(
            update_status,
            (&status,),
            status_panel,
        ),
        event matches Event::Battery(battery) ==> call_ensures(
            update_battery,
            (battery.left_percent, battery.left_charging),
            left,
        ) && call_ensures(update_battery, (battery.right_percent, battery.right_charging), right),
        event matches Event::Devices(devices) ==> (chosen matches Some(kept) ==> address@ == kept@)
            && (chosen is None ==> address@.len() == 0) && call_ensures(
            update_devices,
            (&devices, address),
            devices_panel,
        ),
    ensures
        event is Snapshot ==> updates@.len() == 4 && updates@[0] is Devices
            && updates@[0]->Devices_0@ == devices_panel@ && updates@[1] is Status
            && updates@[1]->Status_0.badge@ == status_panel.badge@
            && updates@[1]->Status_0.badge_class@ == status_panel.badge_class@
            && updates@[1]->Status_0.mic_active == status_panel.mic_active
            && updates@[1]->Status_0.has_device == status_panel.has_device
            && updates@[1]->Status_0.gain_db == status_panel.gain_db
            && updates@[1]->Status_0.mic_label@ == status_panel.mic_label@
            && updates@[1]->Status_0.power_bridge@ == status_panel.power_bridge@
            && text_option(updates@[1]->Status_0.error) == text_option(status_panel.error)
            && updates@[1]->Status_0.limiter_db == status_panel.limiter_db && updates@[2] is Left
            && updates@[2]->Left_0@ == left@ && updates@[3] is Right && updates@[3]->Right_0@
            == right@,
        event is Status ==> updates@.len() == 1 && updates@[0] is Status
            && updates@[0]->Status_0.badge@ == status_panel.badge@
            && updates@[0]->Status_0.badge_class@ == status_panel.badge_class@
            && updates@[0]->Status_0.mic_active == status_panel.mic_active
            && updates@[0]->Status_0.has_device == status_panel.has_device
            && updates@[0]->Status_0.gain_db == status_panel.gain_db
            && updates@[0]->Status_0.mic_label@ == status_panel.mic_label@
            && updates@[0]->Status_0.power_bridge@ == status_panel.power_bridge@
            && text_option(updates@[0]->Status_0.error) == text_option(status_panel.error)
            && updates@[0]->Status_0.limiter_db == status_panel.limiter_db,
        event is Battery ==> updates@.len() == 2 && updates@[0] is Left && updates@[0]->Left_0@
            == left@ && updates@[1] is Right && updates@[1]->Right_0@ == right@,
        event is Devices ==> updates@.len() == 1 && updates@[0] is Devices
            && updates@[0]->Devices_0@ == devices_panel@,
        event matches Event::Error(message) ==> updates@.len() == 2 && updates@[0] is Badge
            && updates@[0]->class@ == "state-error"@ && updates@[1] is Error
            && updates@[1]->Error_0@ == message@,
{
    assert(updates_show(updates@, event@, text_option(chosen)));
    if event is Devices && chosen is None {
        assert(address@ =~= Seq::<char>::empty());
    }
}

} // verus!

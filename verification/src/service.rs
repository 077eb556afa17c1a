//! The D-Bus service: configuration, desired audio state and runtime snapshot.
//!
//! A request that changes the configuration has two halves. The first half checks
//! the request and gives the configuration to be saved. The second half takes what
//! became of saving it and brings configuration, runtime snapshot and desired
//! audio state in line.
use crate::aacp::ListeningMode;
use crate::address::{address_form, valid_bluetooth_address};
use crate::config::{Config, ConfigView};
use crate::decibel::Decibels;
use crate::ipc::{
    copy_devices, device_views, same_devices, BatteryStatus, DaemonStatus, DeviceInfo, DeviceView,
    StatusView,
};
use crate::power::UpdateOutcome;
use crate::text::{eq_ignore_case, same_ignoring_case, to_ascii_uppercase, uppercase};
use vstd::prelude::*;

verus! {

/// The audio state that the lifecycle worker is to bring about.
#[derive(Debug)]
pub struct DesiredAudio {
    /// Whether the virtual microphone is to run.
    pub enabled: bool,
    /// The Bluetooth address of the AirPods.
    pub address: String,
    /// The gain of the audio engine.
    pub gain_db: Decibels,
    /// The limiter of the audio engine.
    pub limiter_db: Decibels,
}

/// The model of a `DesiredAudio`.
pub struct DesiredView {
    pub enabled: bool,
    pub address: Seq<char>,
    pub gain_db: Decibels,
    pub limiter_db: Decibels,
}

impl View for DesiredAudio {
    type V = DesiredView;

    open spec fn view(&self) -> DesiredView {
        DesiredView {
            enabled: self.enabled,
            address: self.address@,
            gain_db: self.gain_db,
            limiter_db: self.limiter_db,
        }
    }
}

impl DesiredView {
    /// Whether two desired states are equal, the levels by their IEEE equality.
    pub open spec fn equal_to(self, other: DesiredView) -> bool {
        &&& self.enabled == other.enabled
        &&& self.address == other.address
        &&& self.gain_db.equal_to(other.gain_db)
        &&& self.limiter_db.equal_to(other.limiter_db)
    }

    /// The desired state that a configuration stands for.
    pub open spec fn of_config(config: ConfigView) -> DesiredView {
        DesiredView {
            enabled: config.mic_enabled,
            address: config.selected_device,
            gain_db: config.gain_db,
            limiter_db: config.limiter_db,
        }
    }
}

impl Clone for DesiredAudio {
    /// A copy of the desired state.
    fn clone(&self) -> (desired: DesiredAudio)
        ensures
            desired@ == self@,
    {
        DesiredAudio {
            enabled: self.enabled,
            address: self.address.clone(),
            gain_db: self.gain_db,
            limiter_db: self.limiter_db,
        }
    }
}

impl DesiredAudio {
    /// The desired state that a configuration stands for.
    pub fn from_config(config: &Config) -> (desired: DesiredAudio)
        ensures
            desired@ == DesiredView::of_config(config@),
    {
        DesiredAudio {
            enabled: config.mic_enabled,
            address: config.selected_device.clone(),
            gain_db: config.gain_db,
            limiter_db: config.limiter_db,
        }
    }

    /// Whether two desired states are equal.
    pub fn same_as(&self, other: &DesiredAudio) -> (same: bool)
        ensures
            same == self@.equal_to(other@),
    {
        self.enabled == other.enabled && self.address == other.address && self.gain_db.equals(
            other.gain_db,
        ) && self.limiter_db.equals(other.limiter_db)
    }
}

/// A request to change the listening mode.
#[derive(Debug)]
pub struct ModeRequest {
    /// The Bluetooth address that was selected when the request came.
    pub address: String,
    /// The requested mode.
    pub mode: ListeningMode,
}

impl ModeRequest {
    /// A request for a device.
    pub fn new(address: String, mode: ListeningMode) -> (request: ModeRequest)
        ensures
            request.address == address,
            request.mode == mode,
    {
        ModeRequest { address, mode }
    }
}

/// What became of a request to change the listening mode.
pub enum ModeReply {
    /// The worker could not be reached.
    Undelivered,
    /// The worker went away without an answer.
    Unanswered,
    /// The answer of the worker.
    Answered(Result<(), String>),
}

/// An error for a client of the service.
#[derive(Debug)]
pub enum ServiceError {
    /// The request itself is refused.
    InvalidArgs(String),
    /// The request could not be carried out.
    Failed(String),
}

/// What is announced to the clients of the service.
#[derive(Debug)]
pub enum Event {
    /// The status changed.
    Status(DaemonStatus),
    /// A battery value changed.
    Battery(BatteryStatus),
    /// The devices changed.
    Devices(Vec<DeviceInfo>),
}

/// The model of an `Event`.
pub enum EventView {
    Status(StatusView),
    Battery(BatteryStatus),
    Devices(Seq<DeviceView>),
}

impl View for Event {
    type V = EventView;

    open spec fn view(&self) -> EventView {
        match self {
            Event::Status(status) => EventView::Status(status@),
            Event::Battery(battery) => EventView::Battery(*battery),
            Event::Devices(devices) => EventView::Devices(device_views(devices@)),
        }
    }
}

/// The models of a list of events.
pub open spec fn event_views(events: Seq<Event>) -> Seq<EventView> {
    events.map_values(|e: Event| e@)
}

impl Event {
    /// The name of the D-Bus signal that announces the event.
    pub fn signal_name(&self) -> (name: &'static str)
        ensures
            name@ == (match self@ {
                EventView::Status(_) => "StatusChanged"@,
                EventView::Battery(_) => "BatteryChanged"@,
                EventView::Devices(_) => "DevicesChanged"@,
            }),
    {
        match self {
            Event::Status(_) => "StatusChanged",
            Event::Battery(_) => "BatteryChanged",
            Event::Devices(_) => "DevicesChanged",
        }
    }
}

/// The states of the audio lifecycle.
#[derive(Clone, Copy, Debug, PartialEq, Eq, Structural)]
pub enum AudioState {
    /// The microphone is off, or the lifecycle has ended.
    Idle,
    /// The microphone is to run, but no device is selected.
    Error,
    /// A session is being set up.
    Connecting,
    /// The source has started and the AirPods were told to send.
    Streaming,
    /// A session has been cleaned up.
    Stopping,
    /// A session failed, and another one follows after a delay.
    Recovering,
}

impl AudioState {
    /// The name of the state.
    pub open spec fn name(self) -> Seq<char> {
        match self {
            AudioState::Idle => "idle"@,
            AudioState::Error => "error"@,
            AudioState::Connecting => "connecting"@,
            AudioState::Streaming => "streaming"@,
            AudioState::Stopping => "stopping"@,
            AudioState::Recovering => "recovering"@,
        }
    }

    /// The name of the state.
    pub fn as_str(self) -> (name: &'static str)
        ensures
            name@ == self.name(),
    {
        match self {
            AudioState::Idle => "idle",
            AudioState::Error => "error",
            AudioState::Connecting => "connecting",
            AudioState::Streaming => "streaming",
            AudioState::Stopping => "stopping",
            AudioState::Recovering => "recovering",
        }
    }
}

/// What the audio lifecycle reports of itself.
#[derive(Debug)]
pub struct AudioReport {
    /// The state.
    pub state: AudioState,
    /// Whether the microphone is running.
    pub mic_active: bool,
    /// The number of the reconnect attempt.
    pub reconnect_attempt: u32,
    /// The error, where there is one.
    pub error: Option<String>,
}

/// The model of an `AudioReport`.
pub struct ReportView {
    pub state: AudioState,
    pub mic_active: bool,
    pub reconnect_attempt: u32,
    pub error: Option<Seq<char>>,
}

impl View for AudioReport {
    type V = ReportView;

    open spec fn view(&self) -> ReportView {
        ReportView {
            state: self.state,
            mic_active: self.mic_active,
            reconnect_attempt: self.reconnect_attempt,
            error: crate::text::text_option(self.error),
        }
    }
}

impl ReportView {
    /// The report that nothing runs and nothing is tried.
    pub open spec fn idle() -> ReportView {
        ReportView {
            state: AudioState::Idle,
            mic_active: false,
            reconnect_attempt: 0,
            error: None,
        }
    }

    /// The report that a stream has begun.
    pub open spec fn streaming() -> ReportView {
        ReportView {
            state: AudioState::Streaming,
            mic_active: true,
            reconnect_attempt: 0,
            error: None,
        }
    }

    /// The report that a stream has ended.
    pub open spec fn stopping() -> ReportView {
        ReportView {
            state: AudioState::Stopping,
            mic_active: false,
            reconnect_attempt: 0,
            error: None,
        }
    }
}

impl StatusView {
    /// The status after an audio report: an error is kept until another one comes
    /// or the microphone runs.
    pub open spec fn reported(self, report: ReportView) -> StatusView {
        StatusView {
            state: report.state.name(),
            mic_active: report.mic_active,
            reconnect_attempt: report.reconnect_attempt,
            last_error: match report.error {
                Some(error) => error,
                None => if report.mic_active {
                    Seq::empty()
                } else {
                    self.last_error
                },
            },
            ..self
        }
    }
}

/// The snapshot that the service and the workers share.
#[derive(Debug)]
pub struct RuntimeState {
    /// The status that clients read.
    pub status: DaemonStatus,
    /// The devices that BlueZ knows.
    pub devices: Vec<DeviceInfo>,
    /// The battery values.
    pub battery: BatteryStatus,
}

/// A device with the selection flag that a selected address gives it.
pub open spec fn marked(device: DeviceView, selected: Seq<char>) -> DeviceView {
    DeviceView { selected: same_ignoring_case(device.address, selected), ..device }
}

/// Devices with the selection flags that a selected address gives them.
pub open spec fn all_marked(devices: Seq<DeviceView>, selected: Seq<char>) -> Seq<DeviceView> {
    devices.map_values(|d: DeviceView| marked(d, selected))
}

impl RuntimeState {
    /// The snapshot with which the daemon starts. It agrees with the configuration
    /// and with the desired state that the configuration stands for.
    pub fn new(config: &Config, power_bridge_available: bool, config_error: String) -> (state:
        RuntimeState)
        ensures
            state.status@ == (StatusView {
                state: AudioState::Idle.name(),
                selected_device: config.selected_device@,
                mic_active: false,
                reconnect_attempt: 0,
                gain_db: config.gain_db,
                limiter_db: config.limiter_db,
                power_bridge_available,
                last_error: config_error@,
            }),
            state.devices@.len() == 0,
            state.battery == BatteryStatus::none(),
            in_line(config@, state.status@, DesiredView::of_config(config@)),
    {
        RuntimeState {
            status: DaemonStatus {
                state: AudioState::Idle.as_str().to_owned(),
                selected_device: config.selected_device.clone(),
                mic_active: false,
                reconnect_attempt: 0,
                gain_db: config.gain_db,
                limiter_db: config.limiter_db,
                power_bridge_available,
                last_error: config_error,
            },
            devices: Vec::new(),
            battery: BatteryStatus::unavailable(),
        }
    }

    /// Takes over a report of the audio lifecycle and gives the event that
    /// announces it.
    pub fn set_audio_status(&mut self, report: AudioReport) -> (event: Event)
        ensures
            final(self).status@ == old(self).status@.reported(report@),
            final(self).devices == old(self).devices,
            final(self).battery == old(self).battery,
            event@ == EventView::Status(final(self).status@),
    {
        self.status.state = report.state.as_str().to_owned();
        self.status.mic_active = report.mic_active;
        self.status.reconnect_attempt = report.reconnect_attempt;
        match report.error {
            Some(error) => {
                self.status.last_error = error;
            },
            None => {
                if report.mic_active {
                    self.status.last_error = String::new();
                }
            },
        }
        Event::Status(self.status.clone())
    }

    /// Takes over a battery status that was handed to the power bridge.
    ///
    /// The bridge counts as available only where the update was written. Only what
    /// changed is announced, the battery before the status.
    pub fn publish_battery(&mut self, battery: BatteryStatus, written: Option<UpdateOutcome>) -> (
    events: Vec<Event>)
        ensures
            final(self).battery == battery,
            final(self).status@ == (StatusView {
                power_bridge_available: written == Some(UpdateOutcome::Written),
                ..old(self).status@
            }),
            final(self).devices == old(self).devices,
            event_views(events@) == announced(
                battery,
                old(self).battery != battery,
                final(self).status@,
                old(self).status.power_bridge_available != (written == Some(
                    UpdateOutcome::Written,
                )),
            ),
    {
        let available = match written {
            Some(UpdateOutcome::Written) => true,
            _ => false,
        };
        let battery_changed = self.battery != battery;
        let status_changed = self.status.power_bridge_available != available;
        self.battery = battery;
        self.status.power_bridge_available = available;
        let mut events: Vec<Event> = Vec::new();
        if battery_changed {
            events.push(Event::Battery(battery));
        }
        if status_changed {
            events.push(Event::Status(self.status.clone()));
        }
        assert(event_views(events@) =~= announced(
            battery,
            battery_changed,
            self.status@,
            status_changed,
        ));
        events
    }

    /// Takes over the devices that BlueZ reports, and announces them where they
    /// changed.
    pub fn replace_devices(&mut self, devices: Vec<DeviceInfo>) -> (event: Option<Event>)
        ensures
            device_views(final(self).devices@) == device_views(devices@),
            final(self).status == old(self).status,
            final(self).battery == old(self).battery,
            event is Some <==> device_views(old(self).devices@) != device_views(devices@),
            event matches Some(event) ==> event@ == EventView::Devices(device_views(devices@)),
    {
        if same_devices(&self.devices, &devices) {
            return None;
        }
        let copies = copy_devices(&devices);
        self.devices = devices;
        Some(Event::Devices(copies))
    }

    /// Marks the device with the given address as the selected one, and no other.
    fn mark_selected(&mut self, address: &str)
        ensures
            device_views(final(self).devices@) == all_marked(
                device_views(old(self).devices@),
                address@,
            ),
            final(self).status == old(self).status,
            final(self).battery == old(self).battery,
    {
        let mut marked_devices: Vec<DeviceInfo> = Vec::new();
        for i in 0..self.devices.len()
            invariant
                *self == *old(self),
                marked_devices.len() == i,
                forall|j: int|
                    0 <= j < i ==> (#[trigger] marked_devices@[j])@ == marked(
                        self.devices@[j]@,
                        address@,
                    ),
        {
            let mut device = self.devices[i].clone();
            device.selected = eq_ignore_case(device.address.as_str(), address);
            marked_devices.push(device);
        }
        self.devices = marked_devices;
        assert(device_views(self.devices@) =~= all_marked(
            device_views(old(self).devices@),
            address@,
        ));
    }
}

/// The events that announce a battery status and a status, each where it changed.
pub open spec fn announced(
    battery: BatteryStatus,
    battery_changed: bool,
    status: StatusView,
    status_changed: bool,
) -> Seq<EventView> {
    (if battery_changed {
        seq![EventView::Battery(battery)]
    } else {
        Seq::empty()
    }) + (if status_changed {
        seq![EventView::Status(status)]
    } else {
        Seq::empty()
    })
}

/// Whether configuration, runtime snapshot and desired audio state agree.
pub open spec fn in_line(config: ConfigView, status: StatusView, desired: DesiredView) -> bool {
    &&& status.selected_device == config.selected_device
    &&& status.gain_db == config.gain_db
    &&& status.limiter_db == config.limiter_db
    &&& desired == DesiredView::of_config(config)
}

/// The refusal of a malformed address.
pub const ADDRESS_EXPECTED: &'static str = "expected Bluetooth address in XX:XX:XX:XX:XX:XX format";

/// The refusal of a gain out of range.
pub const GAIN_EXPECTED: &'static str = "gain must be between 0 and 30 dB";

/// The refusal of a limiter out of range.
pub const LIMITER_EXPECTED: &'static str = "limiter must be between -12 and 0 dBFS";

/// The refusal of an unknown listening mode.
pub const MODE_EXPECTED: &'static str = "mode must be one of: off, anc, transparency, adaptive";

/// The error of a request that needs a selected device.
pub const NO_DEVICE: &'static str = "no AirPods device is selected";

/// The error of a request that the lifecycle worker cannot take.
pub const WORKER_UNAVAILABLE: &'static str = "AACP lifecycle worker is unavailable";

/// The error of a request that the lifecycle worker left unanswered.
pub const WORKER_SILENT: &'static str = "AACP lifecycle worker stopped responding";

/// The service behind the D-Bus interface.
#[derive(Debug)]
pub struct ManagerService {
    /// The configuration in force.
    pub config: Config,
}

impl ManagerService {
    /// The service for a loaded configuration.
    pub fn new(config: Config) -> (service: ManagerService)
        ensures
            service.config == config,
    {
        ManagerService { config }
    }

    /// Checks a request to select a device, and gives the configuration to save.
    /// The address is kept in uppercase.
    pub fn select_device(&self, address: &str) -> (result: Result<Config, ServiceError>)
        ensures
            match result {
                Ok(next) => {
                    &&& address_form(address@)
                    &&& next@ == (ConfigView {
                        selected_device: uppercase(address@),
                        ..self.config@
                    })
                },
                Err(ServiceError::InvalidArgs(message)) => {
                    &&& !address_form(address@)
                    &&& message@ == ADDRESS_EXPECTED@
                },
                Err(_) => false,
            },
            self.config@.valid() && result is Ok ==> result->Ok_0@.valid(),
    {
        if !valid_bluetooth_address(address) {
            return Err(ServiceError::InvalidArgs(ADDRESS_EXPECTED.to_owned()));
        }
        let mut next = self.config.clone();
        next.selected_device = to_ascii_uppercase(address);
        Ok(next)
    }

    /// Carries out the selection of a device once its configuration was to be saved.
    ///
    /// Where saving failed, nothing changes. Otherwise the devices are announced
    /// first and the status second.
    pub fn device_selected(
        &mut self,
        next: Config,
        saved: Result<(), String>,
        state: &mut RuntimeState,
        desired: &mut DesiredAudio,
    ) -> (result: Result<Vec<Event>, ServiceError>)
        ensures
            match saved {
                Err(error) => {
                    &&& result == Err::<Vec<Event>, ServiceError>(ServiceError::Failed(error))
                    &&& *final(self) == *old(self)
                    &&& *final(state) == *old(state)
                    &&& *final(desired) == *old(desired)
                },
                Ok(_) => {
                    &&& result is Ok
                    &&& event_views(result->Ok_0@) == seq![
                        EventView::Devices(device_views(final(state).devices@)),
                        EventView::Status(final(state).status@),
                    ]
                    &&& final(self).config@ == next@
                    &&& final(state).status@ == (StatusView {
                        selected_device: next.selected_device@,
                        ..old(state).status@
                    })
                    &&& device_views(final(state).devices@) == all_marked(
                        device_views(old(state).devices@),
                        next.selected_device@,
                    )
                    &&& final(state).battery == old(state).battery
                    &&& final(desired)@ == (DesiredView {
                        address: next.selected_device@,
                        ..old(desired)@
                    })
                },
            },
            in_line(old(self).config@, old(state).status@, old(desired)@) && next@ == (ConfigView {
                selected_device: next.selected_device@,
                ..old(self).config@
            }) ==> in_line(final(self).config@, final(state).status@, final(desired)@),
    {
        match saved {
            Err(error) => Err(ServiceError::Failed(error)),
            Ok(_) => {
                state.status.selected_device = next.selected_device.clone();
                state.mark_selected(next.selected_device.as_str());
                desired.address = next.selected_device.clone();
                self.config = next;
                let devices = copy_devices(&state.devices);
                let events = vec![Event::Devices(devices), Event::Status(state.status.clone())];
                assert(event_views(events@) =~= seq![
                    EventView::Devices(device_views(state.devices@)),
                    EventView::Status(state.status@),
                ]);
                Ok(events)
            },
        }
    }

    /// The configuration to save when the microphone is switched on or off.
    fn switched(&self, enabled: bool) -> (next: Config)
        ensures
            next@ == (ConfigView { mic_enabled: enabled, ..self.config@ }),
    {
        let mut next = self.config.clone();
        next.mic_enabled = enabled;
        next
    }

    /// The configuration to save when the microphone is started.
    pub fn start_mic(&self) -> (next: Config)
        ensures
            next@ == (ConfigView { mic_enabled: true, ..self.config@ }),
            self.config@.valid() ==> next@.valid(),
    {
        self.switched(true)
    }

    /// The configuration to save when the microphone is stopped.
    pub fn stop_mic(&self) -> (next: Config)
        ensures
            next@ == (ConfigView { mic_enabled: false, ..self.config@ }),
            self.config@.valid() ==> next@.valid(),
    {
        self.switched(false)
    }

    /// Switches the microphone once its configuration was to be saved.
    ///
    /// The switch takes effect even where saving failed; the error then says that
    /// it will not outlast a restart.
    pub fn mic_switched(
        &mut self,
        next: Config,
        saved: Result<(), String>,
        desired: &mut DesiredAudio,
    ) -> (result: Result<(), ServiceError>)
        ensures
            final(self).config@ == next@,
            final(desired)@ == (DesiredView { enabled: next.mic_enabled, ..old(desired)@ }),
            match saved {
                Ok(_) => result is Ok,
                Err(error) => result == Err::<(), ServiceError>(ServiceError::Failed(error)),
            },
            forall|status: StatusView|
                #![trigger in_line(old(self).config@, status, old(desired)@)]
                in_line(old(self).config@, status, old(desired)@) && next@ == (ConfigView {
                    mic_enabled: next.mic_enabled,
                    ..old(self).config@
                }) ==> in_line(final(self).config@, status, final(desired)@),
    {
        desired.enabled = next.mic_enabled;
        self.config = next;
        match saved {
            Ok(_) => Ok(()),
            Err(error) => Err(ServiceError::Failed(error)),
        }
    }

    /// Checks a request to set the gain, and gives the configuration to save.
    pub fn set_gain(&self, gain_db: Decibels) -> (result: Result<Config, ServiceError>)
        ensures
            match result {
                Ok(next) => {
                    &&& gain_db.valid_gain()
                    &&& next@ == (ConfigView { gain_db, ..self.config@ })
                },
                Err(ServiceError::InvalidArgs(message)) => {
                    &&& !gain_db.valid_gain()
                    &&& message@ == GAIN_EXPECTED@
                },
                Err(_) => false,
            },
            self.config@.valid() && result is Ok ==> result->Ok_0@.valid(),
    {
        if !gain_db.is_valid_gain() {
            return Err(ServiceError::InvalidArgs(GAIN_EXPECTED.to_owned()));
        }
        let mut next = self.config.clone();
        next.gain_db = gain_db;
        Ok(next)
    }

    /// Checks a request to set the limiter, and gives the configuration to save.
    pub fn set_limiter_db(&self, limiter_db: Decibels) -> (result: Result<Config, ServiceError>)
        ensures
            match result {
                Ok(next) => {
                    &&& limiter_db.valid_limiter()
                    &&& next@ == (ConfigView { limiter_db, ..self.config@ })
                },
                Err(ServiceError::InvalidArgs(message)) => {
                    &&& !limiter_db.valid_limiter()
                    &&& message@ == LIMITER_EXPECTED@
                },
                Err(_) => false,
            },
            self.config@.valid() && result is Ok ==> result->Ok_0@.valid(),
    {
        if !limiter_db.is_valid_limiter() {
            return Err(ServiceError::InvalidArgs(LIMITER_EXPECTED.to_owned()));
        }
        let mut next = self.config.clone();
        next.limiter_db = limiter_db;
        Ok(next)
    }

    /// Puts a gain in force once its configuration was to be saved. Where saving
    /// failed, nothing changes.
    pub fn gain_set(
        &mut self,
        next: Config,
        saved: Result<(), String>,
        state: &mut RuntimeState,
        desired: &mut DesiredAudio,
    ) -> (result: Result<Vec<Event>, ServiceError>)
        ensures
            match saved {
                Err(error) => {
                    &&& result == Err::<Vec<Event>, ServiceError>(ServiceError::Failed(error))
                    &&& *final(self) == *old(self)
                    &&& *final(state) == *old(state)
                    &&& *final(desired) == *old(desired)
                },
                Ok(_) => {
                    &&& result is Ok
                    &&& event_views(result->Ok_0@) == seq![
                        EventView::Status(final(state).status@),
                    ]
                    &&& final(self).config@ == next@
                    &&& final(state).status@ == (StatusView {
                        gain_db: next.gain_db,
                        ..old(state).status@
                    })
                    &&& final(state).devices == old(state).devices
                    &&& final(state).battery == old(state).battery
                    &&& final(desired)@ == (DesiredView { gain_db: next.gain_db, ..old(desired)@ })
                },
            },
            in_line(old(self).config@, old(state).status@, old(desired)@) && next@ == (ConfigView {
                gain_db: next.gain_db,
                ..old(self).config@
            }) ==> in_line(final(self).config@, final(state).status@, final(desired)@),
    {
        match saved {
            Err(error) => Err(ServiceError::Failed(error)),
            Ok(_) => {
                state.status.gain_db = next.gain_db;
                desired.gain_db = next.gain_db;
                self.config = next;
                let events = vec![Event::Status(state.status.clone())];
                assert(event_views(events@) =~= seq![EventView::Status(state.status@)]);
                Ok(events)
            },
        }
    }

    /// Puts a limiter in force once its configuration was to be saved. Where
    /// saving failed, nothing changes.
    pub fn limiter_set(
        &mut self,
        next: Config,
        saved: Result<(), String>,
        state: &mut RuntimeState,
        desired: &mut DesiredAudio,
    ) -> (result: Result<Vec<Event>, ServiceError>)
        ensures
            match saved {
                Err(error) => {
                    &&& result == Err::<Vec<Event>, ServiceError>(ServiceError::Failed(error))
                    &&& *final(self) == *old(self)
                    &&& *final(state) == *old(state)
                    &&& *final(desired) == *old(desired)
                },
                Ok(_) => {
                    &&& result is Ok
                    &&& event_views(result->Ok_0@) == seq![
                        EventView::Status(final(state).status@),
                    ]
                    &&& final(self).config@ == next@
                    &&& final(state).status@ == (StatusView {
                        limiter_db: next.limiter_db,
                        ..old(state).status@
                    })
                    &&& final(state).devices == old(state).devices
                    &&& final(state).battery == old(state).battery
                    &&& final(desired)@ == (DesiredView {
                        limiter_db: next.limiter_db,
                        ..old(desired)@
                    })
                },
            },
            in_line(old(self).config@, old(state).status@, old(desired)@) && next@ == (ConfigView {
                limiter_db: next.limiter_db,
                ..old(self).config@
            }) ==> in_line(final(self).config@, final(state).status@, final(desired)@),
    {
        match saved {
            Err(error) => Err(ServiceError::Failed(error)),
            Ok(_) => {
                state.status.limiter_db = next.limiter_db;
                desired.limiter_db = next.limiter_db;
                self.config = next;
                let events = vec![Event::Status(state.status.clone())];
                assert(event_views(events@) =~= seq![EventView::Status(state.status@)]);
                Ok(events)
            },
        }
    }

    /// Checks a request to set the listening mode, and gives the request for the
    /// lifecycle worker. The mode is checked before the selection.
    pub fn set_listening_mode(&self, mode: &str) -> (result: Result<ModeRequest, ServiceError>)
        ensures
            match result {
                Ok(request) => {
                    &&& request.mode.name() == mode@
                    &&& request.address@ == self.config.selected_device@
                    &&& request.address@.len() > 0
                },
                Err(ServiceError::InvalidArgs(message)) => {
                    &&& forall|m: ListeningMode| #[trigger] m.name() != mode@
                    &&& message@ == MODE_EXPECTED@
                },
                Err(ServiceError::Failed(message)) => {
                    &&& exists|m: ListeningMode| #[trigger] m.name() == mode@
                    &&& self.config.selected_device@.len() == 0
                    &&& message@ == NO_DEVICE@
                },
            },
    {
        match ListeningMode::parse(mode) {
            None => Err(ServiceError::InvalidArgs(MODE_EXPECTED.to_owned())),
            Some(parsed) => {
                assert(parsed.name() == mode@);
                if self.config.selected_device.as_str().is_empty() {
                    return Err(ServiceError::Failed(NO_DEVICE.to_owned()));
                }
                Ok(ModeRequest::new(self.config.selected_device.clone(), parsed))
            },
        }
    }

    /// The answer to a request to set the listening mode.
    pub fn mode_answer(reply: ModeReply) -> (result: Result<(), ServiceError>)
        ensures
            match reply {
                ModeReply::Undelivered => result matches Err(ServiceError::Failed(message))
                    && message@ == WORKER_UNAVAILABLE@,
                ModeReply::Unanswered => result matches Err(ServiceError::Failed(message))
                    && message@ == WORKER_SILENT@,
                ModeReply::Answered(Ok(_)) => result is Ok,
                ModeReply::Answered(Err(error)) => result == Err::<(), ServiceError>(
                    ServiceError::Failed(error),
                ),
            },
    {
        match reply {
            ModeReply::Undelivered => Err(ServiceError::Failed(WORKER_UNAVAILABLE.to_owned())),
            ModeReply::Unanswered => Err(ServiceError::Failed(WORKER_SILENT.to_owned())),
            ModeReply::Answered(Ok(_)) => Ok(()),
            ModeReply::Answered(Err(error)) => Err(ServiceError::Failed(error)),
        }
    }
}

/// Selecting an address marks exactly the devices with that address, so that with
/// distinct addresses at most one device is selected.
pub proof fn law_one_device_is_selected(
    devices: Seq<DeviceView>,
    selected: Seq<char>,
    i: int,
    j: int,
)
    requires
        0 <= i < devices.len(),
        0 <= j < devices.len(),
        all_marked(devices, selected)[i].selected,
        all_marked(devices, selected)[j].selected,
    ensures
        same_ignoring_case(devices[i].address, devices[j].address),
{
}

/// Selecting the same address twice is the same as selecting it once.
pub proof fn law_selection_is_idempotent(devices: Seq<DeviceView>, selected: Seq<char>)
    ensures
        all_marked(all_marked(devices, selected), selected) == all_marked(devices, selected),
{
    assert(all_marked(all_marked(devices, selected), selected) =~= all_marked(devices, selected));
}

/// Two desired states are equal exactly where they agree on whether the microphone runs, on
/// the device and on both levels.
pub proof fn law_desired_states_agree_field_by_field(
    left: &DesiredAudio,
    right: &DesiredAudio,
    same: bool,
)
    requires
        call_ensures(DesiredAudio::same_as, (left, right), same),
    ensures
        same <==> {
            &&& left.enabled == right.enabled
            &&& left.address@ == right.address@
            &&& left.gain_db.equal_to(right.gain_db)
            &&& left.limiter_db.equal_to(right.limiter_db)
        },
{
}

/// The desired state is that of the settings: their switch, their device and their levels.
pub proof fn law_settings_become_the_desired_state(config: &Config, desired: DesiredAudio)
    requires
        call_ensures(DesiredAudio::from_config, (config,), desired),
    ensures
        desired.enabled == config.mic_enabled,
        desired.address@ == config.selected_device@,
        desired.gain_db == config.gain_db,
        desired.limiter_db == config.limiter_db,
{
}

/// The daemon starts idle, without devices and without battery values, and shows the device
/// and the levels of its settings, and what went wrong with them.
pub proof fn law_the_daemon_starts_idle(
    config: &Config,
    power_bridge_available: bool,
    config_error: String,
    state: RuntimeState,
)
    requires
        call_ensures(RuntimeState::new, (config, power_bridge_available, config_error), state),
    ensures
        state.status.state@ == "idle"@,
        !state.status.mic_active && state.status.reconnect_attempt == 0,
        state.status.selected_device@ == config.selected_device@,
        state.status.gain_db == config.gain_db && state.status.limiter_db == config.limiter_db,
        state.status.power_bridge_available == power_bridge_available,
        state.status.last_error@ == config_error@,
        state.devices@.len() == 0,
        state.battery.left_percent == -1 && state.battery.right_percent == -1
            && state.battery.case_percent == -1 && state.battery.case_stale,
{
    assert(state.status@.state == "idle"@);
}

/// An audio report changes what it speaks of and nothing else. Its error is shown; without
/// one, the last error goes only when the microphone runs. Clients are told the new status.
pub proof fn law_reports_change_the_audio_status_only(
    state: &mut RuntimeState,
    report: AudioReport,
    event: Event,
)
    requires
        call_ensures(RuntimeState::set_audio_status, (state, report), event),
    ensures
        final(state).status.state@ == match report.state {
            AudioState::Idle => "idle"@,
            AudioState::Error => "error"@,
            AudioState::Connecting => "connecting"@,
            AudioState::Streaming => "streaming"@,
            AudioState::Stopping => "stopping"@,
            AudioState::Recovering => "recovering"@,
        },
        final(state).status.mic_active == report.mic_active,
        final(state).status.reconnect_attempt == report.reconnect_attempt,
        report.error matches Some(error) ==> final(state).status.last_error@ == error@,
        report.error is None && report.mic_active ==> final(state).status.last_error@.len() == 0,
        report.error is None
            && !report.mic_active
                ==> final(state).status.last_error@ == old(state).status.last_error@,
        final(state).status.selected_device@ == old(state).status.selected_device@,
        final(state).status.gain_db == old(state).status.gain_db,
        final(state).status.limiter_db == old(state).status.limiter_db,
        final(state).status.power_bridge_available == old(state).status.power_bridge_available,
        final(state).devices == old(state).devices && final(state).battery == old(state).battery,
        event is Status && event->Status_0@ == final(state).status@,
{
    let after = old(state).status@.reported(report@);
    assert(final(state).status@ == after);
    assert(event@ is Status);
}

/// Battery values are taken over as they are, the bridge counts as available exactly where the
/// values were written to it, and clients are told of what changed: of the battery first.
pub proof fn law_battery_values_are_announced_once(
    state: &mut RuntimeState,
    battery: BatteryStatus,
    written: Option<UpdateOutcome>,
    events: Vec<Event>,
)
    requires
        call_ensures(RuntimeState::publish_battery, (state, battery, written), events),
    ensures
        final(state).battery == battery,
        final(state).status.power_bridge_available <==> written == Some(UpdateOutcome::Written),
        final(state).status.state@ == old(state).status.state@,
        final(state).status.mic_active == old(state).status.mic_active,
        final(state).status.selected_device@ == old(state).status.selected_device@,
        final(state).status.last_error@ == old(state).status.last_error@,
        final(state).devices == old(state).devices,
        ({
            let battery_changed = old(state).battery != battery;
            let bridge_changed = old(state).status.power_bridge_available != final(state).status.power_bridge_available;
            &&& events@.len() == (if battery_changed {
                1int
            } else {
                0
            }) + (if bridge_changed {
                1int
            } else {
                0
            })
            &&& battery_changed ==> events@[0] == Event::Battery(battery)
            &&& bridge_changed ==> events@.last() is Status
                && events@.last()->Status_0@ == final(state).status@
        }),
{
    let views = event_views(events@);
    assert(views.len() == events@.len());
    if events@.len() > 0 {
        assert(views[0] == events@[0]@);
        assert(views.last() == events@.last()@);
    }
    assert(final(state).status@.state == old(state).status@.state);
    assert(final(state).status@.selected_device == old(state).status@.selected_device);
    assert(final(state).status@.last_error == old(state).status@.last_error);
    assert(final(state).status@.mic_active == old(state).status@.mic_active);
    assert(final(state).status@.power_bridge_available == (written
        == Some(UpdateOutcome::Written)));
}

/// The devices that BlueZ reports are taken over one by one, and announced exactly where one
/// of them differs from what was known.
pub proof fn law_devices_are_announced_where_they_differ(
    state: &mut RuntimeState,
    devices: Vec<DeviceInfo>,
    event: Option<Event>,
)
    requires
        call_ensures(RuntimeState::replace_devices, (state, devices), event),
    ensures
        final(state).devices@.len() == devices@.len(),
        forall|i: int|
            0 <= i < devices@.len() ==> (#[trigger] final(state).devices@[i])@ == devices@[i]@,
        event is None <==> old(state).devices@.len() == devices@.len() && forall|i: int|
            0 <= i < devices@.len() ==> (#[trigger] old(state).devices@[i])@ == devices@[i]@,
        event matches Some(event) ==> event is Devices && device_views(event->Devices_0@)
            == device_views(devices@),
        final(state).status == old(state).status && final(state).battery == old(state).battery,
{
    let before = device_views(old(state).devices@);
    let given = device_views(devices@);
    let after = device_views(final(state).devices@);
    assert(after.len() == final(state).devices@.len() && given.len() == devices@.len());
    assert(before.len() == old(state).devices@.len());
    assert forall|i: int| 0 <= i < devices@.len() implies (#[trigger] final(state).devices@[i])@
        == devices@[i]@ by {
        assert(after[i] == given[i]);
    }
    if event is None {
        assert forall|i: int| 0 <= i < devices@.len() implies (#[trigger] old(state).devices@[i])@
            == devices@[i]@ by {
            assert(before[i] == given[i]);
        }
    }
    if old(state).devices@.len() == devices@.len() && forall|i: int|
        0 <= i < devices@.len() ==> (#[trigger] old(state).devices@[i])@ == devices@[i]@ {
        assert forall|i: int| 0 <= i < before.len() implies before[i] == given[i] by {
            assert(old(state).devices@[i]@ == devices@[i]@);
        }
        assert(before =~= given);
    }
    if let Some(event) = event {
        assert(event@ is Devices);
    }
}

/// Selecting a device is accepted exactly for an address in the accepted form. The address is
/// kept letter by letter, with capital letters, and no other setting changes.
pub proof fn law_selections_keep_the_address_in_capitals(
    service: &ManagerService,
    address: &str,
    result: Result<Config, ServiceError>,
    valid: bool,
)
    requires
        call_ensures(ManagerService::select_device, (service, address), result),
        call_ensures(valid_bluetooth_address, (address,), valid),
    ensures
        result is Ok <==> valid,
        result is Err ==> result->Err_0 is InvalidArgs,
        result matches Ok(next) ==> {
            &&& next.selected_device@.len() == address@.len()
            &&& forall|i: int|
                0 <= i < address@.len() ==> crate::text::same_letter(
                    #[trigger] next.selected_device@[i],
                    address@[i],
                ) && !('a' <= next.selected_device@[i] <= 'z')
            &&& next.mic_enabled == service.config.mic_enabled
            &&& next.gain_db == service.config.gain_db
            &&& next.limiter_db == service.config.limiter_db
        },
{
    crate::text::law_case_keeps_the_letters(address@);
    if let Ok(next) = result {
        let view = next@;
        assert(view.selected_device == uppercase(address@));
        assert(view.mic_enabled == service.config@.mic_enabled);
        assert forall|i: int| 0 <= i < address@.len() implies crate::text::same_letter(
            #[trigger] next.selected_device@[i],
            address@[i],
        ) && !('a' <= next.selected_device@[i] <= 'z') by {
            assert(next.selected_device@[i] == uppercase(address@)[i]);
        }
    }
}

/// A selection that was saved is in force everywhere: in the settings, in the status and in the
/// desired state, and each device is marked exactly where it has the selected address. Clients
/// are told the devices and then the status. One that was not saved changes nothing at all.
pub proof fn law_saved_selections_are_in_force(
    service: &mut ManagerService,
    next: Config,
    saved: Result<(), String>,
    state: &mut RuntimeState,
    desired: &mut DesiredAudio,
    result: Result<Vec<Event>, ServiceError>,
)
    requires
        call_ensures(
            ManagerService::device_selected,
            (service, next, saved, state, desired),
            result,
        ),
    ensures
        saved matches Err(error) ==> {
            &&& result is Err && result->Err_0 == ServiceError::Failed(error)
            &&& *final(service) == *old(service)
            &&& *final(state) == *old(state)
            &&& *final(desired) == *old(desired)
        },
        saved is Ok ==> {
            &&& result is Ok && result->Ok_0@.len() == 2
            &&& result->Ok_0@[0] is Devices && device_views(result->Ok_0@[0]->Devices_0@)
                == device_views(final(state).devices@)
            &&& result->Ok_0@[1] is Status && result->Ok_0@[1]->Status_0@ == final(state).status@
            &&& final(service).config.selected_device@ == next.selected_device@
            &&& final(service).config.mic_enabled == next.mic_enabled
            &&& final(service).config.gain_db == next.gain_db
            &&& final(service).config.limiter_db == next.limiter_db
            &&& final(state).status.selected_device@ == next.selected_device@
            &&& final(state).status.state@ == old(state).status.state@
            &&& final(state).status.mic_active == old(state).status.mic_active
            &&& final(state).status.last_error@ == old(state).status.last_error@
            &&& final(state).status.gain_db == old(state).status.gain_db
            &&& final(state).battery == old(state).battery
            &&& final(desired).address@ == next.selected_device@
            &&& final(desired).enabled == old(desired).enabled
            &&& final(desired).gain_db == old(desired).gain_db
            &&& final(desired).limiter_db == old(desired).limiter_db
            &&& final(state).devices@.len() == old(state).devices@.len()
            &&& forall|i: int|
                0 <= i < old(state).devices@.len() ==> {
                    &&& (#[trigger] final(state).devices@[i]).address@
                        == old(state).devices@[i].address@
                    &&& final(state).devices@[i].name@ == old(state).devices@[i].name@
                    &&& final(state).devices@[i].connected == old(state).devices@[i].connected
                    &&& final(state).devices@[i].selected <==> same_ignoring_case(
                        old(state).devices@[i].address@,
                        next.selected_device@,
                    )
                }
        },
{
    if saved is Ok {
        let views = event_views(result->Ok_0@);
        assert(views.len() == 2);
        assert(views[0] == result->Ok_0@[0]@ && views[1] == result->Ok_0@[1]@);
        let before = device_views(old(state).devices@);
        let after = device_views(final(state).devices@);
        assert(after.len() == final(state).devices@.len()
            && before.len() == old(state).devices@.len());
        assert forall|i: int| 0 <= i < old(state).devices@.len() implies {
            &&& (#[trigger] final(state).devices@[i]).address@ == old(state).devices@[i].address@
            &&& final(state).devices@[i].name@ == old(state).devices@[i].name@
            &&& final(state).devices@[i].connected == old(state).devices@[i].connected
            &&& final(state).devices@[i].selected <==> same_ignoring_case(
                old(state).devices@[i].address@,
                next.selected_device@,
            )
        } by {
            assert(after[i] == final(state).devices@[i]@);
            assert(before[i] == old(state).devices@[i]@);
            assert(after[i] == marked(before[i], next.selected_device@));
        }
        let config = final(service).config@;
        assert(config == next@);
        let status = final(state).status@;
        assert(status.selected_device == next.selected_device@
            && status.state == old(state).status@.state
                && status.last_error == old(state).status@.last_error);
        assert(status.mic_active == old(state).status@.mic_active);
        let wanted = final(desired)@;
        assert(wanted.address == next.selected_device@ && wanted.enabled == old(desired)@.enabled);
    }
}

/// Starting and stopping change the switch of the microphone and no other setting.
pub proof fn law_the_switch_changes_alone(
    service: &ManagerService,
    started: Config,
    stopped: Config,
)
    requires
        call_ensures(ManagerService::start_mic, (service,), started),
        call_ensures(ManagerService::stop_mic, (service,), stopped),
    ensures
        started.mic_enabled && !stopped.mic_enabled,
        started.selected_device@ == service.config.selected_device@ && stopped.selected_device@
            == service.config.selected_device@,
        started.gain_db == service.config.gain_db && stopped.gain_db == service.config.gain_db,
        started.limiter_db == service.config.limiter_db && stopped.limiter_db
            == service.config.limiter_db,
{
    assert(started@.selected_device == service.config@.selected_device);
    assert(stopped@.selected_device == service.config@.selected_device);
    assert(started@.mic_enabled && !stopped@.mic_enabled);
}

/// The microphone is switched even where that could not be saved; the error is handed on.
pub proof fn law_the_switch_acts_even_unsaved(
    service: &mut ManagerService,
    next: Config,
    saved: Result<(), String>,
    desired: &mut DesiredAudio,
    result: Result<(), ServiceError>,
)
    requires
        call_ensures(ManagerService::mic_switched, (service, next, saved, desired), result),
    ensures
        final(desired).enabled == next.mic_enabled,
        final(desired).address@ == old(desired).address@,
        final(desired).gain_db == old(desired).gain_db,
        final(desired).limiter_db == old(desired).limiter_db,
        final(service).config.mic_enabled == next.mic_enabled,
        final(service).config.selected_device@ == next.selected_device@,
        result is Ok <==> saved is Ok,
        saved matches Err(error) ==> result->Err_0 == ServiceError::Failed(error),
{
    assert(final(desired)@.address == old(desired)@.address);
    assert(final(desired)@.enabled == next.mic_enabled);
    assert(final(service).config@ == next@);
}

/// A gain is accepted exactly within its range, and a limiter within its own; each changes its
/// own setting alone.
pub proof fn law_levels_are_accepted_in_range(
    service: &ManagerService,
    level: Decibels,
    gain: Result<Config, ServiceError>,
    limiter: Result<Config, ServiceError>,
    valid_gain: bool,
    valid_limiter: bool,
)
    requires
        call_ensures(ManagerService::set_gain, (service, level), gain),
        call_ensures(ManagerService::set_limiter_db, (service, level), limiter),
        call_ensures(Decibels::is_valid_gain, (level,), valid_gain),
        call_ensures(Decibels::is_valid_limiter, (level,), valid_limiter),
    ensures
        gain is Ok <==> valid_gain,
        limiter is Ok <==> valid_limiter,
        gain is Err ==> gain->Err_0 is InvalidArgs,
        limiter is Err ==> limiter->Err_0 is InvalidArgs,
        gain matches Ok(next) ==> next.gain_db == level && next.limiter_db
            == service.config.limiter_db && next.mic_enabled == service.config.mic_enabled
            && next.selected_device@ == service.config.selected_device@,
        limiter matches Ok(next) ==> next.limiter_db == level && next.gain_db
            == service.config.gain_db && next.mic_enabled == service.config.mic_enabled
            && next.selected_device@ == service.config.selected_device@,
{
    if let Ok(next) = gain {
        assert(next@.selected_device == service.config@.selected_device);
        assert(next@.gain_db == level);
    }
    if let Ok(next) = limiter {
        assert(next@.selected_device == service.config@.selected_device);
        assert(next@.limiter_db == level);
    }
}

/// A gain that was saved is in force in the settings, in the status and in the desired state,
/// and clients are told the status; one that was not saved changes nothing.
pub proof fn law_saved_gains_are_in_force(
    service: &mut ManagerService,
    next: Config,
    saved: Result<(), String>,
    state: &mut RuntimeState,
    desired: &mut DesiredAudio,
    result: Result<Vec<Event>, ServiceError>,
)
    requires
        call_ensures(ManagerService::gain_set, (service, next, saved, state, desired), result),
    ensures
        saved matches Err(error) ==> {
            &&& result is Err && result->Err_0 == ServiceError::Failed(error)
            &&& *final(service) == *old(service)
            &&& *final(state) == *old(state)
            &&& *final(desired) == *old(desired)
        },
        saved is Ok ==> {
            &&& result is Ok && result->Ok_0@.len() == 1 && result->Ok_0@[0] is Status
            &&& result->Ok_0@[0]->Status_0@ == final(state).status@
            &&& final(service).config.gain_db == next.gain_db
            &&& final(service).config.limiter_db == next.limiter_db
            &&& final(service).config.selected_device@ == next.selected_device@
            &&& final(state).status.gain_db == next.gain_db
            &&& final(state).status.limiter_db == old(state).status.limiter_db
            &&& final(state).status.selected_device@ == old(state).status.selected_device@
            &&& final(desired).gain_db == next.gain_db
            &&& final(desired).limiter_db == old(desired).limiter_db
            &&& final(desired).address@ == old(desired).address@
            &&& final(desired).enabled == old(desired).enabled
            &&& final(state).devices == old(state).devices
            &&& final(state).battery == old(state).battery
        },
{
    if saved is Ok {
        let views = event_views(result->Ok_0@);
        assert(views.len() == 1);
        assert(views.len() == result->Ok_0@.len());
        assert(views[0] == result->Ok_0@[0]@);
        assert(final(service).config@ == next@);
        assert(final(state).status@.gain_db == next.gain_db && final(state).status@.selected_device
            == old(state).status@.selected_device);
        assert(final(desired)@.gain_db == next.gain_db
            && final(desired)@.address == old(desired)@.address);
    }
}

/// A limiter that was saved is in force in the settings, in the status and in the desired
/// state, and clients are told the status; one that was not saved changes nothing.
pub proof fn law_saved_limiters_are_in_force(
    service: &mut ManagerService,
    next: Config,
    saved: Result<(), String>,
    state: &mut RuntimeState,
    desired: &mut DesiredAudio,
    result: Result<Vec<Event>, ServiceError>,
)
    requires
        call_ensures(ManagerService::limiter_set, (service, next, saved, state, desired), result),
    ensures
        saved matches Err(error) ==> {
            &&& result is Err && result->Err_0 == ServiceError::Failed(error)
            &&& *final(service) == *old(service)
            &&& *final(state) == *old(state)
            &&& *final(desired) == *old(desired)
        },
        saved is Ok ==> {
            &&& result is Ok && result->Ok_0@.len() == 1 && result->Ok_0@[0] is Status
            &&& result->Ok_0@[0]->Status_0@ == final(state).status@
            &&& final(service).config.limiter_db == next.limiter_db
            &&& final(service).config.gain_db == next.gain_db
            &&& final(service).config.selected_device@ == next.selected_device@
            &&& final(state).status.limiter_db == next.limiter_db
            &&& final(state).status.gain_db == old(state).status.gain_db
            &&& final(state).status.selected_device@ == old(state).status.selected_device@
            &&& final(desired).limiter_db == next.limiter_db
            &&& final(desired).gain_db == old(desired).gain_db
            &&& final(desired).address@ == old(desired).address@
            &&& final(desired).enabled == old(desired).enabled
            &&& final(state).devices == old(state).devices
            &&& final(state).battery == old(state).battery
        },
{
    if saved is Ok {
        let views = event_views(result->Ok_0@);
        assert(views.len() == 1);
        assert(views.len() == result->Ok_0@.len());
        assert(views[0] == result->Ok_0@[0]@);
        assert(final(service).config@ == next@);
        assert(final(state).status@.limiter_db == next.limiter_db
            && final(state).status@.selected_device == old(state).status@.selected_device);
        assert(final(desired)@.limiter_db == next.limiter_db
            && final(desired)@.address == old(desired)@.address);
    }
}

/// A mode request is refused for an unknown mode, and then for a missing device; every other
/// one goes to the selected device with the mode that was named.
pub proof fn law_mode_requests_go_to_the_selected_device(
    service: &ManagerService,
    mode: &str,
    parsed: Option<ListeningMode>,
    result: Result<ModeRequest, ServiceError>,
)
    requires
        call_ensures(ManagerService::set_listening_mode, (service, mode), result),
        call_ensures(ListeningMode::parse, (mode,), parsed),
    ensures
        parsed is None ==> result is Err && result->Err_0 is InvalidArgs,
        parsed is Some && service.config.selected_device@.len() == 0 ==> result is Err
            && result->Err_0 is Failed,
        parsed is Some && service.config.selected_device@.len() > 0 ==> result is Ok
            && result->Ok_0.address@ == service.config.selected_device@ && parsed == Some(
            result->Ok_0.mode,
        ),
{
    if let Ok(request) = result {
        assert(request.mode.name() == mode@);
    }
    if let Some(m) = parsed {
        assert(m.name() == mode@);
    }
    if result is Err && result->Err_0 is Failed {
        let m = choose|m: ListeningMode| #[trigger] m.name() == mode@;
        assert(parsed == Some(m));
    }
}

/// A mode request succeeds exactly where the worker says that it was served.
pub proof fn law_only_served_mode_requests_succeed(
    reply: ModeReply,
    result: Result<(), ServiceError>,
)
    requires
        call_ensures(ManagerService::mode_answer, (reply,), result),
    ensures
        result is Ok <==> reply is Answered && reply->Answered_0 is Ok,
        result is Err ==> result->Err_0 is Failed,
        reply matches ModeReply::Answered(Err(error)) ==> result is Err && result->Err_0
            == ServiceError::Failed(error),
{
}

/// Each kind of event has a signal of its own.
pub proof fn law_events_have_their_signal(event: &Event, name: &'static str)
    requires
        call_ensures(Event::signal_name, (event,), name),
    ensures
        event is Status ==> name@ == "StatusChanged"@,
        event is Battery ==> name@ == "BatteryChanged"@,
        event is Devices ==> name@ == "DevicesChanged"@,
{
}

} // verus!

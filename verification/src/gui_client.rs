//! The client through which the GUI talks to the daemon.
//!
//! The client connects in stages, then listens both to the GUI and to the signals
//! of the daemon, and connects anew when the signals end.
use crate::decibel::Decibels;
use crate::ipc::{device_views, BatteryStatus, DaemonStatus, DeviceInfo, DeviceView, StatusView};
use vstd::prelude::*;

verus! {

/// The pause before another try to connect.
pub const RECONNECT_DELAY_S: u64 = 2;

/// What the GUI is told when the signals of the daemon end.
pub const CONNECTION_LOST: &'static str = "Lost the airpodsd connection. Reconnecting…";

/// What the GUI asks for.
#[derive(Debug)]
pub enum Command {
    /// The latest status, devices and battery values.
    Refresh,
    /// The device with the given address is selected.
    SelectDevice(String),
    /// The microphone starts.
    StartMic,
    /// The microphone stops.
    StopMic,
    /// The gain is set.
    SetGain(Decibels),
    /// The limiter is set.
    SetLimiter(Decibels),
}

/// What the GUI is told.
#[derive(Debug)]
pub enum Event {
    /// Status, devices and battery values that belong together.
    Snapshot { status: DaemonStatus, devices: Vec<DeviceInfo>, battery: BatteryStatus },
    /// The status changed.
    Status(DaemonStatus),
    /// The battery values changed.
    Battery(BatteryStatus),
    /// The devices changed.
    Devices(Vec<DeviceInfo>),
    /// Something went wrong.
    Error(String),
}

/// The model of an `Event`.
pub enum EventView {
    Snapshot { status: StatusView, devices: Seq<DeviceView>, battery: BatteryStatus },
    Status(StatusView),
    Battery(BatteryStatus),
    Devices(Seq<DeviceView>),
    Error(Seq<char>),
}

impl View for Event {
    type V = EventView;

    open spec fn view(&self) -> EventView {
        match self {
            Event::Snapshot { status, devices, battery } => EventView::Snapshot {
                status: status@,
                devices: device_views(devices@),
                battery: *battery,
            },
            Event::Status(status) => EventView::Status(status@),
            Event::Battery(battery) => EventView::Battery(*battery),
            Event::Devices(devices) => EventView::Devices(device_views(devices@)),
            Event::Error(message) => EventView::Error(message@),
        }
    }
}

/// The event of something that failed, with what was being done and the reason.
pub fn send_error(message: &str, error: &str) -> (event: Event)
    ensures
        event@ == EventView::Error(message@ + ": "@ + error@),
{
    let mut text = message.to_owned();
    text.append(": ");
    text.append(error);
    Event::Error(text)
}

/// The stages of connecting, in their order. The signals are subscribed to before
/// the state is read, so that no change gets lost between the two.
#[derive(Clone, Copy, Debug, PartialEq, Eq, Structural)]
pub enum ConnectStage {
    /// Connecting to the session bus.
    Session,
    /// Finding the daemon.
    Proxy,
    /// Subscribing to changes of the status.
    StatusSignals,
    /// Subscribing to changes of the battery values.
    BatterySignals,
    /// Subscribing to changes of the devices.
    DeviceSignals,
    /// Reading status, devices and battery values.
    Snapshot,
}

impl ConnectStage {
    /// The stage that follows, `None` behind the last one.
    pub open spec fn following(self) -> Option<ConnectStage> {
        match self {
            ConnectStage::Session => Some(ConnectStage::Proxy),
            ConnectStage::Proxy => Some(ConnectStage::StatusSignals),
            ConnectStage::StatusSignals => Some(ConnectStage::BatterySignals),
            ConnectStage::BatterySignals => Some(ConnectStage::DeviceSignals),
            ConnectStage::DeviceSignals => Some(ConnectStage::Snapshot),
            ConnectStage::Snapshot => None,
        }
    }

    /// What the GUI is told when the stage fails.
    pub open spec fn failure(self) -> Seq<char> {
        match self {
            ConnectStage::Session => "Cannot connect to the session bus"@,
            ConnectStage::Proxy => "airpodsd is not available"@,
            ConnectStage::StatusSignals => "Cannot subscribe to daemon state"@,
            ConnectStage::BatterySignals => "Cannot subscribe to battery state"@,
            ConnectStage::DeviceSignals => "Cannot subscribe to device state"@,
            ConnectStage::Snapshot => "airpodsd is not available"@,
        }
    }

    fn failure_text(self) -> (text: &'static str)
        ensures
            text@ == self.failure(),
    {
        match self {
            ConnectStage::Session => "Cannot connect to the session bus",
            ConnectStage::Proxy => "airpodsd is not available",
            ConnectStage::StatusSignals => "Cannot subscribe to daemon state",
            ConnectStage::BatterySignals => "Cannot subscribe to battery state",
            ConnectStage::DeviceSignals => "Cannot subscribe to device state",
            ConnectStage::Snapshot => "airpodsd is not available",
        }
    }
}

/// What follows a stage of connecting.
#[derive(Debug)]
pub enum ConnectStep {
    /// The given stage is carried out.
    Perform(ConnectStage),
    /// The client is connected and listens.
    Listen,
    /// The GUI is told, and after a pause everything begins anew.
    StartOver { event: Event, pause_s: u64 },
}

/// Decides what follows a stage of connecting.
pub fn connect_step(stage: ConnectStage, result: Result<(), String>) -> (step: ConnectStep)
    ensures
        match result {
            Ok(_) => match stage.following() {
                Some(next) => step == ConnectStep::Perform(next),
                None => step is Listen,
            },
            Err(error) => step matches ConnectStep::StartOver { event, pause_s } && event@
                == EventView::Error(stage.failure() + ": "@ + error@) && pause_s
                == RECONNECT_DELAY_S,
        },
{
    match result {
        Ok(_) => match stage {
            ConnectStage::Session => ConnectStep::Perform(ConnectStage::Proxy),
            ConnectStage::Proxy => ConnectStep::Perform(ConnectStage::StatusSignals),
            ConnectStage::StatusSignals => ConnectStep::Perform(ConnectStage::BatterySignals),
            ConnectStage::BatterySignals => ConnectStep::Perform(ConnectStage::DeviceSignals),
            ConnectStage::DeviceSignals => ConnectStep::Perform(ConnectStage::Snapshot),
            ConnectStage::Snapshot => ConnectStep::Listen,
        },
        Err(error) => ConnectStep::StartOver {
            event: send_error(stage.failure_text(), error.as_str()),
            pause_s: RECONNECT_DELAY_S,
        },
    }
}

/// What a connected client hears.
#[derive(Debug)]
pub enum Heard {
    /// A command of the GUI; `None` says that the GUI has ended.
    Command(Option<Command>),
    /// A change of the status, or why it cannot be read; `None` says that no more
    /// changes come.
    Status(Option<Result<DaemonStatus, String>>),
    /// The same of the battery values.
    Battery(Option<Result<BatteryStatus, String>>),
    /// The same of the devices.
    Devices(Option<Result<Vec<DeviceInfo>, String>>),
}

/// What follows what a connected client hears.
#[derive(Debug)]
pub enum ListenStep {
    /// The client ends.
    Stop,
    /// The command is carried out.
    Handle(Command),
    /// The GUI is told.
    Tell(Event),
    /// The GUI is told, and the client connects anew at once.
    Reconnect(Event),
}

/// Decides what follows what a connected client hears.
pub fn run(heard: Heard) -> (step: ListenStep)
    ensures
        match heard {
            Heard::Command(None) => step is Stop,
            Heard::Command(Some(command)) => step == ListenStep::Handle(command),
            Heard::Status(Some(Ok(status))) => step matches ListenStep::Tell(event) && event@
                == EventView::Status(status@),
            Heard::Battery(Some(Ok(battery))) => step matches ListenStep::Tell(event) && event@
                == EventView::Battery(battery),
            Heard::Devices(Some(Ok(devices))) => step matches ListenStep::Tell(event) && event@
                == EventView::Devices(device_views(devices@)),
            Heard::Status(Some(Err(error))) => step matches ListenStep::Tell(event) && event@
                == EventView::Error("Cannot read daemon update"@ + ": "@ + error@),
            Heard::Battery(Some(Err(error))) => step matches ListenStep::Tell(event) && event@
                == EventView::Error("Cannot read battery update"@ + ": "@ + error@),
            Heard::Devices(Some(Err(error))) => step matches ListenStep::Tell(event) && event@
                == EventView::Error("Cannot read device update"@ + ": "@ + error@),
            _ => step matches ListenStep::Reconnect(event) && event@ == EventView::Error(
                CONNECTION_LOST@,
            ),
        },
{
    match heard {
        Heard::Command(None) => ListenStep::Stop,
        Heard::Command(Some(command)) => ListenStep::Handle(command),
        Heard::Status(None) => ListenStep::Reconnect(Event::Error(CONNECTION_LOST.to_owned())),
        Heard::Status(Some(Ok(status))) => ListenStep::Tell(Event::Status(status)),
        Heard::Status(Some(Err(error))) => ListenStep::Tell(
            send_error("Cannot read daemon update", error.as_str()),
        ),
        Heard::Battery(None) => ListenStep::Reconnect(Event::Error(CONNECTION_LOST.to_owned())),
        Heard::Battery(Some(Ok(battery))) => ListenStep::Tell(Event::Battery(battery)),
        Heard::Battery(Some(Err(error))) => ListenStep::Tell(
            send_error("Cannot read battery update", error.as_str()),
        ),
        Heard::Devices(None) => ListenStep::Reconnect(Event::Error(CONNECTION_LOST.to_owned())),
        Heard::Devices(Some(Ok(devices))) => ListenStep::Tell(Event::Devices(devices)),
        Heard::Devices(Some(Err(error))) => ListenStep::Tell(
            send_error("Cannot read device update", error.as_str()),
        ),
    }
}

/// A call of the daemon.
#[derive(Debug)]
pub enum Call {
    /// `SelectDevice`.
    SelectDevice(String),
    /// `StartMic`.
    StartMic,
    /// `StopMic`.
    StopMic,
    /// `SetGain`.
    SetGain(Decibels),
    /// `SetLimiterDb`.
    SetLimiter(Decibels),
    /// `Status`, `ListDevices` and `Battery`, one after the other, for a snapshot.
    ReadSnapshot,
}

/// The calls for a command, in their order. A level needs no snapshot behind it,
/// since the daemon signals its new status.
pub open spec fn calls_for(command: Command) -> Seq<Call> {
    match command {
        Command::Refresh => seq![Call::ReadSnapshot],
        Command::SelectDevice(address) => seq![Call::SelectDevice(address), Call::ReadSnapshot],
        Command::StartMic => seq![Call::StartMic, Call::ReadSnapshot],
        Command::StopMic => seq![Call::StopMic, Call::ReadSnapshot],
        Command::SetGain(gain_db) => seq![Call::SetGain(gain_db)],
        Command::SetLimiter(limiter_db) => seq![Call::SetLimiter(limiter_db)],
    }
}

/// The calls for a command, in their order. The first one that fails ends it.
pub fn handle_command(command: Command) -> (calls: Vec<Call>)
    ensures
        calls@ == calls_for(command),
{
    match command {
        Command::Refresh => vec![Call::ReadSnapshot],
        Command::SelectDevice(address) => vec![Call::SelectDevice(address), Call::ReadSnapshot],
        Command::StartMic => vec![Call::StartMic, Call::ReadSnapshot],
        Command::StopMic => vec![Call::StopMic, Call::ReadSnapshot],
        Command::SetGain(gain_db) => vec![Call::SetGain(gain_db)],
        Command::SetLimiter(limiter_db) => vec![Call::SetLimiter(limiter_db)],
    }
}

/// What the GUI is told of a command that failed.
pub open spec fn failed_command(error: Seq<char>) -> EventView {
    EventView::Error("The requested action failed"@ + ": "@ + error)
}

/// What the GUI is told of a command that failed.
pub fn command_failed(error: &str) -> (event: Event)
    ensures
        event@ == failed_command(error@),
{
    send_error("The requested action failed", error)
}

/// What follows a call for a command.
#[derive(Debug)]
pub enum CallStep {
    /// The next call of the command is made.
    Next,
    /// The command is over, and the GUI is told this.
    End(Event),
}

/// Decides what follows a call for a command: one that fails ends the command.
pub fn call_step(result: Result<(), String>) -> (step: CallStep)
    ensures
        match result {
            Ok(_) => step is Next,
            Err(error) => step matches CallStep::End(event) && event@ == failed_command(error@),
        },
{
    match result {
        Ok(_) => CallStep::Next,
        Err(error) => CallStep::End(command_failed(error.as_str())),
    }
}

/// What the GUI is told while the calls of a command are made, out of what became of
/// them.
pub open spec fn told(results: Seq<Result<(), Seq<char>>>) -> Seq<EventView>
    decreases results.len(),
{
    if results.len() == 0 {
        Seq::empty()
    } else {
        match results[0] {
            Ok(_) => told(results.skip(1)),
            Err(error) => seq![failed_command(error)],
        }
    }
}

/// A command is told to have failed at most once: exactly where one of its calls fails,
/// with the error of the first one that does.
pub proof fn law_a_command_fails_once(results: Seq<Result<(), Seq<char>>>, first: int)
    requires
        0 <= first <= results.len(),
        forall|i: int| 0 <= i < first ==> (#[trigger] results[i]) is Ok,
        first < results.len() ==> results[first] is Err,
    ensures
        told(results) == if first < results.len() {
            seq![failed_command(results[first]->Err_0)]
        } else {
            Seq::empty()
        },
    decreases first,
{
    if first > 0 {
        let rest = results.skip(1);
        assert forall|i: int| 0 <= i < first - 1 implies (#[trigger] rest[i]) is Ok by {
            assert(results[i + 1] is Ok);
        }
        assert(results[0] is Ok);
        law_a_command_fails_once(rest, first - 1);
    }
}

/// The number of stages of connecting that have begun, this one included.
pub open spec fn stage_number(stage: ConnectStage) -> nat {
    match stage {
        ConnectStage::Session => 1,
        ConnectStage::Proxy => 2,
        ConnectStage::StatusSignals => 3,
        ConnectStage::BatterySignals => 4,
        ConnectStage::DeviceSignals => 5,
        ConnectStage::Snapshot => 6,
    }
}

/// Connecting goes through its stages one by one, and reads the state only after
/// every signal was subscribed to.
pub proof fn law_signals_come_before_the_snapshot(stage: ConnectStage)
    ensures
        stage.following() matches Some(next) ==> stage_number(next) == stage_number(stage) + 1,
        stage.following() is None <==> stage == ConnectStage::Snapshot,
        stage_number(ConnectStage::StatusSignals) < stage_number(ConnectStage::Snapshot),
        stage_number(ConnectStage::BatterySignals) < stage_number(ConnectStage::Snapshot),
        stage_number(ConnectStage::DeviceSignals) < stage_number(ConnectStage::Snapshot),
{
}

/// A command that changes what runs or which device is used is followed by a
/// snapshot; a level is not.
pub proof fn law_snapshots_follow_changes(command: Command)
    ensures
        calls_for(command).last() is ReadSnapshot <==> !(command is SetGain || command
            is SetLimiter),
        calls_for(command).len() <= 2,
{
}

/// Connecting goes from the bus to the daemon, through the three subscriptions to the snapshot,
/// and then listens. A stage that fails is told, with its error at the end, and after two seconds
/// everything begins anew.
pub proof fn law_connecting_goes_stage_by_stage(
    stage: ConnectStage,
    result: Result<(), String>,
    step: ConnectStep,
)
    requires
        call_ensures(connect_step, (stage, result), step),
    ensures
        result is Ok ==> match stage {
            ConnectStage::Session => step == ConnectStep::Perform(ConnectStage::Proxy),
            ConnectStage::Proxy => step == ConnectStep::Perform(ConnectStage::StatusSignals),
            ConnectStage::StatusSignals => step == ConnectStep::Perform(
                ConnectStage::BatterySignals,
            ),
            ConnectStage::BatterySignals => step == ConnectStep::Perform(
                ConnectStage::DeviceSignals,
            ),
            ConnectStage::DeviceSignals => step == ConnectStep::Perform(ConnectStage::Snapshot),
            ConnectStage::Snapshot => step is Listen,
        },
        result matches Err(error) ==> step is StartOver && step->pause_s == 2
            && step->event is Error
            && exists|front: Seq<char>| step->event->Error_0@ == #[trigger] (front + error@),
{
    if result is Err {
        assert(step->event@ is Error);
    }
}

/// A client hands commands on, ends with its GUI, tells every change that it can read as that
/// change and every other one as an error, and connects anew once no more changes come.
pub proof fn law_what_is_heard_is_told(heard: Heard, step: ListenStep)
    requires
        call_ensures(run, (heard,), step),
    ensures
        step is Stop <==> heard is Command && heard->Command_0 is None,
        heard matches Heard::Command(Some(command)) ==> step == ListenStep::Handle(command),
        heard matches Heard::Status(Some(Ok(status))) ==> step is Tell && step->Tell_0 is Status
            && step->Tell_0->Status_0@ == status@,
        heard matches Heard::Battery(Some(Ok(battery))) ==> step is Tell && step->Tell_0
            == Event::Battery(battery),
        heard matches Heard::Devices(Some(Ok(devices))) ==> step is Tell && step->Tell_0 is Devices
            && device_views(step->Tell_0->Devices_0@) == device_views(devices@),
        heard matches Heard::Status(Some(Err(error))) ==> step is Tell && step->Tell_0 is Error,
        heard matches Heard::Battery(Some(Err(error))) ==> step is Tell && step->Tell_0 is Error,
        heard matches Heard::Devices(Some(Err(error))) ==> step is Tell && step->Tell_0 is Error,
        step is Reconnect <==> (heard is Status && heard->Status_0 is None) || (heard is Battery
            && heard->Battery_0 is None) || (heard is Devices && heard->Devices_0 is None),
        step is Reconnect ==> step->Reconnect_0 is Error,
{
    if step is Tell {
        let told = step->Tell_0@;
        assert(told is Status <==> step->Tell_0 is Status);
        assert(told is Battery <==> step->Tell_0 is Battery);
    }
    if step is Reconnect {
        assert(step->Reconnect_0@ is Error);
    }
}

/// A command makes the call that it stands for, with its own argument, and everything but a level
/// is followed by one snapshot.
pub proof fn law_commands_make_their_call(command: Command, calls: Vec<Call>)
    requires
        call_ensures(handle_command, (command,), calls),
    ensures
        command is Refresh ==> calls@ == seq![Call::ReadSnapshot],
        command matches Command::SelectDevice(address) ==> calls@ == seq![
            Call::SelectDevice(address),
            Call::ReadSnapshot,
        ],
        command is StartMic ==> calls@ == seq![Call::StartMic, Call::ReadSnapshot],
        command is StopMic ==> calls@ == seq![Call::StopMic, Call::ReadSnapshot],
        command matches Command::SetGain(gain_db) ==> calls@ == seq![Call::SetGain(gain_db)],
        command matches Command::SetLimiter(limiter_db) ==> calls@ == seq![
            Call::SetLimiter(limiter_db),
        ],
{
}

/// A call that succeeded is followed by the next one, and one that failed ends the command and is
/// told with its error at the end.
pub proof fn law_failed_calls_end_a_command(result: Result<(), String>, step: CallStep)
    requires
        call_ensures(call_step, (result,), step),
    ensures
        step is Next <==> result is Ok,
        result matches Err(error) ==> step is End && step->End_0 is Error
            && exists|front: Seq<char>|
            step->End_0->Error_0@ == #[trigger] (front + error@),
{
    if result is Err {
        assert(step->End_0@ is Error);
    }
}

} // verus!

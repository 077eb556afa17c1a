//! One attempt to stream the microphone: its startup, its running and its end.
//!
//! The attempt is a state machine. Its surroundings carry out what it asks for,
//! wait for what happens next, and hand that back.
use crate::aacp::{
    begins_with, features_ack_prefix, features_packet, handshake_ack_prefix, listening_mode_packet,
    notifications_packet, AacpSession,
};
use crate::address::{parse_address, parsed_address};
use crate::battery::{notified, parse_aacp_battery, AacpBatteryUpdate};
use crate::decibel::Decibels;
use crate::engine::{EngineError, PushOutcome};
use crate::framing::{access_units, audio_sdu, contents, demux_audio_sdu, is_audio_sdu};
use crate::ipc::StatusView;
use crate::service::{
    AudioReport, AudioState, DesiredAudio, DesiredView, ModeRequest, ReportView,
};
use crate::text::{eq_ignore_case, same_ignoring_case};
use crate::workers::AacpBatteryEvent;
use vstd::prelude::*;

verus! {

/// The time within which the first access unit must be queued.
pub const FIRST_AUDIO_TIMEOUT_NS: u64 = 3_000_000_000;

/// The longest time without a queued access unit once there has been one.
pub const AUDIO_STALL_TIMEOUT_NS: u64 = 3_000_000_000;

/// The interval at which the watchdog looks.
pub const WATCHDOG_INTERVAL_MS: u64 = 500;

/// The number of consecutive decode errors that ends a stream.
pub const DECODE_ERROR_LIMIT: u32 = 64;

/// The number of consecutive full queues that ends a stream.
pub const QUEUE_FULL_LIMIT: u32 = 256;

/// The pause between the start of the microphone and the reset of A2DP.
pub const A2DP_RESET_DELAY_MS: u64 = 800;

/// The pause behind a stop packet.
pub const AACP_STOP_SETTLE_DELAY_MS: u64 = 200;

/// The pause behind a listening mode packet, before its session is closed.
pub const AACP_CONTROL_SETTLE_DELAY_MS: u64 = 100;

/// The pause before notifications are requested again.
pub const AACP_NOTIFICATION_RETRY_DELAY_MS: u64 = 2_000;

/// How often notifications are requested again.
pub const AACP_NOTIFICATION_RETRY_LIMIT: u8 = 2;

/// The length of the largest packet.
pub const PACKET_CAPACITY: usize = 65_535;

/// The error of a target whose address cannot be read.
pub const INVALID_ADDRESS: &'static str = "invalid Bluetooth address";

/// The error of a stream whose peer has gone.
pub const DISCONNECTED: &'static str = "AirPods disconnected";

/// The error of a stream that brings nothing to be heard.
pub const NO_AUDIO: &'static str =
    "AirPods microphone stream produced no usable audio for 3 seconds";

/// The error of a stream that cannot be decoded.
pub const DECODER_REJECTS: &'static str = "AAC-ELD decoder rejected 64 consecutive access units";

/// The error of a stream that nobody consumes.
pub const QUEUE_STAYS_FULL: &'static str =
    "PipeWire audio queue remained full for 256 access units";

/// The answer to a mode request for a device that is no longer the target.
pub const SELECTION_CHANGED: &'static str =
    "selected AirPods changed before the mode command was sent";

/// The error of a mode request whose address cannot be read.
pub const INVALID_SELECTED_ADDRESS: &'static str = "invalid selected Bluetooth address";

/// The error of a mode request for a device that is not connected.
pub const NOT_CONNECTED: &'static str = "selected AirPods are not connected";

/// Why an attempt ends.
#[derive(Debug)]
pub enum AttemptExit {
    /// The desired state changed, and another attempt follows at once.
    Reconfigure,
    /// The daemon ends.
    Shutdown,
    /// Something failed, and another attempt follows after a pause.
    Failed(String),
}

/// The model of an `AttemptExit`.
pub enum ExitView {
    Reconfigure,
    Shutdown,
    Failed(Seq<char>),
}

impl View for AttemptExit {
    type V = ExitView;

    open spec fn view(&self) -> ExitView {
        match self {
            AttemptExit::Reconfigure => ExitView::Reconfigure,
            AttemptExit::Shutdown => ExitView::Shutdown,
            AttemptExit::Failed(error) => ExitView::Failed(error@),
        }
    }
}

/// The model of an exit that may not have come.
pub open spec fn exit_view(exit: Option<AttemptExit>) -> Option<ExitView> {
    match exit {
        Some(exit) => Some(exit@),
        None => None,
    }
}

/// The stages of a startup, in their order.
#[derive(Clone, Copy, Debug, PartialEq, Eq, Structural)]
pub enum StartupStage {
    /// Waiting until the AirPods are connected.
    WaitConnected,
    /// Connecting an AACP session.
    ConnectAacp,
    /// Sending the handshake.
    Initialize,
    /// Creating the audio engine with the levels of the target.
    CreateEngine,
    /// Starting the audio engine.
    StartEngine,
    /// Telling the AirPods to send.
    StartAudio,
}

impl StartupStage {
    /// The stage that follows, `None` behind the last one.
    pub open spec fn following(self) -> Option<StartupStage> {
        match self {
            StartupStage::WaitConnected => Some(StartupStage::ConnectAacp),
            StartupStage::ConnectAacp => Some(StartupStage::Initialize),
            StartupStage::Initialize => Some(StartupStage::CreateEngine),
            StartupStage::CreateEngine => Some(StartupStage::StartEngine),
            StartupStage::StartEngine => Some(StartupStage::StartAudio),
            StartupStage::StartAudio => None,
        }
    }

    /// The number of stages that have begun, this one included.
    pub open spec fn number(self) -> nat {
        match self {
            StartupStage::WaitConnected => 1,
            StartupStage::ConnectAacp => 2,
            StartupStage::Initialize => 3,
            StartupStage::CreateEngine => 4,
            StartupStage::StartEngine => 5,
            StartupStage::StartAudio => 6,
        }
    }

    /// Whether a change of the desired state and a shutdown interrupt the stage.
    pub fn is_interruptible(self) -> (interruptible: bool)
        ensures
            interruptible == !(self == StartupStage::CreateEngine || self
                == StartupStage::StartEngine),
    {
        match self {
            StartupStage::CreateEngine => false,
            StartupStage::StartEngine => false,
            _ => true,
        }
    }

    /// Whether a mode request is served during the stage. Once the AirPods are being
    /// told to send, it has to wait.
    pub fn serves_mode_requests(self) -> (serves: bool)
        ensures
            serves == (self.number() <= 3),
    {
        match self {
            StartupStage::WaitConnected => true,
            StartupStage::ConnectAacp => true,
            StartupStage::Initialize => true,
            _ => false,
        }
    }
}

/// What became of a stage.
#[derive(Debug)]
pub enum StageOutcome {
    /// It succeeded.
    Succeeded,
    /// It failed.
    Failed(String),
    /// The desired state changed meanwhile.
    DesiredChanged,
    /// Nobody states a desired state any more.
    DesiredClosed,
    /// A shutdown was signalled meanwhile.
    ShutdownSignalled,
    /// A mode request was served meanwhile, through a session of its own.
    ModeServed,
}

impl StageOutcome {
    /// The exit to which the outcome leads, `None` for success.
    pub open spec fn exit(self) -> Option<ExitView> {
        match self {
            StageOutcome::Succeeded => None,
            StageOutcome::Failed(error) => Some(ExitView::Failed(error@)),
            StageOutcome::DesiredChanged => Some(ExitView::Reconfigure),
            StageOutcome::DesiredClosed => Some(ExitView::Shutdown),
            StageOutcome::ShutdownSignalled => Some(ExitView::Shutdown),
            StageOutcome::ModeServed => Some(ExitView::Reconfigure),
        }
    }
}

/// What has to be undone when a startup ends early.
#[derive(Clone, Copy, Debug, PartialEq, Eq, Structural)]
pub enum Cleanup {
    /// Nothing.
    Nothing,
    /// The audio engine is stopped.
    StopEngine,
    /// The AirPods are told to stop, and the audio engine is stopped.
    StopStream,
}

/// What follows in a startup.
#[derive(Debug)]
pub enum StartupStep {
    /// The given stage is carried out.
    Perform(StartupStage),
    /// The audio engine is created with these levels.
    CreateEngine { gain_db: Decibels, limiter_db: Decibels },
    /// The latest desired state and the shutdown signal are looked at.
    CheckStale,
    /// The startup is complete.
    Stream,
    /// The startup ends early.
    Exit { cleanup: Cleanup, exit: AttemptExit },
}

/// The model of a `StartupStep`.
pub enum StepView {
    Perform(StartupStage),
    CreateEngine { gain_db: Decibels, limiter_db: Decibels },
    CheckStale,
    Stream,
    Exit { cleanup: Cleanup, exit: ExitView },
}

impl View for StartupStep {
    type V = StepView;

    open spec fn view(&self) -> StepView {
        match self {
            StartupStep::Perform(stage) => StepView::Perform(*stage),
            StartupStep::CreateEngine { gain_db, limiter_db } => StepView::CreateEngine {
                gain_db: *gain_db,
                limiter_db: *limiter_db,
            },
            StartupStep::CheckStale => StepView::CheckStale,
            StartupStep::Stream => StepView::Stream,
            StartupStep::Exit { cleanup, exit } => StepView::Exit {
                cleanup: *cleanup,
                exit: exit@,
            },
        }
    }
}

/// Reads the address of a target, before the first stage.
pub fn begin(target: &DesiredAudio) -> (address: Result<[u8; 6], AttemptExit>)
    ensures
        match address {
            Ok(bytes) => parsed_address(target.address@) == Some(bytes@),
            Err(exit) => {
                &&& parsed_address(target.address@) is None
                &&& exit@ == ExitView::Failed(INVALID_ADDRESS@)
            },
        },
{
    match parse_address(target.address.as_str()) {
        Some(bytes) => Ok(bytes),
        None => Err(AttemptExit::Failed(INVALID_ADDRESS.to_owned())),
    }
}

/// What has to be undone where a stage itself did not succeed: from the moment at
/// which the AirPods are told to send, they may be sending.
pub open spec fn cleanup_within(stage: StartupStage) -> Cleanup {
    if stage == StartupStage::StartAudio {
        Cleanup::StopStream
    } else {
        Cleanup::Nothing
    }
}

/// What has to be undone behind a stage that succeeded.
pub open spec fn cleanup_behind(stage: StartupStage) -> Cleanup {
    match stage {
        StartupStage::StartEngine => Cleanup::StopEngine,
        StartupStage::StartAudio => Cleanup::StopStream,
        _ => Cleanup::Nothing,
    }
}

/// What follows a stage.
pub open spec fn step_after(stage: StartupStage, outcome: StageOutcome) -> StepView {
    match outcome.exit() {
        Some(exit) => StepView::Exit { cleanup: cleanup_within(stage), exit },
        None => if stage == StartupStage::ConnectAacp {
            StepView::Perform(StartupStage::Initialize)
        } else {
            StepView::CheckStale
        },
    }
}

/// Decides what follows a stage.
///
/// Behind every stage but one the startup looks whether its target still stands.
/// The handshake follows the connection at once.
pub fn after_stage(stage: StartupStage, outcome: StageOutcome) -> (step: StartupStep)
    ensures
        step@ == step_after(stage, outcome),
{
    let exit = match outcome {
        StageOutcome::Succeeded => {
            return match stage {
                StartupStage::ConnectAacp => StartupStep::Perform(StartupStage::Initialize),
                _ => StartupStep::CheckStale,
            };
        },
        StageOutcome::Failed(error) => AttemptExit::Failed(error),
        StageOutcome::DesiredChanged => AttemptExit::Reconfigure,
        StageOutcome::DesiredClosed => AttemptExit::Shutdown,
        StageOutcome::ShutdownSignalled => AttemptExit::Shutdown,
        StageOutcome::ModeServed => AttemptExit::Reconfigure,
    };
    let cleanup = match stage {
        StartupStage::StartAudio => Cleanup::StopStream,
        _ => Cleanup::Nothing,
    };
    StartupStep::Exit { cleanup, exit }
}

/// The exit of a startup whose target no longer stands; a shutdown goes before
/// everything else.
pub open spec fn stale(shutdown: bool, latest: DesiredView, target: DesiredView) -> Option<
    ExitView,
> {
    if shutdown {
        Some(ExitView::Shutdown)
    } else if !latest.equal_to(target) {
        Some(ExitView::Reconfigure)
    } else {
        None
    }
}

/// Decides whether the target of a startup still stands.
pub fn stale_startup(shutdown: bool, latest: &DesiredAudio, target: &DesiredAudio) -> (exit: Option<
    AttemptExit,
>)
    ensures
        exit_view(exit) == stale(shutdown, latest@, target@),
{
    if shutdown {
        return Some(AttemptExit::Shutdown);
    }
    if !latest.same_as(target) {
        return Some(AttemptExit::Reconfigure);
    }
    None
}

/// What follows the look that comes behind a stage.
pub open spec fn step_behind(
    stage: StartupStage,
    shutdown: bool,
    latest: DesiredView,
    target: DesiredView,
) -> StepView {
    match stale(shutdown, latest, target) {
        Some(exit) => StepView::Exit { cleanup: cleanup_behind(stage), exit },
        None => match stage.following() {
            Some(StartupStage::CreateEngine) => StepView::CreateEngine {
                gain_db: target.gain_db,
                limiter_db: target.limiter_db,
            },
            Some(next) => StepView::Perform(next),
            None => StepView::Stream,
        },
    }
}

/// Decides what follows the look that comes behind a stage.
pub fn after_check(
    stage: StartupStage,
    shutdown: bool,
    latest: &DesiredAudio,
    target: &DesiredAudio,
) -> (step: StartupStep)
    ensures
        step@ == step_behind(stage, shutdown, latest@, target@),
{
    match stale_startup(shutdown, latest, target) {
        Some(exit) => {
            let cleanup = match stage {
                StartupStage::StartEngine => Cleanup::StopEngine,
                StartupStage::StartAudio => Cleanup::StopStream,
                _ => Cleanup::Nothing,
            };
            StartupStep::Exit { cleanup, exit }
        },
        None => match stage {
            StartupStage::WaitConnected => StartupStep::Perform(StartupStage::ConnectAacp),
            StartupStage::ConnectAacp => StartupStep::Perform(StartupStage::Initialize),
            StartupStage::Initialize => StartupStep::CreateEngine {
                gain_db: target.gain_db,
                limiter_db: target.limiter_db,
            },
            StartupStage::CreateEngine => StartupStep::Perform(StartupStage::StartEngine),
            StartupStage::StartEngine => StartupStep::Perform(StartupStage::StartAudio),
            StartupStage::StartAudio => StartupStep::Stream,
        },
    }
}

/// A startup goes forward only: whatever follows a stage is the next stage, a look,
/// or the end. The audio engine is created with the levels of the target.
pub proof fn law_startup_goes_forward(
    stage: StartupStage,
    outcome: StageOutcome,
    shutdown: bool,
    latest: DesiredView,
    target: DesiredView,
)
    ensures
        step_after(stage, outcome) matches StepView::Perform(next) ==> next.number()
            == stage.number() + 1,
        step_behind(stage, shutdown, latest, target) matches StepView::Perform(next)
            ==> next.number() == stage.number() + 1,
        step_after(stage, outcome) !is Stream && step_after(stage, outcome) !is CreateEngine,
        step_behind(stage, shutdown, latest, target) matches StepView::CreateEngine {
            gain_db,
            limiter_db,
        } ==> stage == StartupStage::Initialize && gain_db == target.gain_db && limiter_db
            == target.limiter_db,
        step_behind(stage, shutdown, latest, target) is Stream ==> stage
            == StartupStage::StartAudio,
{
}

/// Once the AirPods may be sending, every early end tells them to stop; before that
/// none does.
pub proof fn law_no_early_end_leaves_audio_running(
    stage: StartupStage,
    outcome: StageOutcome,
    shutdown: bool,
    latest: DesiredView,
    target: DesiredView,
)
    ensures
        step_after(stage, outcome) matches StepView::Exit { cleanup, .. } ==> (cleanup
            == Cleanup::StopStream <==> stage == StartupStage::StartAudio),
        step_behind(stage, shutdown, latest, target) matches StepView::Exit { cleanup, .. } ==> (
        cleanup == Cleanup::StopStream <==> stage == StartupStage::StartAudio),
        step_behind(stage, shutdown, latest, target) matches StepView::Exit { cleanup, .. } ==> (
        cleanup == Cleanup::Nothing <==> stage.number() <= 4),
{
}

/// No stream begins for a target that is not the desired one, or during a shutdown.
pub proof fn law_streams_have_a_standing_target(
    stage: StartupStage,
    shutdown: bool,
    latest: DesiredView,
    target: DesiredView,
)
    requires
        step_behind(stage, shutdown, latest, target) is Stream,
    ensures
        !shutdown,
        latest.equal_to(target),
{
}

/// A running stream.
#[derive(Debug)]
pub struct StreamState {
    /// The desired state that the stream brings about.
    pub target: DesiredAudio,
    /// When the stream began.
    pub started_ns: u64,
    /// When an access unit was last queued.
    pub last_queued_ns: Option<u64>,
    /// The number of decode errors in a row.
    pub decode_errors: u32,
    /// The number of full queues in a row.
    pub queue_full: u32,
    /// Whether notifications are to be requested again.
    pub retry_pending: bool,
    /// How often they were requested again since they were first requested.
    pub retries: u8,
}

/// What follows a change of the desired state.
#[derive(Debug)]
pub enum DesiredStep {
    /// The stream goes on as it is.
    Keep,
    /// The audio engine takes these levels.
    SetProcessing { gain_db: Decibels, limiter_db: Decibels },
    /// The stream ends.
    Exit(AttemptExit),
}

/// What follows a received packet.
#[derive(Debug)]
pub enum ReceivedStep<'a> {
    /// The stream ends.
    Exit(AttemptExit),
    /// A packet is sent; where `arm_retry` is set, the timer for another request is
    /// started anew.
    Send { packet: Vec<u8>, arm_retry: bool },
    /// A battery notification is handed on.
    Battery(AacpBatteryUpdate),
    /// The packet is of no interest.
    Ignore,
    /// The access units go to the audio engine, in their order.
    Audio(Vec<&'a [u8]>),
}

/// The exit of a stream at a shutdown signal: `closed` says that nobody can signal
/// any more, `shutdown` is what was signalled.
pub fn shutdown_changed(closed: bool, shutdown: bool) -> (exit: Option<AttemptExit>)
    ensures
        exit_view(exit) == (if closed || shutdown {
            Some(ExitView::Shutdown)
        } else {
            None
        }),
{
    if closed || shutdown {
        Some(AttemptExit::Shutdown)
    } else {
        None
    }
}

/// How long ago a moment was; a moment that is still to come was just now.
pub open spec fn since(moment_ns: u64, now_ns: u64) -> u64 {
    if now_ns >= moment_ns {
        (now_ns - moment_ns) as u64
    } else {
        0
    }
}

/// Whether a stream has gone without audio for too long: since its last queued
/// access unit, or since its beginning where there has been none.
pub open spec fn starved(started_ns: u64, last_queued_ns: Option<u64>, now_ns: u64) -> bool {
    match last_queued_ns {
        Some(last) => since(last, now_ns) >= AUDIO_STALL_TIMEOUT_NS,
        None => since(started_ns, now_ns) >= FIRST_AUDIO_TIMEOUT_NS,
    }
}

/// A count with one more, up to the largest count.
pub open spec fn one_more(count: u32) -> u32 {
    if count == u32::MAX {
        count
    } else {
        (count + 1) as u32
    }
}

/// The counts of decode errors and of full queues in a row, after another outcome.
pub open spec fn counted(counts: (u32, u32), outcome: PushOutcome) -> (u32, u32) {
    match outcome {
        PushOutcome::Queued => (0, 0),
        PushOutcome::DecodeError => (one_more(counts.0), 0),
        PushOutcome::QueueFull => (0, one_more(counts.1)),
    }
}

/// The error of a stream with the given counts, where they end it.
pub open spec fn overrun(counts: (u32, u32)) -> Option<Seq<char>> {
    if counts.0 >= DECODE_ERROR_LIMIT {
        Some(DECODER_REJECTS@)
    } else if counts.1 >= QUEUE_FULL_LIMIT {
        Some(QUEUE_STAYS_FULL@)
    } else {
        None
    }
}

/// The packet and the timer of a request for notifications: whether another one is
/// pending and how many have been made, after a pending one was made.
pub open spec fn retried(retries: u8) -> (bool, u8) {
    let made = if retries == u8::MAX {
        retries
    } else {
        (retries + 1) as u8
    };
    (made < AACP_NOTIFICATION_RETRY_LIMIT, made)
}

impl StreamState {
    /// A stream that has just begun.
    pub fn new(target: DesiredAudio, now_ns: u64) -> (stream: StreamState)
        ensures
            stream.target == target,
            stream.started_ns == now_ns,
            stream.last_queued_ns is None,
            stream.counts() == (0u32, 0u32),
            !stream.retry_pending,
            stream.retries == 0,
    {
        StreamState {
            target,
            started_ns: now_ns,
            last_queued_ns: None,
            decode_errors: 0,
            queue_full: 0,
            retry_pending: false,
            retries: 0,
        }
    }

    /// The counts of decode errors and of full queues in a row.
    pub open spec fn counts(self) -> (u32, u32) {
        (self.decode_errors, self.queue_full)
    }

    /// Decides what follows a change of the desired state, `None` where nobody
    /// states one any more.
    ///
    /// Another device, or none, ends the stream. Other levels are set in the
    /// running engine: those of the new desired state.
    pub fn desired_changed(&self, next: Option<&DesiredAudio>) -> (step: DesiredStep)
        ensures
            match next {
                None => step matches DesiredStep::Exit(exit) && exit@ == ExitView::Shutdown,
                Some(next) => if !next.enabled || !same_ignoring_case(
                    next.address@,
                    self.target.address@,
                ) {
                    step matches DesiredStep::Exit(exit) && exit@ == ExitView::Reconfigure
                } else if next.gain_db.equal_to(self.target.gain_db) && next.limiter_db.equal_to(
                    self.target.limiter_db,
                ) {
                    step is Keep
                } else {
                    step == (DesiredStep::SetProcessing {
                        gain_db: next.gain_db,
                        limiter_db: next.limiter_db,
                    })
                },
            },
    {
        match next {
            None => DesiredStep::Exit(AttemptExit::Shutdown),
            Some(next) => {
                if !next.enabled || !eq_ignore_case(
                    next.address.as_str(),
                    self.target.address.as_str(),
                ) {
                    return DesiredStep::Exit(AttemptExit::Reconfigure);
                }
                if !next.gain_db.equals(self.target.gain_db) || !next.limiter_db.equals(
                    self.target.limiter_db,
                ) {
                    return DesiredStep::SetProcessing {
                        gain_db: next.gain_db,
                        limiter_db: next.limiter_db,
                    };
                }
                DesiredStep::Keep
            },
        }
    }

    /// Takes note of whether the engine took new levels. Only then the desired
    /// state becomes the target.
    pub fn processing_set(&mut self, next: DesiredAudio, result: Result<(), EngineError>) -> (exit:
        Option<AttemptExit>)
        ensures
            match result {
                Ok(_) => {
                    &&& exit is None
                    &&& *final(self) == (StreamState { target: next, ..*old(self) })
                },
                Err(error) => {
                    &&& exit_view(exit) == Some(ExitView::Failed(error.text()))
                    &&& *final(self) == *old(self)
                },
            },
    {
        match result {
            Ok(_) => {
                self.target = next;
                None
            },
            Err(error) => Some(AttemptExit::Failed(error.message())),
        }
    }

    /// Gives the packet for a mode request, or the answer that it cannot be sent
    /// because it was made for another device.
    pub fn mode_requested(&self, request: &ModeRequest) -> (packet: Result<Vec<u8>, String>)
        ensures
            match packet {
                Ok(bytes) => {
                    &&& same_ignoring_case(request.address@, self.target.address@)
                    &&& bytes@ == listening_mode_packet(request.mode)
                },
                Err(message) => {
                    &&& !same_ignoring_case(request.address@, self.target.address@)
                    &&& message@ == SELECTION_CHANGED@
                },
            },
    {
        if eq_ignore_case(request.address.as_str(), self.target.address.as_str()) {
            Ok(AacpSession::new().set_listening_mode(request.mode))
        } else {
            Err(SELECTION_CHANGED.to_owned())
        }
    }

    /// Ends a stream that has gone without audio for too long.
    pub fn watchdog(&self, now_ns: u64) -> (exit: Option<AttemptExit>)
        ensures
            exit_view(exit) == (if starved(self.started_ns, self.last_queued_ns, now_ns) {
                Some(ExitView::Failed(NO_AUDIO@))
            } else {
                None
            }),
    {
        let timed_out = match self.last_queued_ns {
            Some(last) => now_ns.saturating_sub(last) >= AUDIO_STALL_TIMEOUT_NS,
            None => now_ns.saturating_sub(self.started_ns) >= FIRST_AUDIO_TIMEOUT_NS,
        };
        if timed_out {
            Some(AttemptExit::Failed(NO_AUDIO.to_owned()))
        } else {
            None
        }
    }

    /// Gives the packet that requests notifications again, where that is pending.
    /// If it is still pending afterwards, the timer is started anew.
    pub fn retry_due(&mut self) -> (packet: Option<Vec<u8>>)
        ensures
            packet is Some <==> old(self).retry_pending,
            packet matches Some(bytes) ==> bytes@ == notifications_packet(),
            *final(self) == (if old(self).retry_pending {
                let (retry_pending, retries) = retried(old(self).retries);
                StreamState { retry_pending, retries, ..*old(self) }
            } else {
                *old(self)
            }),
    {
        if !self.retry_pending {
            return None;
        }
        self.retries = self.retries.saturating_add(1);
        if self.retries >= AACP_NOTIFICATION_RETRY_LIMIT {
            self.retry_pending = false;
        }
        Some(AacpSession::new().request_notifications())
    }

    /// Decides what follows a received packet.
    ///
    /// The acknowledgement of the handshake leads to the feature setup, that of the
    /// feature setup to the request for notifications. A battery notification ends
    /// the repetition of that request.
    pub fn received<'a>(&mut self, received: Result<&'a [u8], String>) -> (step: ReceivedStep<'a>)
        ensures
            match received {
                Err(error) => {
                    &&& step matches ReceivedStep::Exit(exit) && exit@ == ExitView::Failed(error@)
                    &&& *final(self) == *old(self)
                },
                Ok(sdu) => received_step(*old(self), sdu@, step, *final(self)),
            },
    {
        let sdu = match received {
            Ok(sdu) => sdu,
            Err(error) => {
                return ReceivedStep::Exit(AttemptExit::Failed(error));
            },
        };
        if sdu.len() == 0 {
            return ReceivedStep::Exit(AttemptExit::Failed(DISCONNECTED.to_owned()));
        }
        let session = AacpSession::new();
        if AacpSession::is_handshake_ack(sdu) {
            return ReceivedStep::Send {
                packet: session.set_specific_features(),
                arm_retry: false,
            };
        }
        if AacpSession::is_features_ack(sdu) {
            self.retries = 0;
            self.retry_pending = true;
            return ReceivedStep::Send {
                packet: session.request_notifications(),
                arm_retry: true,
            };
        }
        if let Some(update) = parse_aacp_battery(sdu) {
            self.retry_pending = false;
            return ReceivedStep::Battery(update);
        }
        if !is_audio_sdu(sdu) {
            return ReceivedStep::Ignore;
        }
        match demux_audio_sdu(sdu) {
            Ok(units) => ReceivedStep::Audio(units),
            Err(error) => ReceivedStep::Exit(AttemptExit::Failed(error.message())),
        }
    }

    /// Takes note of what became of an access unit, and ends a stream that the
    /// decoder rejects or that nobody consumes.
    pub fn pushed(&mut self, result: Result<PushOutcome, EngineError>, now_ns: u64) -> (exit: Option<
        AttemptExit,
    >)
        ensures
            match result {
                Err(error) => {
                    &&& exit_view(exit) == Some(ExitView::Failed(error.text()))
                    &&& *final(self) == *old(self)
                },
                Ok(outcome) => {
                    let counts = counted(old(self).counts(), outcome);
                    &&& *final(self) == (StreamState {
                        decode_errors: counts.0,
                        queue_full: counts.1,
                        last_queued_ns: if outcome == PushOutcome::Queued {
                            Some(now_ns)
                        } else {
                            old(self).last_queued_ns
                        },
                        ..*old(self)
                    })
                    &&& exit_view(exit) == (match overrun(counts) {
                        Some(error) => Some(ExitView::Failed(error)),
                        None => None,
                    })
                },
            },
    {
        match result {
            Err(error) => Some(AttemptExit::Failed(error.message())),
            Ok(PushOutcome::Queued) => {
                self.last_queued_ns = Some(now_ns);
                self.decode_errors = 0;
                self.queue_full = 0;
                None
            },
            Ok(PushOutcome::DecodeError) => {
                self.decode_errors = self.decode_errors.saturating_add(1);
                self.queue_full = 0;
                if self.decode_errors >= DECODE_ERROR_LIMIT {
                    return Some(AttemptExit::Failed(DECODER_REJECTS.to_owned()));
                }
                None
            },
            Ok(PushOutcome::QueueFull) => {
                self.decode_errors = 0;
                self.queue_full = self.queue_full.saturating_add(1);
                if self.queue_full >= QUEUE_FULL_LIMIT {
                    return Some(AttemptExit::Failed(QUEUE_STAYS_FULL.to_owned()));
                }
                None
            },
        }
    }
}

/// What follows a received packet, and the stream behind it.
pub open spec fn received_step(
    before: StreamState,
    sdu: Seq<u8>,
    step: ReceivedStep,
    after: StreamState,
) -> bool {
    if sdu.len() == 0 {
        &&& step matches ReceivedStep::Exit(exit) && exit@ == ExitView::Failed(DISCONNECTED@)
        &&& after == before
    } else if begins_with(sdu, handshake_ack_prefix()) {
        &&& step matches ReceivedStep::Send { packet, arm_retry } && packet@ == features_packet()
            && !arm_retry
        &&& after == before
    } else if begins_with(sdu, features_ack_prefix()) {
        &&& step matches ReceivedStep::Send { packet, arm_retry } && packet@
            == notifications_packet() && arm_retry
        &&& after == (StreamState { retry_pending: true, retries: 0, ..before })
    } else if let Some(update) = notified(sdu) {
        &&& step == ReceivedStep::<'_>::Battery(update)
        &&& after == (StreamState { retry_pending: false, ..before })
    } else if !audio_sdu(sdu) {
        &&& step is Ignore
        &&& after == before
    } else {
        &&& after == before
        &&& match access_units(sdu) {
            Ok(units) => step matches ReceivedStep::Audio(slices) && contents(slices@) == units,
            Err(error) => step matches ReceivedStep::Exit(exit) && exit@ == ExitView::Failed(
                error.text(),
            ),
        }
    }
}

/// The counts after a row of outcomes.
pub open spec fn counts_after(outcomes: Seq<PushOutcome>) -> (u32, u32)
    decreases outcomes.len(),
{
    if outcomes.len() == 0 {
        (0, 0)
    } else {
        counted(counts_after(outcomes.drop_last()), outcomes.last())
    }
}

/// The length of the run of one outcome with which a row of outcomes ends.
pub open spec fn run_of(outcomes: Seq<PushOutcome>, outcome: PushOutcome) -> nat
    decreases outcomes.len(),
{
    if outcomes.len() == 0 || outcomes.last() != outcome {
        0
    } else {
        run_of(outcomes.drop_last(), outcome) + 1
    }
}

/// The counts of a stream are the lengths of the runs with which its outcomes end,
/// up to the largest count.
pub proof fn law_counts_are_runs(outcomes: Seq<PushOutcome>)
    ensures
        ({
            let errors = run_of(outcomes, PushOutcome::DecodeError);
            let full = run_of(outcomes, PushOutcome::QueueFull);
            let (decode_errors, queue_full) = counts_after(outcomes);
            &&& decode_errors == if errors <= u32::MAX {
                errors
            } else {
                u32::MAX as nat
            }
            &&& queue_full == if full <= u32::MAX {
                full
            } else {
                u32::MAX as nat
            }
        }),
    decreases outcomes.len(),
{
    if outcomes.len() > 0 {
        law_counts_are_runs(outcomes.drop_last());
    }
}

/// A stream ends exactly where its outcomes end with 64 decode errors in a row or
/// with 256 full queues in a row.
pub proof fn law_runs_end_the_stream(outcomes: Seq<PushOutcome>)
    ensures
        overrun(counts_after(outcomes)) == (if run_of(outcomes, PushOutcome::DecodeError) >= 64 {
            Some(DECODER_REJECTS@)
        } else if run_of(outcomes, PushOutcome::QueueFull) >= 256 {
            Some(QUEUE_STAYS_FULL@)
        } else {
            None
        }),
{
    law_counts_are_runs(outcomes);
}

/// Whether another request for notifications is pending, and how many have been
/// made, after the timer fired a number of times.
pub open spec fn retries_after(fired: nat) -> (bool, u8)
    decreases fired,
{
    if fired == 0 {
        (true, 0)
    } else {
        let (pending, retries) = retries_after((fired - 1) as nat);
        if pending {
            retried(retries)
        } else {
            (pending, retries)
        }
    }
}

/// However often the timer fires, notifications are requested again at most twice.
pub proof fn law_retries_are_bounded(fired: nat)
    ensures
        retries_after(fired).1 <= AACP_NOTIFICATION_RETRY_LIMIT,
        retries_after(fired).0 <==> fired < AACP_NOTIFICATION_RETRY_LIMIT,
    decreases fired,
{
    if fired > 0 {
        law_retries_are_bounded((fired - 1) as nat);
        if fired > 1 {
            law_retries_are_bounded((fired - 2) as nat);
        }
        reveal_with_fuel(retries_after, 4);
    }
}

/// An access unit that is queued keeps the stream alive for three seconds, and no
/// longer.
pub proof fn law_queued_audio_feeds_the_watchdog(started_ns: u64, queued_ns: u64, now_ns: u64)
    requires
        queued_ns <= now_ns,
    ensures
        starved(started_ns, Some(queued_ns), now_ns) <==> now_ns - queued_ns >= 3_000_000_000,
{
}

/// A step behind the try to tell the AirPods to stop.
#[derive(Debug)]
pub enum StopStep {
    /// The AirPods get this time, in milliseconds.
    Settle(u64),
    /// A2DP is reset for the device with this address.
    ResetA2dp { address: String },
    /// The audio engine is stopped.
    StopEngine,
}

/// The model of a `StopStep`.
pub enum StopStepView {
    Settle(u64),
    ResetA2dp { address: Seq<char> },
    StopEngine,
}

impl View for StopStep {
    type V = StopStepView;

    open spec fn view(&self) -> StopStepView {
        match self {
            StopStep::Settle(pause_ms) => StopStepView::Settle(*pause_ms),
            StopStep::ResetA2dp { address } => StopStepView::ResetA2dp { address: address@ },
            StopStep::StopEngine => StopStepView::StopEngine,
        }
    }
}

/// The steps behind the try to tell the AirPods to stop, in their order.
///
/// A2DP is reset only behind a stream that was started, and the AirPods get time
/// only for a stop packet that was sent. The audio engine is stopped last, and
/// always.
pub open spec fn steps_behind_stop(was_started: bool, stopped: bool, address: Seq<char>) -> Seq<
    StopStepView,
> {
    if was_started && stopped {
        seq![
            StopStepView::Settle(AACP_STOP_SETTLE_DELAY_MS),
            StopStepView::ResetA2dp { address },
            StopStepView::StopEngine,
        ]
    } else if was_started {
        seq![StopStepView::ResetA2dp { address }, StopStepView::StopEngine]
    } else {
        seq![StopStepView::StopEngine]
    }
}

/// The steps behind the try to tell the AirPods with the given address to stop, in
/// their order.
pub fn stopping_steps(was_started: bool, stopped: bool, address: &str) -> (steps: Vec<StopStep>)
    ensures
        steps@.len() == steps_behind_stop(was_started, stopped, address@).len(),
        forall|i: int|
            0 <= i < steps@.len() ==> (#[trigger] steps@[i])@ == steps_behind_stop(
                was_started,
                stopped,
                address@,
            )[i],
{
    if was_started && stopped {
        vec![
            StopStep::Settle(AACP_STOP_SETTLE_DELAY_MS),
            StopStep::ResetA2dp { address: address.to_owned() },
            StopStep::StopEngine,
        ]
    } else if was_started {
        vec![StopStep::ResetA2dp { address: address.to_owned() }, StopStep::StopEngine]
    } else {
        vec![StopStep::StopEngine]
    }
}

/// A step with which a stream begins.
#[derive(Debug)]
pub enum OpeningStep {
    /// The reset of A2DP for the device with this address is scheduled, after its
    /// delay.
    ScheduleReset { address: String, delay_ms: u64 },
    /// The beginning is reported.
    Report(AudioReport),
}

/// The model of an `OpeningStep`.
pub enum OpeningStepView {
    ScheduleReset { address: Seq<char>, delay_ms: u64 },
    Report(ReportView),
}

impl View for OpeningStep {
    type V = OpeningStepView;

    open spec fn view(&self) -> OpeningStepView {
        match self {
            OpeningStep::ScheduleReset { address, delay_ms } => OpeningStepView::ScheduleReset {
                address: address@,
                delay_ms: *delay_ms,
            },
            OpeningStep::Report(report) => OpeningStepView::Report(report@),
        }
    }
}

/// The steps with which a stream for a target begins, in their order.
pub fn opening_steps(target: &DesiredAudio) -> (steps: Vec<OpeningStep>)
    ensures
        steps@.len() == 2,
        steps@[0]@ == (OpeningStepView::ScheduleReset {
            address: target.address@,
            delay_ms: A2DP_RESET_DELAY_MS,
        }),
        steps@[1]@ == OpeningStepView::Report(ReportView::streaming()),
{
    vec![
        OpeningStep::ScheduleReset {
            address: target.address.clone(),
            delay_ms: A2DP_RESET_DELAY_MS,
        },
        OpeningStep::Report(
            AudioReport {
                state: AudioState::Streaming,
                mic_active: true,
                reconnect_attempt: 0,
                error: None,
            },
        ),
    ]
}

/// A step with which a stream ends.
#[derive(Debug)]
pub enum ClosingStep {
    /// The scheduled reset is given up, unless it has begun, and its end is awaited.
    FinishReset,
    /// The AirPods are told to stop.
    SendStop,
    /// The steps behind that are carried out, for the device with this address.
    FinishStop { address: String },
    /// The battery worker is told this.
    Announce(AacpBatteryEvent),
    /// The end is reported.
    Report(AudioReport),
}

/// The model of a `ClosingStep`.
pub enum ClosingStepView {
    FinishReset,
    SendStop,
    FinishStop { address: Seq<char> },
    Announce(AacpBatteryEvent),
    Report(ReportView),
}

impl View for ClosingStep {
    type V = ClosingStepView;

    open spec fn view(&self) -> ClosingStepView {
        match self {
            ClosingStep::FinishReset => ClosingStepView::FinishReset,
            ClosingStep::SendStop => ClosingStepView::SendStop,
            ClosingStep::FinishStop { address } => ClosingStepView::FinishStop {
                address: address@,
            },
            ClosingStep::Announce(event) => ClosingStepView::Announce(*event),
            ClosingStep::Report(report) => ClosingStepView::Report(report@),
        }
    }
}

/// The steps with which a stream for the device with the given address ends, however it
/// ends, in their order. The scheduled reset is over before the stream is stopped, so
/// that no two resets meet.
pub open spec fn closing(address: Seq<char>) -> Seq<ClosingStepView> {
    seq![
        ClosingStepView::FinishReset,
        ClosingStepView::SendStop,
        ClosingStepView::FinishStop { address },
        ClosingStepView::Announce(AacpBatteryEvent::SessionEnded),
        ClosingStepView::Report(ReportView::stopping()),
    ]
}

impl StreamState {
    /// The steps with which the stream ends, however it ends, in their order.
    pub fn closing_steps(&self) -> (steps: Vec<ClosingStep>)
        ensures
            steps@.len() == closing(self.target.address@).len(),
            forall|i: int|
                0 <= i < steps@.len() ==> (#[trigger] steps@[i])@ == closing(
                    self.target.address@,
                )[i],
    {
        vec![
            ClosingStep::FinishReset,
            ClosingStep::SendStop,
            ClosingStep::FinishStop { address: self.target.address.clone() },
            ClosingStep::Announce(AacpBatteryEvent::SessionEnded),
            ClosingStep::Report(
                AudioReport {
                    state: AudioState::Stopping,
                    mic_active: false,
                    reconnect_attempt: 0,
                    error: None,
                },
            ),
        ]
    }
}

/// The steps with which the stream of a startup is stopped that ends early, in their
/// order.
pub fn cleanup_steps(target: &DesiredAudio) -> (steps: Vec<ClosingStep>)
    ensures
        steps@.len() == 2,
        steps@[0]@ == ClosingStepView::SendStop,
        steps@[1]@ == (ClosingStepView::FinishStop { address: target.address@ }),
{
    vec![
        ClosingStep::SendStop,
        ClosingStep::FinishStop { address: target.address.clone() },
    ]
}

/// What is done when a stream ends: a step of the end itself, or one of those behind
/// the try to tell the AirPods to stop.
pub enum ClosingAct {
    Step(ClosingStepView),
    Behind(StopStepView),
}

/// What a row of steps amounts to, with the steps behind the stop in their place.
pub open spec fn acts(steps: Seq<ClosingStepView>, was_started: bool, stopped: bool) -> Seq<
    ClosingAct,
>
    decreases steps.len(),
{
    if steps.len() == 0 {
        Seq::empty()
    } else {
        acts(steps.drop_last(), was_started, stopped) + match steps.last() {
            ClosingStepView::FinishStop { address } => steps_behind_stop(
                was_started,
                stopped,
                address,
            ).map_values(|step: StopStepView| ClosingAct::Behind(step)),
            step => seq![ClosingAct::Step(step)],
        }
    }
}

/// However a stream ends, the AirPods are told to stop before the audio engine is
/// stopped, the end is announced after that and exactly once, and it is reported last.
pub proof fn law_stop_goes_before_the_engine(was_started: bool, stopped: bool, address: Seq<char>)
    ensures
        acts(closing(address), was_started, stopped) == seq![
            ClosingAct::Step(ClosingStepView::FinishReset),
            ClosingAct::Step(ClosingStepView::SendStop),
        ] + steps_behind_stop(was_started, stopped, address).map_values(
            |step: StopStepView| ClosingAct::Behind(step),
        ) + seq![
            ClosingAct::Step(ClosingStepView::Announce(AacpBatteryEvent::SessionEnded)),
            ClosingAct::Step(ClosingStepView::Report(ReportView::stopping())),
        ],
        steps_behind_stop(was_started, stopped, address).last() == StopStepView::StopEngine,
        forall|i: int|
            0 <= i < steps_behind_stop(was_started, stopped, address).len() - 1
                ==> #[trigger] steps_behind_stop(was_started, stopped, address)[i]
                != StopStepView::StopEngine,
{
    let four = closing(address).drop_last();
    let three = four.drop_last();
    let two = three.drop_last();
    let one = two.drop_last();
    assert(four.last() == ClosingStepView::Announce(AacpBatteryEvent::SessionEnded));
    assert(three.last() == ClosingStepView::FinishStop { address });
    assert(two.last() == ClosingStepView::SendStop);
    assert(one.last() == ClosingStepView::FinishReset);
    assert(one.drop_last().len() == 0);
    reveal_with_fuel(acts, 6);
    assert(acts(closing(address), was_started, stopped) =~= seq![
        ClosingAct::Step(ClosingStepView::FinishReset),
        ClosingAct::Step(ClosingStepView::SendStop),
    ] + steps_behind_stop(was_started, stopped, address).map_values(
        |step: StopStepView| ClosingAct::Behind(step),
    ) + seq![
        ClosingAct::Step(ClosingStepView::Announce(AacpBatteryEvent::SessionEnded)),
        ClosingAct::Step(ClosingStepView::Report(ReportView::stopping())),
    ]);
}

/// The end of a stream leaves the last error as it is.
pub proof fn law_stopping_keeps_the_last_error(status: StatusView)
    ensures
        ({
            let after = status.reported(ReportView::stopping());
            &&& after.state == "stopping"@
            &&& !after.mic_active
            &&& after.reconnect_attempt == 0
            &&& after.last_error == status.last_error
        }),
{
}

/// The stages of a mode request that is served through a session of its own.
#[derive(Clone, Copy, Debug, PartialEq, Eq, Structural)]
pub enum ModeStage {
    /// Asking whether the device is connected.
    AskConnected,
    /// Connecting an AACP session.
    Connect,
    /// Sending the handshake.
    Initialize,
    /// Sending the mode.
    SendMode,
}

/// What follows in serving a mode request.
#[derive(Debug)]
pub enum ModeStep {
    /// The given stage is carried out.
    Perform(ModeStage),
    /// The session is closed after a pause, and the request was served.
    Served { settle_ms: u64 },
    /// The request could not be served.
    Failed(String),
}

/// Reads the address of a mode request, before its first stage.
pub fn mode_address(request: &ModeRequest) -> (address: Result<[u8; 6], String>)
    ensures
        match address {
            Ok(bytes) => parsed_address(request.address@) == Some(bytes@),
            Err(message) => {
                &&& parsed_address(request.address@) is None
                &&& message@ == INVALID_SELECTED_ADDRESS@
            },
        },
{
    match parse_address(request.address.as_str()) {
        Some(bytes) => Ok(bytes),
        None => Err(INVALID_SELECTED_ADDRESS.to_owned()),
    }
}

/// Decides what follows a stage of a mode request. The result of the first stage is
/// whether the device is connected, that of the others is `true`.
pub fn send_mode_once(stage: ModeStage, result: Result<bool, String>) -> (step: ModeStep)
    ensures
        match result {
            Err(error) => step == ModeStep::Failed(error),
            Ok(answer) => match stage {
                ModeStage::AskConnected => if answer {
                    step == ModeStep::Perform(ModeStage::Connect)
                } else {
                    step matches ModeStep::Failed(message) && message@ == NOT_CONNECTED@
                },
                ModeStage::Connect => step == ModeStep::Perform(ModeStage::Initialize),
                ModeStage::Initialize => step == ModeStep::Perform(ModeStage::SendMode),
                ModeStage::SendMode => step == (ModeStep::Served {
                    settle_ms: AACP_CONTROL_SETTLE_DELAY_MS,
                }),
            },
        },
{
    match result {
        Err(error) => ModeStep::Failed(error),
        Ok(answer) => match stage {
            ModeStage::AskConnected => if answer {
                ModeStep::Perform(ModeStage::Connect)
            } else {
                ModeStep::Failed(NOT_CONNECTED.to_owned())
            },
            ModeStage::Connect => ModeStep::Perform(ModeStage::Initialize),
            ModeStage::Initialize => ModeStep::Perform(ModeStage::SendMode),
            ModeStage::SendMode => ModeStep::Served { settle_ms: AACP_CONTROL_SETTLE_DELAY_MS },
        },
    }
}

/// A startup goes on, and a stream begins, only while nobody shuts down and the latest desired
/// state has the switch, the device and, number by number, the levels of the target. With any
/// of them changed the startup is given up for another one; a shutdown goes before that.
pub proof fn law_a_changed_target_is_given_up(
    stage: StartupStage,
    shutdown: bool,
    latest: &DesiredAudio,
    target: &DesiredAudio,
    step: StartupStep,
)
    requires
        call_ensures(after_check, (stage, shutdown, latest, target), step),
    ensures
        step !is Exit ==> !shutdown && latest.enabled == target.enabled && latest.address@
            == target.address@ && latest.gain_db.equal_to(target.gain_db)
            && latest.limiter_db.equal_to(target.limiter_db),
        step !is Exit && latest.gain_db.finite() && target.gain_db.finite()
            ==> latest.gain_db.scaled() == target.gain_db.scaled(),
        step !is Exit && latest.limiter_db.finite() && target.limiter_db.finite()
            ==> latest.limiter_db.scaled() == target.limiter_db.scaled(),
        shutdown ==> step is Exit && step->exit is Shutdown,
        !shutdown && (latest.enabled != target.enabled || latest.address@ != target.address@
            || !latest.gain_db.equal_to(target.gain_db) || !latest.limiter_db.equal_to(
            target.limiter_db,
        )) ==> step is Exit && step->exit is Reconfigure,
        !shutdown && latest.enabled == target.enabled && latest.address@ == target.address@
            && latest.gain_db.equal_to(target.gain_db) && latest.limiter_db.equal_to(
            target.limiter_db,
        ) ==> step !is Exit,
{
    assert(step@ == step_behind(stage, shutdown, latest@, target@));
    if latest.gain_db.finite() && target.gain_db.finite() {
        crate::decibel::law_equality_is_numeric(latest.gain_db, target.gain_db);
    }
    if latest.limiter_db.finite() && target.limiter_db.finite() {
        crate::decibel::law_equality_is_numeric(latest.limiter_db, target.limiter_db);
    }
}

/// The stages come one after the other: connect, send the handshake, create the engine with the
/// levels of the target, start it, tell the AirPods to send, stream. Where a startup is given
/// up behind a stage, exactly what has been started is stopped.
pub proof fn law_stages_come_in_order(
    stage: StartupStage,
    shutdown: bool,
    latest: &DesiredAudio,
    target: &DesiredAudio,
    step: StartupStep,
)
    requires
        call_ensures(after_check, (stage, shutdown, latest, target), step),
    ensures
        step !is Exit ==> match stage {
            StartupStage::WaitConnected => step == StartupStep::Perform(StartupStage::ConnectAacp),
            StartupStage::ConnectAacp => step == StartupStep::Perform(StartupStage::Initialize),
            StartupStage::Initialize => step == (StartupStep::CreateEngine {
                gain_db: target.gain_db,
                limiter_db: target.limiter_db,
            }),
            StartupStage::CreateEngine => step == StartupStep::Perform(StartupStage::StartEngine),
            StartupStage::StartEngine => step == StartupStep::Perform(StartupStage::StartAudio),
            StartupStage::StartAudio => step is Stream,
        },
        step is Exit ==> (step->cleanup == Cleanup::StopEngine <==> stage
            == StartupStage::StartEngine),
        step is Exit ==> (step->cleanup == Cleanup::StopStream <==> stage
            == StartupStage::StartAudio),
{
    assert(step@ == step_behind(stage, shutdown, latest@, target@));
}

/// Behind a stage that succeeded, the startup looks at its target, but for the handshake, which
/// follows the connection at once. A stage that did not succeed ends the startup: with its own
/// error, for another attempt where the user asked for something, and for good where nobody
/// asks any more. From the moment at which the AirPods are told to send, they are stopped.
pub proof fn law_stages_end_a_startup_where_they_fail(
    stage: StartupStage,
    outcome: StageOutcome,
    step: StartupStep,
)
    requires
        call_ensures(after_stage, (stage, outcome), step),
    ensures
        outcome is Succeeded && stage == StartupStage::ConnectAacp ==> step == StartupStep::Perform(
            StartupStage::Initialize,
        ),
        outcome is Succeeded && stage != StartupStage::ConnectAacp ==> step is CheckStale,
        outcome !is Succeeded ==> step is Exit && (step->cleanup == Cleanup::StopStream <==> stage
            == StartupStage::StartAudio) && step->cleanup != Cleanup::StopEngine,
        outcome matches StageOutcome::Failed(error) ==> step->exit is Failed
            && step->exit->Failed_0@
            == error@,
        outcome is DesiredChanged || outcome is ModeServed ==> step->exit is Reconfigure,
        outcome is DesiredClosed || outcome is ShutdownSignalled ==> step->exit is Shutdown,
{
    assert(step@ == step_after(stage, outcome));
}

/// Nothing interrupts the audio engine while it is created and started, and mode requests are
/// served until it is created.
pub proof fn law_the_engine_is_not_interrupted(
    stage: StartupStage,
    interruptible: bool,
    serves: bool,
)
    requires
        call_ensures(StartupStage::is_interruptible, (stage,), interruptible),
        call_ensures(StartupStage::serves_mode_requests, (stage,), serves),
    ensures
        !interruptible <==> stage == StartupStage::CreateEngine || stage
            == StartupStage::StartEngine,
        serves <==> stage == StartupStage::WaitConnected || stage == StartupStage::ConnectAacp
            || stage == StartupStage::Initialize,
{
}

/// An attempt begins with the bytes of its address, and fails at once where there are none.
pub proof fn law_attempts_begin_with_an_address(
    target: &DesiredAudio,
    address: Result<[u8; 6], AttemptExit>,
    text: &str,
    bytes: Option<[u8; 6]>,
    request: &ModeRequest,
    mode_bytes: Result<[u8; 6], String>,
)
    requires
        call_ensures(begin, (target,), address),
        text@ == target.address@,
        call_ensures(parse_address, (text,), bytes),
        request.address@ == target.address@,
        call_ensures(mode_address, (request,), mode_bytes),
    ensures
        bytes is None ==> address is Err && address->Err_0 is Failed && mode_bytes is Err,
        bytes is Some ==> address is Ok && address->Ok_0@ == bytes->0@ && mode_bytes is Ok
            && mode_bytes->Ok_0@ == bytes->0@,
{
}

/// A stream ends for good where nobody states a desired state any more, and for another attempt
/// where the microphone is to stop or another device is selected. Other levels go to the running
/// engine as they are asked for, and without any change it goes on.
pub proof fn law_streams_follow_the_desired_state(
    stream: &StreamState,
    next: Option<&DesiredAudio>,
    step: DesiredStep,
)
    requires
        call_ensures(StreamState::desired_changed, (stream, next), step),
    ensures
        next is None ==> step is Exit && step->Exit_0 is Shutdown,
        next matches Some(next) ==> {
            let same_device = next.enabled && same_ignoring_case(
                next.address@,
                stream.target.address@,
            );
            let same_levels = next.gain_db.equal_to(stream.target.gain_db)
                && next.limiter_db.equal_to(stream.target.limiter_db);
            &&& !same_device <==> step is Exit
            &&& !same_device ==> step->Exit_0 is Reconfigure
            &&& step is Keep <==> same_device && same_levels
            &&& same_device && !same_levels ==> step == (DesiredStep::SetProcessing {
                gain_db: next.gain_db,
                limiter_db: next.limiter_db,
            })
        },
{
}

/// New levels become the target of a stream once the engine took them; where it did not, the
/// stream fails with the engine's own message and keeps its target.
pub proof fn law_levels_count_once_the_engine_took_them(
    stream: &mut StreamState,
    next: DesiredAudio,
    result: Result<(), EngineError>,
    exit: Option<AttemptExit>,
)
    requires
        call_ensures(StreamState::processing_set, (stream, next, result), exit),
    ensures
        result is Ok ==> exit is None && final(stream).target == next,
        result matches Err(error) ==> exit is Some && exit->0 is Failed && exit->0->Failed_0@
            == error.text() && final(stream).target == old(stream).target,
        final(stream).decode_errors == old(stream).decode_errors,
        final(stream).queue_full == old(stream).queue_full,
        final(stream).last_queued_ns == old(stream).last_queued_ns,
        final(stream).started_ns == old(stream).started_ns,
        final(stream).retry_pending == old(stream).retry_pending,
{
}

/// A mode request is sent over the stream exactly where it is for the streaming device, and it
/// then carries the mode that was asked for.
pub proof fn law_modes_go_to_the_streaming_device(
    stream: &StreamState,
    request: &ModeRequest,
    packet: Result<Vec<u8>, String>,
    session: &AacpSession,
    command: Vec<u8>,
)
    requires
        call_ensures(StreamState::mode_requested, (stream, request), packet),
        call_ensures(AacpSession::set_listening_mode, (session, request.mode), command),
    ensures
        packet is Ok <==> same_ignoring_case(request.address@, stream.target.address@),
        packet matches Ok(bytes) ==> bytes@ == command@,
{
}

/// A stream is given three seconds: from its beginning until something is queued, and then from
/// the last access unit that was queued.
pub proof fn law_silence_ends_a_stream_after_three_seconds(
    stream: &StreamState,
    now_ns: u64,
    exit: Option<AttemptExit>,
)
    requires
        call_ensures(StreamState::watchdog, (stream, now_ns), exit),
    ensures
        stream.last_queued_ns is None ==> (exit is Some <==> now_ns - stream.started_ns
            >= 3_000_000_000),
        stream.last_queued_ns matches Some(last) ==> (exit is Some <==> now_ns - last
            >= 3_000_000_000),
        exit matches Some(exit) ==> exit is Failed,
{
}

/// What became of an access unit is counted in runs: one that is queued ends every run and
/// feeds the watchdog, a decode error counts 64 times and a full queue 256 times before the
/// stream fails, and each of them ends the run of the other.
pub proof fn law_runs_of_failures_end_a_stream(
    stream: &mut StreamState,
    result: Result<PushOutcome, EngineError>,
    now_ns: u64,
    exit: Option<AttemptExit>,
)
    requires
        call_ensures(StreamState::pushed, (stream, result, now_ns), exit),
    ensures
        result matches Err(error) ==> exit is Some && exit->0 is Failed && exit->0->Failed_0@
            == error.text() && *final(stream) == *old(stream),
        result == Ok::<PushOutcome, EngineError>(PushOutcome::Queued) ==> exit is None
            && final(stream).decode_errors == 0 && final(stream).queue_full == 0
                && final(stream).last_queued_ns
            == Some(now_ns),
        result == Ok::<PushOutcome, EngineError>(PushOutcome::DecodeError)
            && old(stream).decode_errors < u32::MAX ==> {
            &&& final(stream).decode_errors == old(stream).decode_errors + 1
            &&& final(stream).queue_full == 0
            &&& final(stream).last_queued_ns == old(stream).last_queued_ns
            &&& exit is Some <==> old(stream).decode_errors + 1 >= 64
        },
        result == Ok::<PushOutcome, EngineError>(PushOutcome::QueueFull)
            && old(stream).queue_full < u32::MAX ==> {
            &&& final(stream).queue_full == old(stream).queue_full + 1
            &&& final(stream).decode_errors == 0
            &&& final(stream).last_queued_ns == old(stream).last_queued_ns
            &&& exit is Some <==> old(stream).queue_full + 1 >= 256
        },
        result is Ok ==> final(stream).target == old(stream).target && final(stream).started_ns
            == old(stream).started_ns && final(stream).retry_pending == old(stream).retry_pending
            && final(stream).retries == old(stream).retries,
{
}

/// Notifications are requested again only while that is pending, and after the second time it
/// is not pending any more.
pub proof fn law_notifications_are_requested_again_twice(
    stream: &mut StreamState,
    packet: Option<Vec<u8>>,
    session: &AacpSession,
    request: Vec<u8>,
)
    requires
        call_ensures(StreamState::retry_due, (stream,), packet),
        call_ensures(AacpSession::request_notifications, (session,), request),
    ensures
        packet is Some <==> old(stream).retry_pending,
        packet matches Some(bytes) ==> bytes@ == request@,
        old(stream).retry_pending
            && old(stream).retries < u8::MAX
                ==> final(stream).retries == old(stream).retries + 1
                    && (final(stream).retry_pending <==> old(stream).retries + 1 < 2),
        !old(stream).retry_pending ==> *final(stream) == *old(stream),
        final(stream).target == old(stream).target
            && final(stream).last_queued_ns == old(stream).last_queued_ns,
{
}

/// A received packet is answered for what it is: the acknowledgement of the handshake with the
/// feature setup, that of the features with the request for notifications, which is then
/// repeated; a battery notification is handed on and ends the repetition; audio gives its access
/// units, or an error where it cannot be read; an empty packet or a failed receive ends the
/// stream; and nothing else is of interest.
pub proof fn law_packets_are_answered_for_what_they_are<'a>(
    stream: &mut StreamState,
    sdu: &'a [u8],
    step: ReceivedStep<'a>,
    session: &AacpSession,
    features: Vec<u8>,
    notifications: Vec<u8>,
    handshake_ack: bool,
    features_ack: bool,
    update: Option<AacpBatteryUpdate>,
    audio: bool,
    units: Result<Vec<&'a [u8]>, crate::framing::FramingError>,
)
    requires
        call_ensures(StreamState::received, (stream, Ok::<&'a [u8], String>(sdu)), step),
        call_ensures(AacpSession::set_specific_features, (session,), features),
        call_ensures(AacpSession::request_notifications, (session,), notifications),
        call_ensures(AacpSession::is_handshake_ack, (sdu,), handshake_ack),
        call_ensures(AacpSession::is_features_ack, (sdu,), features_ack),
        call_ensures(parse_aacp_battery, (sdu,), update),
        call_ensures(is_audio_sdu, (sdu,), audio),
        call_ensures(demux_audio_sdu, (sdu,), units),
    ensures
        sdu@.len() == 0 ==> step is Exit && step->Exit_0 is Failed,
        handshake_ack ==> step is Send && step->packet@ == features@ && !step->arm_retry,
        features_ack ==> step is Send && step->packet@ == notifications@ && step->arm_retry
            && final(stream).retry_pending && final(stream).retries == 0,
        update is Some ==> step is Battery && update == Some(step->Battery_0)
            && !final(stream).retry_pending,
        audio && units is Ok ==> step is Audio && step->Audio_0@.len() == units->Ok_0@.len()
            && forall|i: int|
            0 <= i < units->Ok_0@.len() ==> (#[trigger] step->Audio_0@[i])@ == units->Ok_0@[i]@,
        audio && units is Err ==> step is Exit && step->Exit_0 is Failed && step->Exit_0->Failed_0@
            == units->Err_0.text(),
        sdu@.len() > 0 && !handshake_ack && !features_ack && update is None && !audio ==> step
            is Ignore,
        !features_ack && update is None ==> *final(stream) == *old(stream),
        final(stream).target == old(stream).target
            && final(stream).last_queued_ns == old(stream).last_queued_ns
                && final(stream).decode_errors == old(stream).decode_errors
                    && final(stream).queue_full == old(stream).queue_full,
{
    crate::aacp::law_packet_kinds_are_disjoint(sdu@);
    if update is Some {
        crate::battery::law_notifications_are_a_kind_of_their_own(sdu@);
    }
    if sdu@.len() == 0 {
        assert(!begins_with(sdu@, handshake_ack_prefix()));
        assert(!begins_with(sdu@, features_ack_prefix()));
    }
    assert(received_step(*old(stream), sdu@, step, *final(stream)));
    if audio && units is Ok {
        assert(contents(step->Audio_0@) == contents(units->Ok_0@));
        assert(contents(step->Audio_0@).len() == step->Audio_0@.len());
        assert(contents(units->Ok_0@).len() == units->Ok_0@.len());
        assert forall|i: int| 0 <= i < units->Ok_0@.len() implies (#[trigger] step->Audio_0@[i])@
            == units->Ok_0@[i]@ by {
            assert(contents(step->Audio_0@)[i] == contents(units->Ok_0@)[i]);
        }
    }
}

/// A receive that failed ends the stream with its error.
pub proof fn law_failed_receives_end_a_stream<'a>(
    stream: &mut StreamState,
    error: String,
    step: ReceivedStep<'a>,
)
    requires
        call_ensures(StreamState::received, (stream, Err::<&'a [u8], String>(error)), step),
    ensures
        step is Exit && step->Exit_0 is Failed && step->Exit_0->Failed_0@ == error@,
        *final(stream) == *old(stream),
{
}

/// A stream that has just begun has counted nothing, queued nothing and asked for nothing.
pub proof fn law_streams_begin_afresh(target: DesiredAudio, now_ns: u64, stream: StreamState)
    requires
        call_ensures(StreamState::new, (target, now_ns), stream),
    ensures
        stream.target == target && stream.started_ns == now_ns && stream.last_queued_ns is None,
        stream.decode_errors == 0 && stream.queue_full == 0 && stream.retries == 0
            && !stream.retry_pending,
{
}

/// A shutdown is one that was signalled, or one that nobody can signal any more.
pub proof fn law_a_lost_signal_is_a_shutdown(
    closed: bool,
    shutdown: bool,
    exit: Option<AttemptExit>,
)
    requires
        call_ensures(shutdown_changed, (closed, shutdown), exit),
    ensures
        exit is Some <==> closed || shutdown,
        exit matches Some(exit) ==> exit is Shutdown,
{
}

/// Behind the try to stop the AirPods the audio engine is stopped last and always. A2DP is reset
/// before that, for the device of the stream, exactly where the stream was started, and the
/// AirPods get 200 ms before the reset exactly where they were told to stop.
pub proof fn law_the_engine_stops_last(
    was_started: bool,
    stopped: bool,
    address: &str,
    steps: Vec<StopStep>,
)
    requires
        call_ensures(stopping_steps, (was_started, stopped, address), steps),
    ensures
        steps@.len() > 0 && steps@.last() is StopEngine,
        !was_started ==> steps@.len() == 1,
        was_started && !stopped ==> steps@.len() == 2,
        was_started && stopped ==> steps@.len() == 3 && steps@[0] == StopStep::Settle(200),
        was_started ==> steps@[steps@.len() - 2] is ResetA2dp && steps@[steps@.len()
            - 2]->address@ == address@,
{
    let views = steps_behind_stop(was_started, stopped, address@);
    assert(steps@[steps@.len() - 1]@ == views[views.len() - 1]);
    if was_started {
        assert(steps@[steps@.len() - 2]@ == views[views.len() - 2]);
        assert(steps@[0]@ == views[0]);
    }
}

/// A stream that begins has A2DP reset 800 ms later for its own device, and reports a running
/// microphone without an error.
pub proof fn law_streams_begin_with_a_reset_and_a_report(
    target: &DesiredAudio,
    steps: Vec<OpeningStep>,
)
    requires
        call_ensures(opening_steps, (target,), steps),
    ensures
        steps@.len() == 2,
        steps@[0] is ScheduleReset && steps@[0]->address@ == target.address@ && steps@[0]->delay_ms
            == 800,
        steps@[1] is Report && steps@[1]->Report_0.state == AudioState::Streaming
            && steps@[1]->Report_0.mic_active && steps@[1]->Report_0.reconnect_attempt == 0
            && steps@[1]->Report_0.error is None,
{
    assert(steps@[0]@ is ScheduleReset);
    assert(steps@[1]@ == OpeningStepView::Report(ReportView::streaming()));
    assert(steps@[1]->Report_0@.error is None);
}

/// A stream that ends finishes its scheduled reset, has the AirPods told to stop, finishes that
/// for its own device, tells the battery worker that the session has ended, and reports a
/// microphone that does not run. A startup that ends early does the second and the third of
/// these.
pub proof fn law_streams_end_in_order(
    stream: &StreamState,
    steps: Vec<ClosingStep>,
    target: &DesiredAudio,
    cleanup: Vec<ClosingStep>,
)
    requires
        call_ensures(StreamState::closing_steps, (stream,), steps),
        call_ensures(cleanup_steps, (target,), cleanup),
    ensures
        steps@.len() == 5,
        steps@[0] is FinishReset && steps@[1] is SendStop,
        steps@[2] is FinishStop && steps@[2]->address@ == stream.target.address@,
        steps@[3] == ClosingStep::Announce(AacpBatteryEvent::SessionEnded),
        steps@[4] is Report && steps@[4]->Report_0.state == AudioState::Stopping
            && !steps@[4]->Report_0.mic_active && steps@[4]->Report_0.reconnect_attempt == 0
            && steps@[4]->Report_0.error is None,
        cleanup@.len() == 2 && cleanup@[0] is SendStop && cleanup@[1] is FinishStop
            && cleanup@[1]->address@ == target.address@,
{
    let views = closing(stream.target.address@);
    assert(steps@[0]@ == views[0] && steps@[1]@ == views[1] && steps@[2]@ == views[2]);
    assert(steps@[3]@ == views[3] && steps@[4]@ == views[4]);
    assert(steps@[4]->Report_0@.error is None);
    assert(cleanup@[0]@ is SendStop && cleanup@[1]@ is FinishStop);
}

/// A mode request without a stream is served in order: ask whether the device is connected,
/// connect, send the handshake, send the mode. A device that is not connected, or any error, ends
/// it, and it was served only behind the last stage.
pub proof fn law_mode_requests_are_served_in_order(
    stage: ModeStage,
    result: Result<bool, String>,
    step: ModeStep,
)
    requires
        call_ensures(send_mode_once, (stage, result), step),
    ensures
        result matches Err(error) ==> step is Failed && step->Failed_0@ == error@,
        stage == ModeStage::AskConnected && result == Ok::<bool, String>(false) ==> step is Failed,
        stage == ModeStage::AskConnected && result == Ok::<bool, String>(true) ==> step
            == ModeStep::Perform(ModeStage::Connect),
        stage == ModeStage::Connect && result is Ok ==> step == ModeStep::Perform(
            ModeStage::Initialize,
        ),
        stage == ModeStage::Initialize && result is Ok ==> step == ModeStep::Perform(
            ModeStage::SendMode,
        ),
        step is Served <==> stage == ModeStage::SendMode && result is Ok,
        step is Served ==> step->settle_ms == 100,
{
}

/// The target of a startup stands exactly while nobody shuts down and the latest desired state
/// agrees with it in every field.
pub proof fn law_targets_stand_while_nothing_changes(
    shutdown: bool,
    latest: &DesiredAudio,
    target: &DesiredAudio,
    exit: Option<AttemptExit>,
)
    requires
        call_ensures(stale_startup, (shutdown, latest, target), exit),
    ensures
        exit is None <==> !shutdown && latest.enabled == target.enabled && latest.address@
            == target.address@ && latest.gain_db.equal_to(target.gain_db)
            && latest.limiter_db.equal_to(target.limiter_db),
        exit matches Some(exit) ==> (exit is Shutdown <==> shutdown) && (exit is Reconfigure
            <==> !shutdown),
{
}

} // verus!

use airpods::aacp::ListeningMode;
use airpods::battery::AacpBatteryUpdate;
use airpods::config::Config;
use airpods::decibel::Decibels;
use airpods::domain::BatteryLevel;
use airpods::engine::{EngineError, PushOutcome};
use airpods::service::{AudioState, DesiredAudio, ModeRequest, RuntimeState};
use airpods::stream::{
    after_check, after_stage, begin, cleanup_steps, mode_address, opening_steps, send_mode_once,
    shutdown_changed, stale_startup, stopping_steps, AttemptExit, Cleanup, ClosingStep,
    DesiredStep, ModeStage, ModeStep, OpeningStep, ReceivedStep, StageOutcome, StartupStage,
    StartupStep, StopStep, StreamState,
};
use airpods::workers::AacpBatteryEvent;

const SECOND: u64 = 1_000_000_000;
const STAGES: [StartupStage; 6] = [
    StartupStage::WaitConnected,
    StartupStage::ConnectAacp,
    StartupStage::Initialize,
    StartupStage::CreateEngine,
    StartupStage::StartEngine,
    StartupStage::StartAudio,
];

fn db(value: f64) -> Decibels {
    Decibels::from_bits(value.to_bits())
}

fn target() -> DesiredAudio {
    DesiredAudio {
        enabled: true,
        address: "AA:BB:CC:DD:EE:FF".to_string(),
        gain_db: db(18.0),
        limiter_db: db(-3.0),
    }
}

fn failure(exit: Option<AttemptExit>) -> String {
    match exit {
        Some(AttemptExit::Failed(message)) => message,
        other => panic!("no failure: {other:?}"),
    }
}

#[test]
fn an_attempt_begins_with_a_readable_address() {
    assert_eq!(begin(&target()).unwrap(), [0xaa, 0xbb, 0xcc, 0xdd, 0xee, 0xff]);
    let mut bad = target();
    bad.address = "nowhere".to_string();
    assert_eq!(failure(begin(&bad).err()), "invalid Bluetooth address");
}

#[test]
fn a_smooth_startup_passes_every_stage() {
    let mut stage = StartupStage::WaitConnected;
    let mut passed = vec![stage];
    loop {
        let step = match after_stage(stage, StageOutcome::Succeeded) {
            StartupStep::CheckStale => after_check(stage, false, &target(), &target()),
            step => step,
        };
        match step {
            StartupStep::Perform(next) => {
                stage = next;
                passed.push(stage);
            }
            StartupStep::CreateEngine { gain_db, limiter_db } => {
                assert_eq!(stage, StartupStage::Initialize);
                assert_eq!(f64::from_bits(gain_db.bits), 18.0);
                assert_eq!(f64::from_bits(limiter_db.bits), -3.0);
                stage = StartupStage::CreateEngine;
                passed.push(stage);
            }
            StartupStep::Stream => break,
            step => panic!("{step:?}"),
        }
    }
    assert_eq!(passed, STAGES);
}

#[test]
fn the_handshake_follows_the_connection_at_once() {
    let step = after_stage(StartupStage::ConnectAacp, StageOutcome::Succeeded);
    assert!(matches!(step, StartupStep::Perform(StartupStage::Initialize)));
}

#[test]
fn interrupted_stages_clean_up_after_themselves() {
    for stage in STAGES {
        let expected = if stage == StartupStage::StartAudio {
            Cleanup::StopStream
        } else {
            Cleanup::Nothing
        };
        match after_stage(stage, StageOutcome::Failed("broken".to_string())) {
            StartupStep::Exit { cleanup, exit } => {
                assert_eq!(cleanup, expected);
                assert_eq!(failure(Some(exit)), "broken");
            }
            step => panic!("{step:?}"),
        }
        for (outcome, reconfigure) in [
            (StageOutcome::DesiredChanged, true),
            (StageOutcome::ModeServed, true),
            (StageOutcome::DesiredClosed, false),
            (StageOutcome::ShutdownSignalled, false),
        ] {
            match after_stage(stage, outcome) {
                StartupStep::Exit { cleanup, exit } => {
                    assert_eq!(cleanup, expected);
                    assert_eq!(matches!(exit, AttemptExit::Reconfigure), reconfigure);
                    assert_eq!(matches!(exit, AttemptExit::Shutdown), !reconfigure);
                }
                step => panic!("{step:?}"),
            }
        }
    }
}

#[test]
fn stale_targets_end_a_startup() {
    let mut other = target();
    other.gain_db = db(1.0);
    assert!(stale_startup(false, &target(), &target()).is_none());
    assert!(matches!(stale_startup(false, &other, &target()), Some(AttemptExit::Reconfigure)));
    assert!(matches!(stale_startup(true, &other, &target()), Some(AttemptExit::Shutdown)));
    let cleanups: Vec<_> = STAGES
        .iter()
        .map(|stage| match after_check(*stage, true, &target(), &target()) {
            StartupStep::Exit { cleanup, exit: AttemptExit::Shutdown } => cleanup,
            step => panic!("{step:?}"),
        })
        .collect();
    assert_eq!(
        cleanups,
        [
            Cleanup::Nothing,
            Cleanup::Nothing,
            Cleanup::Nothing,
            Cleanup::Nothing,
            Cleanup::StopEngine,
            Cleanup::StopStream
        ]
    );
}

#[test]
fn stages_say_what_interrupts_them() {
    let serving: Vec<_> = STAGES.iter().map(|stage| stage.serves_mode_requests()).collect();
    assert_eq!(serving, [true, true, true, false, false, false]);
    let open: Vec<_> = STAGES.iter().map(|stage| stage.is_interruptible()).collect();
    assert_eq!(open, [true, true, true, false, false, true]);
}

#[test]
fn changes_of_the_desired_state_are_told_apart() {
    let stream = StreamState::new(target(), 0);
    assert!(matches!(stream.desired_changed(None), DesiredStep::Exit(AttemptExit::Shutdown)));
    assert!(matches!(stream.desired_changed(Some(&target())), DesiredStep::Keep));
    let mut lower = target();
    lower.address = lower.address.to_ascii_lowercase();
    assert!(matches!(stream.desired_changed(Some(&lower)), DesiredStep::Keep));
    let mut other = target();
    other.address = "11:22:33:44:55:66".to_string();
    assert!(matches!(
        stream.desired_changed(Some(&other)),
        DesiredStep::Exit(AttemptExit::Reconfigure)
    ));
    let mut off = target();
    off.enabled = false;
    assert!(matches!(
        stream.desired_changed(Some(&off)),
        DesiredStep::Exit(AttemptExit::Reconfigure)
    ));
    let mut louder = target();
    louder.gain_db = db(20.0);
    louder.limiter_db = db(-6.0);
    match stream.desired_changed(Some(&louder)) {
        DesiredStep::SetProcessing { gain_db, limiter_db } => {
            assert_eq!(f64::from_bits(gain_db.bits), 20.0);
            assert_eq!(f64::from_bits(limiter_db.bits), -6.0);
        }
        step => panic!("{step:?}"),
    }
}

#[test]
fn levels_become_the_target_once_the_engine_took_them() {
    let mut stream = StreamState::new(target(), 0);
    let mut louder = target();
    louder.gain_db = db(20.0);
    let exit = stream.processing_set(louder.clone(), Err(EngineError::Gain));
    assert_eq!(failure(exit), "microphone gain must be between 0 and 30 dB");
    assert_eq!(f64::from_bits(stream.target.gain_db.bits), 18.0);
    assert!(stream.processing_set(louder, Ok(())).is_none());
    assert_eq!(f64::from_bits(stream.target.gain_db.bits), 20.0);
}

#[test]
fn shutdown_ends_a_stream() {
    assert!(shutdown_changed(false, false).is_none());
    assert!(matches!(shutdown_changed(true, false), Some(AttemptExit::Shutdown)));
    assert!(matches!(shutdown_changed(false, true), Some(AttemptExit::Shutdown)));
}

#[test]
fn mode_requests_are_for_the_streaming_device() {
    let stream = StreamState::new(target(), 0);
    let request =
        ModeRequest::new("aa:bb:cc:dd:ee:ff".to_string(), ListeningMode::Transparency);
    assert_eq!(stream.mode_requested(&request).unwrap()[7], 3);
    let request = ModeRequest::new("11:22:33:44:55:66".to_string(), ListeningMode::Off);
    assert_eq!(
        stream.mode_requested(&request).unwrap_err(),
        "selected AirPods changed before the mode command was sent"
    );
}

#[test]
fn the_watchdog_waits_three_seconds() {
    let mut stream = StreamState::new(target(), 10 * SECOND);
    assert!(stream.watchdog(13 * SECOND - 1).is_none());
    assert_eq!(
        failure(stream.watchdog(13 * SECOND)),
        "AirPods microphone stream produced no usable audio for 3 seconds"
    );
    assert!(stream.pushed(Ok(PushOutcome::Queued), 12 * SECOND).is_none());
    assert!(stream.watchdog(15 * SECOND - 1).is_none());
    assert!(stream.watchdog(15 * SECOND).is_some());
    assert!(stream.watchdog(0).is_none());
}

#[test]
fn notifications_are_requested_again_twice() {
    let mut stream = StreamState::new(target(), 0);
    assert_eq!(stream.retry_due(), None);
    match stream.received(Ok(&[0x04, 0x00, 0x04, 0x00, 0x2b, 0x00])) {
        ReceivedStep::Send { packet, arm_retry } => {
            assert_eq!(packet[4], 0x0f);
            assert!(arm_retry);
        }
        step => panic!("{step:?}"),
    }
    assert!(stream.retry_pending);
    assert_eq!(stream.retry_due().unwrap()[4], 0x0f);
    assert!(stream.retry_pending);
    assert!(stream.retry_due().is_some());
    assert!(!stream.retry_pending);
    assert_eq!(stream.retry_due(), None);
    assert_eq!(stream.retries, 2);
}

#[test]
fn received_packets_are_told_apart() {
    let mut stream = StreamState::new(target(), 0);
    match stream.received(Ok(&[])) {
        ReceivedStep::Exit(exit) => assert_eq!(failure(Some(exit)), "AirPods disconnected"),
        step => panic!("{step:?}"),
    }
    match stream.received(Err("Bluetooth receive failed".to_string())) {
        ReceivedStep::Exit(exit) => assert_eq!(failure(Some(exit)), "Bluetooth receive failed"),
        step => panic!("{step:?}"),
    }
    match stream.received(Ok(&[0x01, 0x00, 0x04, 0x00])) {
        ReceivedStep::Send { packet, arm_retry } => {
            assert_eq!(packet[4], 0x4d);
            assert!(!arm_retry);
        }
        step => panic!("{step:?}"),
    }
    stream.retry_pending = true;
    match stream.received(Ok(&[0x04, 0, 0x04, 0, 0x04, 0, 1, 4, 1, 70, 2, 1])) {
        ReceivedStep::Battery(update) => assert_eq!(
            update,
            AacpBatteryUpdate {
                left: Some(BatteryLevel { percent: Some(70), charging: false }),
                right: None,
                case: None
            }
        ),
        step => panic!("{step:?}"),
    }
    assert!(!stream.retry_pending);
    assert!(matches!(stream.received(Ok(&[0x42; 30])), ReceivedStep::Ignore));

    let mut audio = vec![0u8; 22];
    audio[0] = 0x04;
    audio[2] = 0x04;
    audio[4] = 0x58;
    audio[6] = 0x01;
    match stream.received(Ok(&audio[..10])) {
        ReceivedStep::Exit(exit) => assert_eq!(failure(Some(exit)), "truncated AACP 0x58 header"),
        step => panic!("{step:?}"),
    }
    audio.extend([0, 0, 0, 0, 2, 7, 8]);
    match stream.received(Ok(&audio)) {
        ReceivedStep::Audio(units) => assert_eq!(units, vec![&[7u8, 8][..]]),
        step => panic!("{step:?}"),
    }
}

#[test]
fn sixty_four_decode_errors_end_a_stream() {
    let mut stream = StreamState::new(target(), 0);
    for _ in 0..63 {
        assert!(stream.pushed(Ok(PushOutcome::DecodeError), 0).is_none());
    }
    assert!(stream.pushed(Ok(PushOutcome::QueueFull), 0).is_none());
    assert_eq!(stream.decode_errors, 0);
    for _ in 0..63 {
        assert!(stream.pushed(Ok(PushOutcome::DecodeError), 0).is_none());
    }
    assert_eq!(stream.queue_full, 0);
    assert_eq!(
        failure(stream.pushed(Ok(PushOutcome::DecodeError), 0)),
        "AAC-ELD decoder rejected 64 consecutive access units"
    );
}

#[test]
fn a_queue_that_stays_full_ends_a_stream() {
    let mut stream = StreamState::new(target(), 0);
    for _ in 0..255 {
        assert!(stream.pushed(Ok(PushOutcome::QueueFull), 0).is_none());
    }
    assert_eq!(
        failure(stream.pushed(Ok(PushOutcome::QueueFull), 0)),
        "PipeWire audio queue remained full for 256 access units"
    );
    assert!(stream.pushed(Ok(PushOutcome::Queued), 5).is_none());
    assert_eq!((stream.decode_errors, stream.queue_full), (0, 0));
    assert_eq!(stream.last_queued_ns, Some(5));
    assert_eq!(
        failure(stream.pushed(Err(EngineError::EmptyAccessUnit), 0)),
        "cannot process an empty AAC-ELD access unit"
    );
}

fn stop_texts(steps: Vec<StopStep>) -> Vec<String> {
    steps
        .into_iter()
        .map(|step| match step {
            StopStep::Settle(pause_ms) => format!("settle {pause_ms}"),
            StopStep::ResetA2dp { address } => format!("reset {address}"),
            StopStep::StopEngine => "stop".to_string(),
        })
        .collect()
}

#[test]
fn stopping_resets_only_what_was_started() {
    assert_eq!(stop_texts(stopping_steps(true, true, "AA")), ["settle 200", "reset AA", "stop"]);
    assert_eq!(stop_texts(stopping_steps(true, false, "AA")), ["reset AA", "stop"]);
    assert_eq!(stop_texts(stopping_steps(false, true, "AA")), ["stop"]);
    assert_eq!(stop_texts(stopping_steps(false, false, "AA")), ["stop"]);
    let cleanup = cleanup_steps(&target());
    assert_eq!(cleanup.len(), 2);
    assert!(matches!(&cleanup[0], ClosingStep::SendStop));
    match &cleanup[1] {
        ClosingStep::FinishStop { address } => assert_eq!(address, "AA:BB:CC:DD:EE:FF"),
        step => panic!("{step:?}"),
    }
}

#[test]
fn streams_report_their_beginning_and_end() {
    let opening = opening_steps(&target());
    assert_eq!(opening.len(), 2);
    match &opening[0] {
        OpeningStep::ScheduleReset { address, delay_ms } => {
            assert_eq!(address, "AA:BB:CC:DD:EE:FF");
            assert_eq!(*delay_ms, 800);
        }
        step => panic!("{step:?}"),
    }
    match &opening[1] {
        OpeningStep::Report(report) => {
            assert_eq!(report.state, AudioState::Streaming);
            assert!(report.mic_active);
        }
        step => panic!("{step:?}"),
    }

    let mut closing = StreamState::new(target(), 0).closing_steps();
    assert_eq!(closing.len(), 5);
    assert!(matches!(&closing[0], ClosingStep::FinishReset));
    assert!(matches!(&closing[1], ClosingStep::SendStop));
    match &closing[2] {
        ClosingStep::FinishStop { address } => assert_eq!(address, "AA:BB:CC:DD:EE:FF"),
        step => panic!("{step:?}"),
    }
    assert!(matches!(&closing[3], ClosingStep::Announce(AacpBatteryEvent::SessionEnded)));
    match closing.pop() {
        Some(ClosingStep::Report(report)) => {
            assert_eq!(report.state.as_str(), "stopping");
            assert!(!report.mic_active);
            let mut state = RuntimeState::new(&Config::default(), false, "old".to_string());
            state.set_audio_status(report);
            assert_eq!(state.status.state, "stopping");
            assert_eq!(state.status.last_error, "old");
        }
        step => panic!("{step:?}"),
    }
}

#[test]
fn a_mode_can_be_sent_without_a_stream() {
    let request = ModeRequest::new("00:00:00:00:00:01".to_string(), ListeningMode::Off);
    assert_eq!(mode_address(&request).unwrap(), [0, 0, 0, 0, 0, 1]);
    let request = ModeRequest::new("x".to_string(), ListeningMode::Off);
    assert_eq!(mode_address(&request).unwrap_err(), "invalid selected Bluetooth address");

    let mut stage = ModeStage::AskConnected;
    let mut passed = Vec::new();
    loop {
        passed.push(stage);
        match send_mode_once(stage, Ok(true)) {
            ModeStep::Perform(next) => stage = next,
            ModeStep::Served { settle_ms } => {
                assert_eq!(settle_ms, 100);
                break;
            }
            ModeStep::Failed(message) => panic!("{message}"),
        }
    }
    assert_eq!(
        passed,
        [ModeStage::AskConnected, ModeStage::Connect, ModeStage::Initialize, ModeStage::SendMode]
    );
    match send_mode_once(ModeStage::AskConnected, Ok(false)) {
        ModeStep::Failed(message) => assert_eq!(message, "selected AirPods are not connected"),
        step => panic!("{step:?}"),
    }
    match send_mode_once(ModeStage::Connect, Err("gone".to_string())) {
        ModeStep::Failed(message) => assert_eq!(message, "gone"),
        step => panic!("{step:?}"),
    }
}

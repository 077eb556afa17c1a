use airpods::config::Config;
use airpods::decibel::Decibels;
use airpods::lifecycle::{AfterAttempt, AfterWait, Lifecycle, LifecycleStep, Wakeup};
use airpods::service::{AudioReport, AudioState, DesiredAudio, RuntimeState};
use airpods::stream::AttemptExit;

fn desired(enabled: bool, address: &str) -> DesiredAudio {
    DesiredAudio {
        enabled,
        address: address.to_string(),
        gain_db: Decibels::from_bits(0),
        limiter_db: Decibels::from_bits(0),
    }
}

fn assert_idle(report: AudioReport) {
    assert_eq!(report.state, AudioState::Idle);
    assert!(!report.mic_active);
    assert_eq!(report.reconnect_attempt, 0);
    assert!(report.error.is_none());
}

fn goes_on(next: AfterWait) -> bool {
    match next {
        AfterWait::Continue => true,
        AfterWait::Stop(report) => {
            assert_idle(report);
            false
        }
    }
}

fn fail(lifecycle: &mut Lifecycle) -> u64 {
    match lifecycle.attempt_finished(AttemptExit::Failed("lost".to_string())) {
        AfterAttempt::Pause { report, seconds } => {
            assert_eq!(report.state, AudioState::Recovering);
            assert_eq!(report.error.as_deref(), Some("lost"));
            assert_eq!(report.reconnect_attempt, lifecycle.reconnect_attempt);
            seconds
        }
        next => panic!("{next:?}"),
    }
}

#[test]
fn pauses_double_up_to_thirty_two_seconds() {
    let mut lifecycle = Lifecycle::default();
    let pauses: Vec<_> = (0..8).map(|_| fail(&mut lifecycle)).collect();
    assert_eq!(pauses, [1, 2, 4, 8, 16, 32, 32, 32]);
    lifecycle.reconnect_attempt = u32::MAX;
    assert_eq!(fail(&mut lifecycle), 32);
    assert_eq!(lifecycle.reconnect_attempt, u32::MAX);
}

#[test]
fn the_desired_state_decides_what_comes_next() {
    let mut lifecycle = Lifecycle { reconnect_attempt: 3 };
    match lifecycle.poll(true, &desired(true, "A")) {
        LifecycleStep::Stop(report) => assert_idle(report),
        step => panic!("{step:?}"),
    }
    match lifecycle.poll(false, &desired(true, "")) {
        LifecycleStep::Wait(report) => {
            assert_eq!(report.state, AudioState::Error);
            assert_eq!(report.error.as_deref(), Some("no AirPods device is selected"));
        }
        step => panic!("{step:?}"),
    }
    assert_eq!(lifecycle.reconnect_attempt, 3);
    match lifecycle.poll(false, &desired(true, "A")) {
        LifecycleStep::Attempt(report) => {
            assert_eq!(report.state, AudioState::Connecting);
            assert_eq!(report.reconnect_attempt, 3);
            assert!(report.error.is_none());
        }
        step => panic!("{step:?}"),
    }
    match lifecycle.poll(false, &desired(false, "A")) {
        LifecycleStep::Wait(report) => assert_eq!(report.state, AudioState::Idle),
        step => panic!("{step:?}"),
    }
    assert_eq!(lifecycle.reconnect_attempt, 0);
}

#[test]
fn requests_forget_failures() {
    for (wakeup, expected, left) in [
        (Wakeup::Elapsed, true, 5),
        (Wakeup::DesiredChanged, true, 0),
        (Wakeup::ModeServed, true, 0),
        (Wakeup::DesiredClosed, false, 5),
        (Wakeup::ShutdownChanged { closed: false, shutdown: false }, true, 5),
        (Wakeup::ShutdownChanged { closed: true, shutdown: false }, false, 5),
        (Wakeup::ShutdownChanged { closed: false, shutdown: true }, false, 5),
    ] {
        let mut lifecycle = Lifecycle { reconnect_attempt: 5 };
        assert_eq!(goes_on(lifecycle.pause_ended(wakeup)), expected);
        assert_eq!(lifecycle.reconnect_attempt, left);
        assert_eq!(goes_on(Lifecycle::wait_for_action(wakeup)), expected);
    }
}

#[test]
fn attempts_end_in_three_ways() {
    let mut lifecycle = Lifecycle { reconnect_attempt: 2 };
    match lifecycle.attempt_finished(AttemptExit::Shutdown) {
        AfterAttempt::Stop(report) => assert_idle(report),
        next => panic!("{next:?}"),
    }
    assert_eq!(lifecycle.reconnect_attempt, 2);
    let next = lifecycle.attempt_finished(AttemptExit::Reconfigure);
    assert!(matches!(next, AfterAttempt::Continue));
    assert_eq!(lifecycle.reconnect_attempt, 0);
    assert_eq!(Lifecycle::idle_report().state.as_str(), "idle");
}

#[test]
fn the_last_status_is_idle() {
    let mut state = RuntimeState::new(&Config::default(), false, "old".to_string());
    state.status.state = "recovering".to_string();
    state.status.reconnect_attempt = 4;
    let mut lifecycle = Lifecycle { reconnect_attempt: 4 };
    match lifecycle.pause_ended(Wakeup::DesiredClosed) {
        AfterWait::Stop(report) => state.set_audio_status(report),
        next => panic!("{next:?}"),
    };
    assert_eq!(state.status.state, "idle");
    assert!(!state.status.mic_active);
    assert_eq!(state.status.reconnect_attempt, 0);
    assert_eq!(state.status.last_error, "old");
}

use airpods::aacp::ListeningMode;
use airpods::config::Config;
use airpods::decibel::Decibels;
use airpods::ipc::{BatteryStatus, DeviceInfo};
use airpods::power::UpdateOutcome;
use airpods::service::{
    AudioReport, AudioState, DesiredAudio, Event, ManagerService, ModeReply, RuntimeState,
    ServiceError,
};

const ADDRESS: &str = "aa:bb:cc:dd:ee:ff";
const UPPER: &str = "AA:BB:CC:DD:EE:FF";

fn db(value: f64) -> Decibels {
    Decibels::from_bits(value.to_bits())
}

fn device(address: &str, selected: bool) -> DeviceInfo {
    DeviceInfo {
        address: address.to_string(),
        name: "AirPods".to_string(),
        connected: false,
        selected,
    }
}

fn daemon() -> (ManagerService, RuntimeState, DesiredAudio) {
    let config = Config::default();
    let state = RuntimeState::new(&config, false, String::new());
    let desired = DesiredAudio::from_config(&config);
    (ManagerService::new(config), state, desired)
}

fn failed(error: ServiceError) -> String {
    match error {
        ServiceError::Failed(message) => message,
        ServiceError::InvalidArgs(message) => panic!("refused: {message}"),
    }
}

fn refused(error: ServiceError) -> String {
    match error {
        ServiceError::InvalidArgs(message) => message,
        ServiceError::Failed(message) => panic!("failed: {message}"),
    }
}

#[test]
fn selecting_marks_the_device_everywhere() {
    let (mut service, mut state, mut desired) = daemon();
    state.devices = vec![device(UPPER, false), device("11:22:33:44:55:66", true)];
    let next = service.select_device(ADDRESS).unwrap();
    assert_eq!(next.selected_device, UPPER);
    let events = service.device_selected(next, Ok(()), &mut state, &mut desired).unwrap();
    assert_eq!(service.config.selected_device, UPPER);
    assert_eq!(state.status.selected_device, UPPER);
    assert_eq!(desired.address, UPPER);
    assert!(state.devices[0].selected);
    assert!(!state.devices[1].selected);
    assert_eq!(events.len(), 2);
    assert_eq!(events[0].signal_name(), "DevicesChanged");
    assert_eq!(events[1].signal_name(), "StatusChanged");
    match &events[0] {
        Event::Devices(devices) => assert!(devices[0].selected && !devices[1].selected),
        _ => panic!("no devices"),
    }
}

#[test]
fn a_malformed_address_is_refused() {
    let (service, _, _) = daemon();
    assert_eq!(
        refused(service.select_device("aa:bb").unwrap_err()),
        "expected Bluetooth address in XX:XX:XX:XX:XX:XX format"
    );
}

#[test]
fn a_failed_save_changes_nothing() {
    let (mut service, mut state, mut desired) = daemon();
    let next = service.select_device(ADDRESS).unwrap();
    let error = service
        .device_selected(next, Err("disk full".to_string()), &mut state, &mut desired)
        .unwrap_err();
    assert_eq!(failed(error), "disk full");
    assert_eq!(service.config.selected_device, "");
    assert_eq!(state.status.selected_device, "");
    assert_eq!(desired.address, "");

    let next = service.set_gain(db(3.0)).unwrap();
    assert!(service.gain_set(next, Err("x".to_string()), &mut state, &mut desired).is_err());
    assert_eq!(f64::from_bits(state.status.gain_db.bits), 18.0);
    assert_eq!(f64::from_bits(desired.gain_db.bits), 18.0);
    assert_eq!(f64::from_bits(service.config.gain_db.bits), 18.0);
}

#[test]
fn the_microphone_is_switched_even_if_saving_fails() {
    let (mut service, _, mut desired) = daemon();
    let next = service.start_mic();
    let error = service.mic_switched(next, Err("read-only".to_string()), &mut desired).unwrap_err();
    assert_eq!(failed(error), "read-only");
    assert!(desired.enabled);
    assert!(service.config.mic_enabled);
    let next = service.stop_mic();
    assert!(service.mic_switched(next, Ok(()), &mut desired).is_ok());
    assert!(!desired.enabled);
    assert!(!service.config.mic_enabled);
}

#[test]
fn levels_are_set_within_their_ranges() {
    let (mut service, mut state, mut desired) = daemon();
    assert_eq!(
        refused(service.set_gain(db(30.1)).unwrap_err()),
        "gain must be between 0 and 30 dB"
    );
    assert_eq!(
        refused(service.set_limiter_db(db(f64::INFINITY)).unwrap_err()),
        "limiter must be between -12 and 0 dBFS"
    );
    let next = service.set_gain(db(30.0)).unwrap();
    let events = service.gain_set(next, Ok(()), &mut state, &mut desired).unwrap();
    assert_eq!(events[0].signal_name(), "StatusChanged");
    let next = service.set_limiter_db(db(-12.0)).unwrap();
    assert_eq!(service.limiter_set(next, Ok(()), &mut state, &mut desired).unwrap().len(), 1);
    assert_eq!(f64::from_bits(state.status.gain_db.bits), 30.0);
    assert_eq!(f64::from_bits(state.status.limiter_db.bits), -12.0);
    assert_eq!(f64::from_bits(desired.gain_db.bits), 30.0);
    assert_eq!(f64::from_bits(service.config.limiter_db.bits), -12.0);
}

#[test]
fn mode_requests_are_checked_in_order() {
    let (mut service, _, _) = daemon();
    assert_eq!(
        refused(service.set_listening_mode("loud").unwrap_err()),
        "mode must be one of: off, anc, transparency, adaptive"
    );
    assert_eq!(
        failed(service.set_listening_mode("anc").unwrap_err()),
        "no AirPods device is selected"
    );
    service.config.selected_device = UPPER.to_string();
    let request = service.set_listening_mode("anc").unwrap();
    assert_eq!(request.address, UPPER);
    assert_eq!(request.mode, ListeningMode::NoiseCancellation);
}

#[test]
fn mode_answers_say_what_happened() {
    assert!(ManagerService::mode_answer(ModeReply::Answered(Ok(()))).is_ok());
    let cases = [
        (ModeReply::Undelivered, "AACP lifecycle worker is unavailable"),
        (ModeReply::Unanswered, "AACP lifecycle worker stopped responding"),
        (ModeReply::Answered(Err("nope".to_string())), "nope"),
    ];
    for (reply, message) in cases {
        assert_eq!(failed(ManagerService::mode_answer(reply).unwrap_err()), message);
    }
}

#[test]
fn errors_last_until_the_microphone_runs() {
    let (_, mut state, _) = daemon();
    let report = |name: AudioState, mic_active: bool, error: Option<&str>| AudioReport {
        state: name,
        mic_active,
        reconnect_attempt: 2,
        error: error.map(str::to_string),
    };
    state.set_audio_status(report(AudioState::Recovering, false, Some("lost")));
    assert_eq!(state.status.last_error, "lost");
    assert_eq!(state.status.state, "recovering");
    assert_eq!(state.status.reconnect_attempt, 2);
    state.set_audio_status(report(AudioState::Connecting, false, None));
    assert_eq!(state.status.last_error, "lost");
    state.set_audio_status(report(AudioState::Streaming, true, None));
    assert_eq!(state.status.last_error, "");
    assert!(state.status.mic_active);
}

#[test]
fn only_changes_of_battery_and_bridge_are_announced() {
    let (_, mut state, _) = daemon();
    let mut battery = BatteryStatus::unavailable();
    assert!(state.publish_battery(battery, None).is_empty());
    assert!(state.publish_battery(battery, Some(UpdateOutcome::Missing)).is_empty());
    battery.left_percent = 40;
    let events = state.publish_battery(battery, Some(UpdateOutcome::Written));
    assert_eq!(events[0].signal_name(), "BatteryChanged");
    assert_eq!(events[1].signal_name(), "StatusChanged");
    assert_eq!(events.len(), 2);
    assert!(state.status.power_bridge_available);
    let events = state.publish_battery(battery, None);
    assert_eq!(events.len(), 1);
    assert_eq!(events[0].signal_name(), "StatusChanged");
    assert!(!state.status.power_bridge_available);
}

#[test]
fn only_changes_of_devices_are_announced() {
    let (_, mut state, _) = daemon();
    assert!(state.replace_devices(Vec::new()).is_none());
    let event = state.replace_devices(vec![device(UPPER, false)]).unwrap();
    assert_eq!(event.signal_name(), "DevicesChanged");
    assert!(state.replace_devices(vec![device(UPPER, false)]).is_none());
    assert!(state.replace_devices(vec![device(UPPER, true)]).is_some());
}

#[test]
fn desired_states_compare_by_number() {
    let (_, _, desired) = daemon();
    let mut other = desired.clone();
    assert!(desired.same_as(&other));
    other.limiter_db = db(-2.0);
    assert!(!desired.same_as(&other));
    other.limiter_db = db(f64::NAN);
    assert!(!other.same_as(&other.clone()));
}

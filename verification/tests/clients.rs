use airpods::aacp::ListeningMode;
use airpods::ctl::{
    charging, confirmation, on_off, percent, print_battery, print_devices, print_mic_status,
    print_status, ModeCommand, Request,
};
use airpods::decibel::Decibels;
use airpods::gui_client::{
    call_step, command_failed, connect_step, handle_command, run, send_error, Call, CallStep,
    Command, ConnectStage, ConnectStep, Event, Heard, ListenStep,
};
use airpods::gui_view::{
    device_chosen, event_updates, gain_changed, limiter_changed, mic_clicked, state_class,
    status_panel, update_battery, update_devices, update_status, Update,
};
use airpods::ipc::{
    BatteryStatus, DaemonStatus, DeviceInfo, BUS_NAME, MANAGER_INTERFACE, OBJECT_PATH,
};
use airpods::sound::{
    failure_message, metadata_arguments, metadata_program, publish_mode, MetadataRun,
};

fn db(value: f64) -> Decibels {
    Decibels::from_bits(value.to_bits())
}

fn status() -> DaemonStatus {
    DaemonStatus {
        state: "streaming".to_string(),
        selected_device: "AA".to_string(),
        mic_active: true,
        reconnect_attempt: 7,
        gain_db: db(18.0),
        limiter_db: db(-3.0),
        power_bridge_available: true,
        last_error: String::new(),
    }
}

fn device(address: &str, connected: bool, selected: bool) -> DeviceInfo {
    DeviceInfo { address: address.to_string(), name: "Pods".to_string(), connected, selected }
}

fn finished(success: bool, stderr: &[u8]) -> MetadataRun<'_> {
    MetadataRun::Finished { success, status: "exit status: 1", stderr }
}

fn error_text(event: Event) -> String {
    match event {
        Event::Error(message) => message,
        event => panic!("{event:?}"),
    }
}

#[test]
fn the_bus_names_are_the_documented_ones() {
    assert_eq!(BUS_NAME, "io.github.abdulloh404.AirPods");
    assert_eq!(OBJECT_PATH, "/io/github/abdulloh404/AirPods");
    assert_eq!(MANAGER_INTERFACE, "io.github.abdulloh404.AirPods.Manager1");
}

#[test]
fn the_status_is_printed() {
    assert_eq!(
        print_status(&status(), "18.0", "-3.0"),
        [
            "State: streaming",
            "Device: AA",
            "Microphone: active",
            "Gain: 18.0 dB",
            "Limiter: -3.0 dBFS",
            "UPower bridge: available"
        ]
    );
    let mut broken = status();
    broken.selected_device = String::new();
    broken.mic_active = false;
    broken.power_bridge_available = false;
    broken.last_error = "lost".to_string();
    let lines = print_status(&broken, "0.0", "0.0");
    assert_eq!(lines[1], "Device: not selected");
    assert_eq!(lines[2], "Microphone: inactive");
    assert_eq!(lines[5], "UPower bridge: unavailable");
    assert_eq!(lines[6], "Last error: lost");
    assert_eq!(
        print_mic_status(&broken, "0.0", "0.0"),
        [
            "Microphone: inactive",
            "State: streaming",
            "Gain: 0.0 dB",
            "Limiter: 0.0 dBFS",
            "Reconnect attempt: 7",
            "Last error: lost"
        ]
    );
    assert_eq!(print_mic_status(&status(), "1.0", "0.0").len(), 5);
}

#[test]
fn batteries_and_devices_are_printed() {
    let mut battery = BatteryStatus::unavailable();
    battery.left_percent = 100;
    battery.left_charging = true;
    assert_eq!(print_battery(battery), ["Left: 100% (charging)", "Right: unknown"]);
    assert_eq!(percent(0), "0%");
    assert_eq!(percent(i16::MIN), "unknown");
    assert_eq!(charging(false), "");
    assert_eq!(on_off(true), "active");
    assert_eq!(print_devices(&Vec::new()), ["No AirPods found by BlueZ."]);
    assert_eq!(
        print_devices(&vec![device("AA", true, true), device("BB", false, false)]),
        ["* AA  Pods  connected", "  BB  Pods  disconnected"]
    );
}

#[test]
fn requests_are_confirmed() {
    let cases = [
        (Request::Selected { address: "aa" }, "Selected aa."),
        (Request::MicStarted, "Microphone start requested."),
        (Request::MicStopped, "Microphone stop requested."),
        (Request::GainSet { gain: "3.5" }, "Gain set to 3.5 dB."),
        (Request::LimiterSet { limiter: "-1.0" }, "Limiter set to -1.0 dBFS."),
        (Request::ModeSent { mode: ModeCommand::Anc }, "Listening mode command sent: anc."),
    ];
    for (request, text) in cases {
        assert_eq!(confirmation(request), text);
    }
}

#[test]
fn the_daemon_knows_every_mode_of_the_command_line() {
    let modes = [ModeCommand::Off, ModeCommand::Anc, ModeCommand::Transparency, ModeCommand::Adaptive];
    let known: Vec<_> = modes.iter().map(|mode| ListeningMode::parse(mode.as_str())).collect();
    assert_eq!(
        known,
        [
            Some(ListeningMode::Off),
            Some(ListeningMode::NoiseCancellation),
            Some(ListeningMode::Transparency),
            Some(ListeningMode::Adaptive)
        ]
    );
}

#[test]
fn connecting_subscribes_before_it_reads() {
    let mut stage = ConnectStage::Session;
    let mut passed = vec![stage];
    loop {
        match connect_step(stage, Ok(())) {
            ConnectStep::Perform(next) => {
                stage = next;
                passed.push(stage);
            }
            ConnectStep::Listen => break,
            step => panic!("{step:?}"),
        }
    }
    assert_eq!(
        passed,
        [
            ConnectStage::Session,
            ConnectStage::Proxy,
            ConnectStage::StatusSignals,
            ConnectStage::BatterySignals,
            ConnectStage::DeviceSignals,
            ConnectStage::Snapshot
        ]
    );
    let messages = [
        "Cannot connect to the session bus: e",
        "airpodsd is not available: e",
        "Cannot subscribe to daemon state: e",
        "Cannot subscribe to battery state: e",
        "Cannot subscribe to device state: e",
        "airpodsd is not available: e",
    ];
    for (stage, message) in passed.into_iter().zip(messages) {
        match connect_step(stage, Err("e".to_string())) {
            ConnectStep::StartOver { event, pause_s } => {
                assert_eq!(error_text(event), message);
                assert_eq!(pause_s, 2);
            }
            step => panic!("{step:?}"),
        }
    }
}

#[test]
fn a_connected_client_tells_what_it_hears() {
    assert!(matches!(run(Heard::Command(None)), ListenStep::Stop));
    assert!(matches!(
        run(Heard::Command(Some(Command::Refresh))),
        ListenStep::Handle(Command::Refresh)
    ));
    for heard in [Heard::Status(None), Heard::Battery(None), Heard::Devices(None)] {
        match run(heard) {
            ListenStep::Reconnect(event) => {
                assert_eq!(error_text(event), "Lost the airpodsd connection. Reconnecting…");
            }
            step => panic!("{step:?}"),
        }
    }
    let failures = [
        (Heard::Status(Some(Err("x".to_string()))), "Cannot read daemon update: x"),
        (Heard::Battery(Some(Err("x".to_string()))), "Cannot read battery update: x"),
        (Heard::Devices(Some(Err("x".to_string()))), "Cannot read device update: x"),
    ];
    for (heard, message) in failures {
        match run(heard) {
            ListenStep::Tell(event) => assert_eq!(error_text(event), message),
            step => panic!("{step:?}"),
        }
    }
    match run(Heard::Status(Some(Ok(status())))) {
        ListenStep::Tell(Event::Status(told)) => assert_eq!(told.state, "streaming"),
        step => panic!("{step:?}"),
    }
    match run(Heard::Battery(Some(Ok(BatteryStatus::unavailable())))) {
        ListenStep::Tell(Event::Battery(told)) => assert_eq!(told.left_percent, -1),
        step => panic!("{step:?}"),
    }
    match run(Heard::Devices(Some(Ok(vec![device("A", true, true)])))) {
        ListenStep::Tell(Event::Devices(told)) => assert_eq!(told.len(), 1),
        step => panic!("{step:?}"),
    }
}

#[test]
fn commands_become_calls() {
    let names = |command| -> Vec<&'static str> {
        handle_command(command)
            .iter()
            .map(|call| match call {
                Call::SelectDevice(_) => "select",
                Call::StartMic => "start",
                Call::StopMic => "stop",
                Call::SetGain(_) => "gain",
                Call::SetLimiter(_) => "limiter",
                Call::ReadSnapshot => "read",
            })
            .collect()
    };
    assert_eq!(names(Command::Refresh), ["read"]);
    assert_eq!(names(Command::SelectDevice("A".to_string())), ["select", "read"]);
    assert_eq!(names(Command::StartMic), ["start", "read"]);
    assert_eq!(names(Command::StopMic), ["stop", "read"]);
    assert_eq!(names(Command::SetGain(db(1.0))), ["gain"]);
    assert_eq!(names(Command::SetLimiter(db(-1.0))), ["limiter"]);
    assert_eq!(error_text(command_failed("no")), "The requested action failed: no");
    assert_eq!(error_text(send_error("a", "b")), "a: b");
}

#[test]
fn widgets_ask_for_what_the_user_does() {
    assert!(matches!(mic_clicked(true), Command::StopMic));
    assert!(matches!(mic_clicked(false), Command::StartMic));
    assert!(gain_changed(true, db(1.0)).is_none());
    assert!(matches!(gain_changed(false, db(1.0)), Some(Command::SetGain(gain)) if gain.bits == db(1.0).bits));
    assert!(limiter_changed(true, db(1.0)).is_none());
    assert!(matches!(limiter_changed(false, db(0.0)), Some(Command::SetLimiter(_))));
    assert!(device_chosen(true, Some("A".to_string())).is_none());
    assert!(device_chosen(false, None).is_none());
    assert!(matches!(
        device_chosen(false, Some("A".to_string())),
        Some(Command::SelectDevice(address)) if address == "A"
    ));
}

#[test]
fn the_list_of_devices_keeps_its_choice() {
    let devices = vec![device("A", false, false), device("B", true, true)];
    let panel = update_devices(&devices, "A");
    assert_eq!(panel.active.as_deref(), Some("A"));
    assert_eq!(panel.state, "NOT CONNECTED");
    assert_eq!(panel.rows[0].label, "Pods  ·  offline");
    assert_eq!(panel.rows[1].label, "Pods  ·  connected");
    assert_eq!(panel.rows[1].address, "B");
    let panel = update_devices(&devices, "gone");
    assert_eq!(panel.active.as_deref(), Some("B"));
    assert_eq!(panel.state, "CONNECTED");
    let panel = update_devices(&vec![device("A", true, false)], "");
    assert_eq!(panel.active, None);
    assert_eq!(panel.state, "SELECT A DEVICE");
    assert!(!panel.is_empty);
    let panel = update_devices(&Vec::new(), "A");
    assert_eq!(panel.state, "NO DEVICE");
    assert!(panel.is_empty);
}

#[test]
fn the_status_is_shown() {
    let panel = update_status(&status());
    assert_eq!(panel.badge, "STREAMING");
    assert_eq!(panel.badge_class, "state-ok");
    assert_eq!(panel.mic_label, "Stop microphone");
    assert_eq!(panel.power_bridge, "UPower bridge: online");
    assert!(panel.has_device && panel.mic_active);
    assert_eq!(panel.error, None);
    let mut broken = status();
    broken.state = "straße".to_string();
    broken.last_error = "oops".to_string();
    broken.mic_active = false;
    broken.selected_device = String::new();
    broken.power_bridge_available = false;
    let panel = update_status(&broken);
    assert_eq!(panel.badge, "STRASSE");
    assert_eq!(panel.badge_class, "state-warn");
    assert_eq!(panel.mic_label, "Start microphone");
    assert_eq!(panel.power_bridge, "UPower bridge: unavailable");
    assert!(!panel.has_device);
    assert_eq!(panel.error.as_deref(), Some("oops"));
    assert_eq!(status_panel(&status(), "X".to_string()).badge, "X");
    for (state, class) in [
        ("Idle", "state-ok"),
        ("READY", "state-ok"),
        ("error", "state-error"),
        ("recovering", "state-warn"),
        ("", "state-warn"),
    ] {
        assert_eq!(state_class(state), class);
    }
}

#[test]
fn batteries_are_shown() {
    let panel = update_battery(-1, true);
    assert_eq!((panel.value.as_str(), panel.filled_percent), ("—", 0));
    assert_eq!(panel.tooltip, "Battery level unavailable");
    let panel = update_battery(42, false);
    assert_eq!((panel.value.as_str(), panel.filled_percent), ("42%", 42));
    assert_eq!(panel.tooltip, "Battery level: 42%");
    let panel = update_battery(300, true);
    assert_eq!((panel.value.as_str(), panel.filled_percent), ("⚡ 100%", 100));
    assert_eq!(panel.tooltip, "Battery level: 100%, charging");
}

#[test]
fn events_show_their_parts() {
    let kinds = |event, chosen: Option<&str>| -> Vec<&'static str> {
        event_updates(event, chosen.map(str::to_string))
            .iter()
            .map(|update| match update {
                Update::Devices(_) => "devices",
                Update::Status(_) => "status",
                Update::Left(_) => "left",
                Update::Right(_) => "right",
                Update::Badge { .. } => "badge",
                Update::Error(_) => "error",
            })
            .collect()
    };
    let snapshot = Event::Snapshot {
        status: status(),
        devices: Vec::new(),
        battery: BatteryStatus::unavailable(),
    };
    assert_eq!(kinds(snapshot, None), ["devices", "status", "left", "right"]);
    assert_eq!(kinds(Event::Status(status()), None), ["status"]);
    assert_eq!(kinds(Event::Battery(BatteryStatus::unavailable()), None), ["left", "right"]);
    assert_eq!(kinds(Event::Error("x".to_string()), None), ["badge", "error"]);
    let devices = vec![device("A", true, false), device("B", true, true)];
    match &event_updates(Event::Devices(devices), Some("A".to_string()))[0] {
        Update::Devices(panel) => assert_eq!(panel.active.as_deref(), Some("A")),
        update => panic!("{update:?}"),
    }
    match &event_updates(Event::Error("x".to_string()), None)[0] {
        Update::Badge { text, class } => {
            assert_eq!((*text, *class), ("UNAVAILABLE", "state-error"));
        }
        update => panic!("{update:?}"),
    }
}

#[test]
fn sound_modes_go_through_metadata() {
    assert_eq!(metadata_program(None), "pw-metadata");
    assert_eq!(metadata_program(Some("/bin/pm".to_string())), "/bin/pm");
    assert_eq!(
        metadata_arguments("bass"),
        ["--name", "airpods-linux", "0", "sound.mode", "\"bass\"", "Spa:String:JSON"]
    );
    assert_eq!(publish_mode("pw", finished(true, b"noise")), Ok(()));
    assert_eq!(
        publish_mode("pw", finished(false, b" \n")),
        Err("pw-metadata exited with exit status: 1".to_string())
    );
    assert_eq!(
        publish_mode("pw", finished(false, b" no \xff\n")),
        Err("pw-metadata failed: no \u{fffd}".to_string())
    );
    assert_eq!(
        publish_mode("pw", MetadataRun::TimedOut),
        Err("pw-metadata timed out".to_string())
    );
    assert_eq!(
        publish_mode("pw", MetadataRun::NotRun),
        Err("failed to run pw".to_string())
    );
    assert_eq!(failure_message("s", "t "), "pw-metadata failed: t");
}

#[test]
fn a_failing_call_ends_its_command() {
    assert!(matches!(call_step(Ok(())), CallStep::Next));
    match call_step(Err("gone".to_string())) {
        CallStep::End(event) => {
            assert_eq!(error_text(event), "The requested action failed: gone");
        }
        step => panic!("{step:?}"),
    }
}

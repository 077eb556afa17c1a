use airpods::decibel::EngineDecibels;
use airpods::engine::{
    call_status, check_access_unit, native_error, native_message, push_outcome,
    validate_processing, AudioConfig, AudioMetrics, PushOutcome,
};

fn db(value: f32) -> EngineDecibels {
    EngineDecibels::from_bits(value.to_bits())
}

#[test]
fn the_default_engine_is_accepted() {
    let config = AudioConfig::default();
    assert!(config.validate().is_ok());
    assert_eq!(config.node_name, "Microphone_Virtual_Abdullohs_AirPods_Pro");
    assert_eq!(config.node_description, "Microphone virtual - Abdulloh's AirPods Pro");
    assert_eq!(config.queue_capacity_ms, 250);
    assert_eq!(f32::from_bits(config.gain_db.bits), 0.0);
    assert_eq!(f32::from_bits(config.limiter_dbfs.bits), -3.0);
}

#[test]
fn every_engine_error_has_its_message() {
    assert_eq!(
        validate_processing(db(30.5), db(0.0)).unwrap_err().message(),
        "microphone gain must be between 0 and 30 dB"
    );
    assert_eq!(
        validate_processing(db(30.0), db(0.5)).unwrap_err().message(),
        "limiter must be between -12 and 0 dBFS"
    );
    assert!(validate_processing(db(30.0), db(-12.0)).is_ok());

    for capacity in [0, 5_001] {
        let mut config = AudioConfig::default();
        config.queue_capacity_ms = capacity;
        assert_eq!(
            config.validate().unwrap_err().message(),
            "audio queue capacity must be between 1 and 5000 ms"
        );
    }
    let mut config = AudioConfig::default();
    config.node_description = "a\0b".to_string();
    assert_eq!(
        config.validate().unwrap_err().message(),
        "PipeWire node description contains a null byte"
    );
    config.node_name = "\0".to_string();
    assert_eq!(
        config.validate().unwrap_err().message(),
        "PipeWire node name contains a null byte"
    );
    assert_eq!(
        check_access_unit(&[]).unwrap_err().message(),
        "cannot process an empty AAC-ELD access unit"
    );
    assert!(check_access_unit(&[0]).is_ok());
}

#[test]
fn native_messages_end_at_the_first_null() {
    assert_eq!(native_error(b"no node\0rest").message(), "no node");
    assert_eq!(native_error(b"bad \xff byte\0").message(), "bad \u{fffd} byte");
    assert_eq!(
        native_error(b"\0").message(),
        "native audio engine failed without an error message"
    );
    assert_eq!(native_message("x".to_string()), "x");
    assert_eq!(
        native_message(String::new()),
        "native audio engine failed without an error message"
    );
}

#[test]
fn native_statuses_are_read() {
    assert!(call_status(0, b"ignored\0").is_ok());
    assert_eq!(call_status(-1, b"broken\0").unwrap_err().message(), "broken");
    assert!(matches!(push_outcome(0, b"\0"), Ok(PushOutcome::Queued)));
    assert!(matches!(push_outcome(1, b"\0"), Ok(PushOutcome::QueueFull)));
    assert!(matches!(push_outcome(2, b"\0"), Ok(PushOutcome::DecodeError)));
    assert_eq!(push_outcome(3, b"stopped\0").unwrap_err().message(), "stopped");
    assert_eq!(AudioMetrics::default().queued_samples, 0);
}

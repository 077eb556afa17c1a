use airpods::address::{address_text, parse_address, valid_bluetooth_address};
use airpods::config::{save_step, temporary_file_name, Config, ConfigFile, SaveStage, SaveStep};
use airpods::decibel::Decibels;
use airpods::ipc::BatteryStatus;
use airpods::power::{update_outcome, NodeAccess, PowerBridge, UpdateOutcome};
use airpods::text::is_white_space;

fn db(value: f64) -> Decibels {
    Decibels::from_bits(value.to_bits())
}

#[test]
fn white_space_is_that_of_unicode() {
    for code in 0..=0x10ffff_u32 {
        if let Some(c) = char::from_u32(code) {
            assert_eq!(is_white_space(c), c.is_whitespace(), "{code:x}");
        }
    }
}

#[test]
fn addresses_are_read() {
    assert_eq!(parse_address("00:1a:FF:02:03:04"), Some([0x00, 0x1a, 0xff, 2, 3, 4]));
    assert_eq!(parse_address("0:1:2:3:4:+5"), Some([0, 1, 2, 3, 4, 5]));
    assert_eq!(parse_address("0:1:2:3:4"), None);
    assert_eq!(parse_address("0:1:2:3:4:5:6"), None);
    assert_eq!(parse_address("0:1:2:3:4:100"), None);
    assert_eq!(parse_address("0:1:2:3:4:"), None);
    assert_eq!(parse_address("0:1:2:3:4:g"), None);
    assert_eq!(parse_address(""), None);
}

#[test]
fn addresses_are_written_and_read_back() {
    let address = [0x00, 0x9a, 0xff, 0x10, 0x0f, 0xa0];
    assert_eq!(address_text(address), "00:9A:FF:10:0F:A0");
    assert_eq!(parse_address(&address_text(address)), Some(address));
    assert!(valid_bluetooth_address(&address_text(address)));
}

#[test]
fn only_full_addresses_are_accepted() {
    assert!(valid_bluetooth_address("aa:BB:cc:0d:1e:F2"));
    assert!(!valid_bluetooth_address("aa:BB:cc:0d:1e"));
    assert!(!valid_bluetooth_address("aa:BB:cc:0d:1e:2"));
    assert!(!valid_bluetooth_address("aa:BB:cc:0d:1e:2g"));
    assert!(!valid_bluetooth_address("aa-BB-cc-0d-1e-2f"));
    assert!(!valid_bluetooth_address("+a:BB:cc:0d:1e:2f"));
    assert!(!valid_bluetooth_address(""));
    let upper = "aa:bb:cc:0d:1e:f2".to_ascii_uppercase();
    assert!(valid_bluetooth_address(&upper));
    assert_eq!(parse_address(&upper), parse_address("aa:bb:cc:0d:1e:f2"));
}

#[test]
fn initial_settings_are_the_documented_ones() {
    let config = Config::default();
    assert_eq!(config.selected_device, "");
    assert!(!config.mic_enabled);
    assert_eq!(f64::from_bits(config.gain_db.bits), 18.0);
    assert_eq!(f64::from_bits(config.limiter_db.bits), -3.0);
    assert_eq!(config.validate(), Ok(()));
}

#[test]
fn settings_out_of_range_are_refused() {
    let mut config = Config::default();
    config.limiter_db = db(0.5);
    assert_eq!(
        config.validate(),
        Err("configured limiter is outside the supported range".to_string())
    );
    config.gain_db = db(f64::NAN);
    assert_eq!(
        config.validate(),
        Err("configured gain is outside the supported range".to_string())
    );
}

#[test]
fn the_daemon_starts_with_what_it_can_use() {
    let mut stored = Config::default();
    stored.selected_device = "AA:BB:CC:DD:EE:FF".to_string();
    let (config, error) = Config::at_startup(ConfigFile::Read(stored));
    assert_eq!(config.selected_device, "AA:BB:CC:DD:EE:FF");
    assert_eq!(error, "");

    let (config, error) = Config::at_startup(ConfigFile::Missing);
    assert_eq!(config.selected_device, "");
    assert_eq!(error, "");

    let mut broken = Config::default();
    broken.gain_db = db(99.0);
    let (config, error) = Config::at_startup(ConfigFile::Read(broken));
    assert_eq!(f64::from_bits(config.gain_db.bits), 18.0);
    assert_eq!(
        error,
        "failed to load config; using defaults: configured gain is outside the supported range"
    );

    let (_, error) = Config::at_startup(ConfigFile::Unreadable("denied".to_string()));
    assert_eq!(error, "failed to load config; using defaults: denied");
    assert_eq!(
        Config::load(ConfigFile::Malformed("bad line".to_string())).unwrap_err(),
        "bad line"
    );
}

#[test]
fn temporary_files_carry_process_and_moment() {
    assert_eq!(temporary_file_name(Some("a.toml"), 12, 340), ".a.toml.12.340.tmp");
    assert_eq!(temporary_file_name(None, 0, 0), ".config.toml.0.0.tmp");
    assert_eq!(
        temporary_file_name(Some("x"), u32::MAX, u128::MAX),
        format!(".x.{}.{}.tmp", u32::MAX, u128::MAX)
    );
}

#[test]
fn power_updates_have_eleven_bytes() {
    let bridge = PowerBridge::default();
    assert_eq!(bridge.path, "/dev/airpods_power");
    let battery = BatteryStatus {
        left_percent: 55,
        left_charging: true,
        right_percent: -1,
        right_charging: false,
        case_percent: 130,
        case_charging: false,
        case_stale: true,
    };
    assert_eq!(bridge.update(battery), vec![2, 1, 55, 1, 0, 0, 0, 1, 100, 0, 1]);
    assert_eq!(bridge.invalidate(), vec![2, 0, 0, 0, 0, 0, 0, 0, 0, 0, 1]);
    assert_eq!(bridge.update(BatteryStatus::unavailable()), bridge.invalidate());
}

#[test]
fn a_missing_node_is_no_error() {
    assert_eq!(update_outcome(NodeAccess::NotFound), Ok(UpdateOutcome::Missing));
    assert_eq!(update_outcome(NodeAccess::Complete), Ok(UpdateOutcome::Written));
    assert_eq!(update_outcome(NodeAccess::Failed("denied".to_string())), Err("denied".to_string()));
}

#[test]
fn settings_are_renamed_into_place_after_they_are_written() {
    let mut stage = SaveStage::MakeDirectory;
    let mut passed = vec![stage];
    loop {
        match save_step(stage, Ok(())) {
            SaveStep::Perform(next) => {
                stage = next;
                passed.push(stage);
            }
            SaveStep::Saved => break,
            step => panic!("{step:?}"),
        }
    }
    assert_eq!(
        passed,
        [
            SaveStage::MakeDirectory,
            SaveStage::Encode,
            SaveStage::MakeTemporary,
            SaveStage::Write,
            SaveStage::Sync,
            SaveStage::Rename,
            SaveStage::SyncDirectory
        ]
    );
    let removed: Vec<_> = passed
        .into_iter()
        .map(|stage| match save_step(stage, Err("full".to_string())) {
            SaveStep::Failed { error, remove_temporary } => {
                assert_eq!(error, "full");
                remove_temporary
            }
            step => panic!("{step:?}"),
        })
        .collect();
    assert_eq!(removed, [false, false, false, true, true, true, true]);
}

/// Saves a text in a directory of two names, with one stage that fails where one is
/// given, and says whether it was saved.
fn save_in(
    settings: &mut Option<String>,
    temporary: &mut Option<String>,
    failing: Option<SaveStage>,
) -> bool {
    let mut stage = SaveStage::MakeDirectory;
    loop {
        let failed = failing == Some(stage);
        match stage {
            SaveStage::MakeTemporary if !failed => *temporary = Some(String::new()),
            SaveStage::Write if failed => *temporary = Some("ne".to_string()),
            SaveStage::Write => *temporary = Some("new".to_string()),
            SaveStage::Rename if !failed => *settings = temporary.take(),
            _ => {}
        }
        match save_step(stage, if failed { Err("full".to_string()) } else { Ok(()) }) {
            SaveStep::Perform(next) => stage = next,
            SaveStep::Saved => return true,
            SaveStep::Failed { error, remove_temporary } => {
                assert_eq!(error, "full");
                if remove_temporary {
                    *temporary = None;
                }
                return false;
            }
        }
    }
}

#[test]
fn settings_are_never_left_in_part() {
    let stages = [
        SaveStage::MakeDirectory,
        SaveStage::Encode,
        SaveStage::MakeTemporary,
        SaveStage::Write,
        SaveStage::Sync,
        SaveStage::Rename,
    ];
    for stage in stages {
        let mut settings = Some("old".to_string());
        let mut temporary = None;
        assert!(!save_in(&mut settings, &mut temporary, Some(stage)));
        assert_eq!(settings.as_deref(), Some("old"));
        assert_eq!(temporary, None);
    }
    for (failing, saved) in [(Some(SaveStage::SyncDirectory), false), (None, true)] {
        let mut settings = None;
        let mut temporary = None;
        assert_eq!(save_in(&mut settings, &mut temporary, failing), saved);
        assert_eq!(settings.as_deref(), Some("new"));
        assert_eq!(temporary, None);
    }
}

#[test]
fn settings_in_range_are_loaded_as_they_are() {
    let stored = Config {
        selected_device: "AA:BB:CC:DD:EE:FF".to_string(),
        mic_enabled: true,
        gain_db: db(12.5),
        limiter_db: db(-1.5),
    };
    let config = Config::load(ConfigFile::Read(stored)).unwrap();
    assert_eq!(config.selected_device, "AA:BB:CC:DD:EE:FF");
    assert!(config.mic_enabled);
    assert_eq!(f64::from_bits(config.gain_db.bits), 12.5);
    assert_eq!(f64::from_bits(config.limiter_db.bits), -1.5);
    assert_eq!(Config::load(ConfigFile::Malformed("bad".to_string())).unwrap_err(), "bad");
    assert_eq!(Config::load(ConfigFile::Unreadable("shut".to_string())).unwrap_err(), "shut");
}

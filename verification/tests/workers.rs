use airpods::battery::AacpBatteryUpdate;
use airpods::domain::{AirPodsBattery, BatteryLevel};
use airpods::ipc::{BatteryStatus, DeviceInfo};
use airpods::power::PowerBridge;
use airpods::workers::{
    apply_aacp_update, apply_cached_case, apply_case_level, battery_status, cached_case_status,
    ending_update, inventory_connection, refresh_case_freshness, selected_address, selected_connected,
    AacpBatteryEvent, BatteryAction, BatteryEvent, BatteryWorker, CachedCase,
    SelectedDeviceConnection,
};

const SECOND: u64 = 1_000_000_000;

fn level(percent: u8, charging: bool) -> BatteryLevel {
    BatteryLevel { percent: Some(percent), charging }
}

fn connection(address: &str, connected: bool) -> Option<SelectedDeviceConnection> {
    Some(SelectedDeviceConnection { address: address.to_string(), connected })
}

fn scan(left: u8, case: BatteryLevel) -> AirPodsBattery {
    AirPodsBattery {
        left: level(left, false),
        right: BatteryLevel::default(),
        case,
        model_id: 0x0e20,
        ble_address: String::new(),
        rssi: -40,
    }
}

fn update(left: u8) -> BatteryEvent {
    BatteryEvent::Aacp(AacpBatteryEvent::Update(AacpBatteryUpdate {
        left: Some(level(left, true)),
        ..AacpBatteryUpdate::default()
    }))
}

fn none() -> BatteryStatus {
    BatteryStatus::unavailable()
}

fn step(worker: &mut BatteryWorker, event: BatteryEvent) -> BatteryAction {
    worker.battery_loop(event, none(), 0)
}

fn published(action: BatteryAction) -> BatteryStatus {
    match action {
        BatteryAction::Publish(battery) => battery,
        action => panic!("{action:?}"),
    }
}

#[test]
fn a_connected_device_is_scanned() {
    let mut worker = BatteryWorker::new(None);
    let action = step(&mut worker, BatteryEvent::ConnectionChanged(connection("A", true)));
    // A change of the device gives the running scan up, and a new one begins.
    assert_eq!(action, BatteryAction::Scan { generation: 2 });
    assert_eq!(step(&mut worker, BatteryEvent::RefreshDue), BatteryAction::Nothing);
    let result = BatteryEvent::ScanFinished { generation: 2, battery: Some(scan(50, level(90, true))) };
    let battery = published(step(&mut worker, result));
    assert_eq!(battery.left_percent, 50);
    assert_eq!(battery.right_percent, -1);
    assert_eq!((battery.case_percent, battery.case_charging, battery.case_stale), (90, true, false));
    assert_eq!(step(&mut worker, BatteryEvent::RefreshDue), BatteryAction::Scan { generation: 3 });
}

#[test]
fn scans_of_an_earlier_device_do_not_count() {
    let mut worker = BatteryWorker::new(connection("A", true));
    assert_eq!(step(&mut worker, BatteryEvent::RefreshDue), BatteryAction::Scan { generation: 1 });
    let action = step(&mut worker, BatteryEvent::ConnectionChanged(connection("B", true)));
    assert_eq!(action, BatteryAction::Scan { generation: 3 });
    let late = BatteryEvent::ScanFinished { generation: 1, battery: Some(scan(50, level(1, false))) };
    assert_eq!(step(&mut worker, late), BatteryAction::Nothing);
    assert!(worker.scan_in_progress);
}

#[test]
fn notifications_are_preferred_to_scans() {
    let mut worker = BatteryWorker::new(connection("A", true));
    step(&mut worker, BatteryEvent::RefreshDue);
    let battery = published(step(&mut worker, update(77)));
    assert_eq!((battery.left_percent, battery.left_charging), (77, true));
    let result = BatteryEvent::ScanFinished { generation: 1, battery: Some(scan(50, level(1, false))) };
    assert_eq!(step(&mut worker, result), BatteryAction::Nothing);
    assert!(!worker.scan_in_progress);
    assert_eq!(published(step(&mut worker, BatteryEvent::RefreshDue)).left_percent, 77);
    let action = step(&mut worker, BatteryEvent::Aacp(AacpBatteryEvent::SessionEnded));
    assert_eq!(action, BatteryAction::Scan { generation: 2 });
    assert_eq!(worker.precise_battery, None);
}

#[test]
fn a_first_notification_builds_on_what_was_published() {
    let mut worker = BatteryWorker::new(None);
    let mut current = none();
    current.right_percent = 33;
    let battery = published(worker.battery_loop(update(12), current, 0));
    assert_eq!((battery.left_percent, battery.right_percent), (12, 33));
}

#[test]
fn a_disconnection_withdraws_everything() {
    let mut worker = BatteryWorker::new(connection("A", true));
    step(&mut worker, update(77));
    worker.cached_case = Some(CachedCase { percent: 10, charging: false, observed_ns: 0 });
    let action = step(&mut worker, BatteryEvent::ConnectionChanged(connection("A", false)));
    assert_eq!(published(action), none());
    assert_eq!(worker.precise_battery, None);
    assert_eq!(worker.cached_case, None);
    assert_eq!(step(&mut worker, update(50)), BatteryAction::Nothing);
    let ended = step(&mut worker, BatteryEvent::Aacp(AacpBatteryEvent::SessionEnded));
    assert_eq!(published(ended), none());
    let closed = step(&mut worker, BatteryEvent::ConnectionClosed);
    assert_eq!(published(closed), none());
    assert!(worker.selected_connection.is_none());
}

#[test]
fn repeated_reports_change_nothing() {
    let mut worker = BatteryWorker::new(connection("A", true));
    let action = step(&mut worker, BatteryEvent::ConnectionChanged(connection("A", true)));
    assert_eq!(action, BatteryAction::Nothing);
    assert_eq!(worker.scan_generation, 0);
}

#[test]
fn the_second_failed_scan_withdraws_the_earbuds() {
    let mut worker = BatteryWorker::new(connection("A", true));
    worker.cached_case = Some(CachedCase { percent: 80, charging: true, observed_ns: 0 });
    step(&mut worker, BatteryEvent::RefreshDue);
    let failed = |generation| BatteryEvent::ScanFinished { generation, battery: None };
    assert_eq!(step(&mut worker, failed(1)), BatteryAction::Nothing);
    step(&mut worker, BatteryEvent::RefreshDue);
    let battery = published(step(&mut worker, failed(2)));
    assert_eq!(battery.left_percent, -1);
    assert_eq!((battery.case_percent, battery.case_charging, battery.case_stale), (80, true, true));
}

#[test]
fn a_closed_session_channel_leaves_the_scans() {
    let mut worker = BatteryWorker::new(connection("A", true));
    let action = step(&mut worker, BatteryEvent::AacpClosed);
    assert_eq!(action, BatteryAction::Scan { generation: 1 });
    assert!(!worker.aacp_events_open);
    assert_eq!(step(&mut worker, BatteryEvent::AacpClosed), BatteryAction::Nothing);
}

#[test]
fn shutdown_stops_the_worker() {
    let mut worker = BatteryWorker::new(None);
    for (closed, shutdown, action) in [
        (false, false, BatteryAction::Nothing),
        (true, false, BatteryAction::Stop),
        (false, true, BatteryAction::Stop),
    ] {
        assert_eq!(step(&mut worker, BatteryEvent::ShutdownChanged { closed, shutdown }), action);
    }
}

#[test]
fn scan_numbers_begin_anew_behind_the_largest() {
    let mut worker = BatteryWorker::new(connection("A", true));
    worker.scan_generation = u64::MAX;
    assert_eq!(step(&mut worker, BatteryEvent::RefreshDue), BatteryAction::Scan { generation: 0 });
}

#[test]
fn the_case_grows_old_after_ninety_seconds() {
    let cached = Some(CachedCase { percent: 60, charging: true, observed_ns: 10 * SECOND });
    let mut battery = none();
    apply_cached_case(&mut battery, cached, false, 100 * SECOND - 1);
    assert_eq!((battery.case_percent, battery.case_charging, battery.case_stale), (60, true, false));
    refresh_case_freshness(&mut battery, cached, 100 * SECOND);
    assert!(battery.case_stale);
    refresh_case_freshness(&mut battery, cached, 10 * SECOND);
    assert!(battery.case_stale);
    assert_eq!(battery.case_percent, 60);
    apply_cached_case(&mut battery, None, false, 0);
    assert_eq!((battery.case_percent, battery.case_charging, battery.case_stale), (-1, false, true));
    assert!(cached_case_status(cached, true, 10 * SECOND).case_stale);
    assert!(!cached_case_status(cached, false, 10 * SECOND).case_stale);
}

#[test]
fn a_silent_case_keeps_its_last_value() {
    let mut cached = None;
    let mut battery = none();
    apply_case_level(&mut battery, level(45, false), &mut cached, 7);
    assert_eq!(cached, Some(CachedCase { percent: 45, charging: false, observed_ns: 7 }));
    assert!(!battery.case_stale);
    apply_case_level(&mut battery, BatteryLevel::default(), &mut cached, 8);
    assert_eq!((battery.case_percent, battery.case_stale), (45, true));
    let status = battery_status(&scan(20, BatteryLevel::default()), &mut cached, 9);
    assert_eq!((status.left_percent, status.case_percent, status.case_stale), (20, 45, true));
}

#[test]
fn partial_notifications_keep_the_rest() {
    let mut cached = None;
    let mut battery = none();
    battery.left_percent = 10;
    let update = AacpBatteryUpdate {
        left: None,
        right: Some(BatteryLevel::default()),
        case: Some(level(99, true)),
    };
    apply_aacp_update(&mut battery, update, &mut cached, 3);
    assert_eq!((battery.left_percent, battery.right_percent, battery.case_percent), (10, -1, 99));
    assert_eq!(cached.unwrap().observed_ns, 3);
}

#[test]
fn the_inventory_reports_changes_of_the_connection() {
    let device = |selected, connected| DeviceInfo {
        address: "A".to_string(),
        name: "AirPods".to_string(),
        connected,
        selected,
    };
    let devices = vec![device(false, true), device(true, true)];
    let reported = inventory_connection(&devices, "A", &None).unwrap();
    assert_eq!(reported.address, "A");
    assert!(reported.connected);
    assert!(inventory_connection(&devices, "A", &Some(reported.clone())).is_none());
    let gone = inventory_connection(&vec![device(false, true)], "A", &Some(reported)).unwrap();
    assert!(!gone.connected);
    assert_eq!(selected_address(&Some(gone)), "A");
    assert_eq!(selected_address(&None), "");
    assert_eq!(selected_connected(&None), None);
    assert_eq!(selected_connected(&connection("A", false)), Some(false));
}

#[test]
fn the_end_removes_every_battery() {
    let bridge = PowerBridge::default();
    let update = ending_update(&BatteryAction::Stop, &bridge).unwrap();
    assert_eq!(update, vec![2, 0, 0, 0, 0, 0, 0, 0, 0, 0, 1]);
    for action in [
        BatteryAction::Nothing,
        BatteryAction::Publish(none()),
        BatteryAction::Scan { generation: 1 },
    ] {
        assert_eq!(ending_update(&action, &bridge), None);
    }
}

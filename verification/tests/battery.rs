use std::collections::HashMap;

use airpods::battery::{
    model_name, parse_aacp_battery, parse_advertisement, scan_device, AacpBatteryUpdate,
    ScanFailure, APPLE_COMPANY_ID,
};
use airpods::domain::BatteryLevel;

fn level(percent: u8, charging: bool) -> BatteryLevel {
    BatteryLevel { percent: Some(percent), charging }
}

fn advertisement(status: u8, pods: u8, case: u8) -> Vec<u8> {
    vec![0x07, 0x19, 0x01, 0x0e, 0x20, status, pods, case, 0, 0, 0]
}

#[test]
fn advertisements_are_read() {
    let battery = parse_advertisement(&advertisement(0x20, 0x95, 0x17), "A".to_string(), -40).unwrap();
    assert_eq!(battery.left, level(50, true));
    assert_eq!(battery.right, level(90, false));
    assert_eq!(battery.case, level(70, false));
    assert_eq!(battery.model_id, 0x0e20);
    assert_eq!(battery.ble_address, "A");
    assert_eq!(battery.rssi, -40);
}

#[test]
fn a_cleared_order_bit_swaps_the_earbuds() {
    let battery = parse_advertisement(&advertisement(0x00, 0x95, 0x17), String::new(), 0).unwrap();
    assert_eq!(battery.left, level(90, false));
    assert_eq!(battery.right, level(50, true));
}

#[test]
fn nibbles_above_ten_are_unknown() {
    let battery = parse_advertisement(&advertisement(0x20, 0xfa, 0x4f), String::new(), 0).unwrap();
    assert_eq!(battery.left.percent, Some(100));
    assert_eq!(battery.right.percent, None);
    assert_eq!(battery.case, BatteryLevel { percent: None, charging: true });
}

#[test]
fn other_data_is_no_advertisement() {
    let good = advertisement(0x20, 0x55, 0x05);
    assert!(parse_advertisement(&good, String::new(), 0).is_some());
    assert!(parse_advertisement(&good[..10], String::new(), 0).is_none());
    for i in 0..3 {
        let mut bad = good.clone();
        bad[i] ^= 0xff;
        assert!(parse_advertisement(&bad, String::new(), 0).is_none());
    }
    let mut unknown = good.clone();
    unknown[3] = 0x55;
    assert!(parse_advertisement(&unknown, String::new(), 0).is_none());
}

#[test]
fn models_have_names() {
    assert_eq!(model_name(0x0e20), "AirPods Pro");
    assert_eq!(model_name(0x2420), "AirPods Pro 2 (USB-C)");
    assert_eq!(model_name(0x1b20), "AirPods 4 (ANC)");
    assert_eq!(model_name(0xffff), "Unknown AirPods");
}

#[test]
fn scanned_devices_need_strength_and_apple_data() {
    let data = advertisement(0x20, 0x55, 0x05);
    let map = |company: u16| HashMap::from([(company, data.clone())]);
    let found = scan_device([0, 1, 2, 0xab, 0xcd, 0xef], Some(-50), Some(map(APPLE_COMPANY_ID))).unwrap();
    assert_eq!(found.rssi, -50);
    assert_eq!(found.ble_address, "00:01:02:AB:CD:EF");
    assert_eq!(found.left.percent, Some(50));
    assert!(scan_device([0, 1, 2, 0xab, 0xcd, 0xef], None, Some(map(APPLE_COMPANY_ID))).is_none());
    assert!(scan_device([0, 1, 2, 0xab, 0xcd, 0xef], Some(-50), None).is_none());
    assert!(scan_device([0, 1, 2, 0xab, 0xcd, 0xef], Some(-50), Some(map(0x1234))).is_none());
}

fn notification(items: &[[u8; 5]]) -> Vec<u8> {
    let mut packet = vec![0x04, 0x00, 0x04, 0x00, 0x04, 0x00, items.len() as u8];
    for item in items {
        packet.extend(item);
    }
    packet
}

#[test]
fn notifications_are_read() {
    let packet = notification(&[[2, 1, 64, 1, 1], [4, 1, 100, 2, 1], [8, 1, 30, 4, 1]]);
    assert_eq!(
        parse_aacp_battery(&packet),
        Some(AacpBatteryUpdate {
            left: Some(level(100, false)),
            right: Some(level(64, true)),
            case: Some(BatteryLevel { percent: None, charging: false }),
        })
    );
    assert_eq!(
        parse_aacp_battery(&notification(&[[4, 1, 0, 2, 1]])),
        Some(AacpBatteryUpdate { left: Some(level(0, false)), ..AacpBatteryUpdate::default() })
    );
}

#[test]
fn malformed_notifications_say_nothing() {
    assert_eq!(parse_aacp_battery(&[]), None);
    assert_eq!(parse_aacp_battery(&notification(&[])), None);
    assert_eq!(parse_aacp_battery(&notification(&[[4, 1, 101, 2, 1]])), None);
    assert_eq!(parse_aacp_battery(&notification(&[[4, 0, 50, 2, 1]])), None);
    assert_eq!(parse_aacp_battery(&notification(&[[4, 1, 50, 2, 0]])), None);
    assert_eq!(parse_aacp_battery(&notification(&[[4, 1, 50, 3, 1]])), None);
    assert_eq!(parse_aacp_battery(&notification(&[[1, 1, 50, 2, 1]])), None);
    let good = notification(&[[4, 1, 50, 2, 1]]);
    assert!(parse_aacp_battery(&good).is_some());
    assert_eq!(parse_aacp_battery(&good[..11]), None);
    let four = notification(&[[4, 1, 50, 2, 1]; 4]);
    assert_eq!(parse_aacp_battery(&four), None);
}

#[test]
fn scan_failures_have_messages() {
    let reason = || "down".to_string();
    let cases = [
        (ScanFailure::Bluez(reason()), "failed to connect to BlueZ: down"),
        (ScanFailure::Adapter(reason()), "failed to get the Bluetooth adapter: down"),
        (ScanFailure::Filter(reason()), "failed to configure BLE scan: down"),
        (ScanFailure::Start(reason()), "failed to start BLE scan: down"),
        (ScanFailure::Ended, "BLE scan ended before an AirPods advertisement was received"),
        (
            ScanFailure::TimedOut,
            "no AirPods battery advertisement found; open the case near this computer and try again",
        ),
    ];
    for (failure, message) in cases {
        assert_eq!(failure.message(), message);
    }
}

use airpods::bluez::{
    connection_wait, failure_message, list_airpods, BluezStage, DeviceChange, Interface, Property,
    PropertyValue,
};

fn text(name: &str, value: &str) -> Property {
    Property { name: name.to_string(), value: PropertyValue::Text(value.to_string()) }
}

fn flag(name: &str, value: bool) -> Property {
    Property { name: name.to_string(), value: PropertyValue::Flag(value) }
}

fn object(properties: Vec<Property>) -> Vec<Interface> {
    vec![
        Interface { name: "org.freedesktop.DBus.Properties".to_string(), properties: Vec::new() },
        Interface { name: "org.bluez.Device1".to_string(), properties },
    ]
}

#[test]
fn airpods_are_listed_by_address() {
    let objects = vec![
        object(vec![text("Address", "CC:00"), text("Name", "My AirPods"), flag("Connected", true)]),
        object(vec![text("Address", "BB:00"), text("Name", "Keyboard")]),
        object(vec![text("Address", "AA:00"), text("Alias", "AIRPODS pro")]),
        vec![Interface { name: "org.bluez.Adapter1".to_string(), properties: Vec::new() }],
        object(vec![text("Name", "AirPods without address")]),
    ];
    let devices = list_airpods(&objects, "cc:00");
    assert_eq!(devices.len(), 2);
    assert_eq!(devices[0].address, "AA:00");
    assert_eq!(devices[0].name, "AIRPODS pro");
    assert!(!devices[0].connected && !devices[0].selected);
    assert_eq!(devices[1].address, "CC:00");
    assert!(devices[1].connected && devices[1].selected);

    let reversed: Vec<_> = objects.into_iter().rev().collect();
    assert_eq!(list_airpods(&reversed, "cc:00"), devices);
}

#[test]
fn properties_of_another_type_count_as_missing() {
    let odd = |name: &str| Property { name: name.to_string(), value: PropertyValue::Other };
    let objects = vec![
        object(vec![odd("Address"), text("Name", "AirPods")]),
        object(vec![text("Address", "A"), odd("Name"), text("Alias", "airpods"), odd("Connected")]),
        object(vec![text("Address", "B")]),
    ];
    let devices = list_airpods(&objects, "");
    assert_eq!(devices.len(), 1);
    assert_eq!(devices[0].address, "A");
    assert!(!devices[0].connected);
}

#[test]
fn a_name_goes_before_an_alias() {
    let objects = vec![object(vec![
        text("Address", "A"),
        text("Alias", "AirPods"),
        text("Name", "Speaker"),
    ])];
    assert!(list_airpods(&objects, "A").is_empty());
}

#[test]
fn devices_with_equal_addresses_keep_their_order() {
    let objects = vec![
        object(vec![text("Address", "A"), text("Name", "AirPods 2")]),
        object(vec![text("Address", "A"), text("Name", "AirPods 1")]),
    ];
    let names: Vec<_> = list_airpods(&objects, "").into_iter().map(|d| d.name).collect();
    assert_eq!(names, ["AirPods 2", "AirPods 1"]);
}

#[test]
fn waiting_ends_with_a_connection_or_without_a_device() {
    assert_eq!(connection_wait(DeviceChange::Connected(true)), Some(Ok(())));
    assert_eq!(connection_wait(DeviceChange::Connected(false)), None);
    assert_eq!(connection_wait(DeviceChange::Other), None);
    assert_eq!(
        connection_wait(DeviceChange::Ended),
        Some(Err("selected AirPods disappeared from BlueZ while waiting for connection".to_string()))
    );
}

#[test]
fn failures_name_what_was_done() {
    for (stage, awaiting, message) in [
        (BluezStage::Session, true, "failed to connect to BlueZ while waiting for AirPods"),
        (BluezStage::Session, false, "failed to connect to BlueZ while checking AirPods"),
        (BluezStage::Adapter, true, "failed to get the Bluetooth adapter while waiting for AirPods"),
        (BluezStage::Adapter, false, "failed to get the Bluetooth adapter while checking AirPods"),
        (BluezStage::Device, true, "failed to access the selected AirPods in BlueZ"),
        (BluezStage::Monitor, true, "failed to monitor the selected AirPods connection"),
        (BluezStage::Read, false, "failed to read the selected AirPods connection state"),
    ] {
        assert_eq!(failure_message(stage, awaiting), message);
    }
}

//! What BlueZ reports of devices.
//!
//! Devices are read as BlueZ exports them: objects with interfaces, interfaces with
//! named properties of different types.
use crate::ipc::{device_views, DeviceInfo, DeviceView};
use crate::text::{
    comes_before, contains, eq_ignore_case, lowercase, occurs_in, same_ignoring_case, same_text,
    text_less, to_lowercase,
};
use vstd::prelude::*;

verus! {

/// The interface of BlueZ that describes a device.
pub const DEVICE_INTERFACE: &'static str = "org.bluez.Device1";

/// The error of waiting for a device that goes away.
pub const DEVICE_DISAPPEARED: &'static str =
    "selected AirPods disappeared from BlueZ while waiting for connection";

/// The value of a property, as far as its type matters here.
#[derive(Debug)]
pub enum PropertyValue {
    /// A text.
    Text(String),
    /// A boolean.
    Flag(bool),
    /// A value of any other type.
    Other,
}

/// A property with its name.
#[derive(Debug)]
pub struct Property {
    /// The name of the property.
    pub name: String,
    /// The value of the property.
    pub value: PropertyValue,
}

/// An interface of an object, with its properties.
#[derive(Debug)]
pub struct Interface {
    /// The name of the interface.
    pub name: String,
    /// The properties, each name at most once.
    pub properties: Vec<Property>,
}

/// The value of the first property with the given name.
pub open spec fn property(properties: Seq<Property>, name: Seq<char>) -> Option<PropertyValue>
    decreases properties.len(),
{
    if properties.len() == 0 {
        None
    } else if properties[0].name@ == name {
        Some(properties[0].value)
    } else {
        property(properties.skip(1), name)
    }
}

/// The text that a property holds, `None` where it is missing or no text.
pub open spec fn text_property(properties: Seq<Property>, name: Seq<char>) -> Option<Seq<char>> {
    match property(properties, name) {
        Some(PropertyValue::Text(text)) => Some(text@),
        _ => None,
    }
}

/// The boolean that a property holds, `None` where it is missing or no boolean.
pub open spec fn flag_property(properties: Seq<Property>, name: Seq<char>) -> Option<bool> {
    match property(properties, name) {
        Some(PropertyValue::Flag(flag)) => Some(flag),
        _ => None,
    }
}

/// The properties of the first interface that describes a device.
pub open spec fn device_properties(interfaces: Seq<Interface>) -> Option<Seq<Property>>
    decreases interfaces.len(),
{
    if interfaces.len() == 0 {
        None
    } else if interfaces[0].name@ == DEVICE_INTERFACE@ {
        Some(interfaces[0].properties@)
    } else {
        device_properties(interfaces.skip(1))
    }
}

/// The name of a device: its name, else its alias, else the empty text.
pub open spec fn device_name(properties: Seq<Property>) -> Seq<char> {
    match text_property(properties, "Name"@) {
        Some(name) => name,
        None => match text_property(properties, "Alias"@) {
            Some(alias) => alias,
            None => Seq::empty(),
        },
    }
}

/// The AirPods that an object describes: it has the interface of a device, an
/// address, and a name that holds `airpods` in any case.
pub open spec fn airpods_of(interfaces: Seq<Interface>, selected: Seq<char>) -> Option<DeviceView> {
    match device_properties(interfaces) {
        None => None,
        Some(properties) => match text_property(properties, "Address"@) {
            None => None,
            Some(address) => if occurs_in("airpods"@, lowercase(device_name(properties))) {
                Some(
                    DeviceView {
                        address,
                        name: device_name(properties),
                        connected: flag_property(properties, "Connected"@) == Some(true),
                        selected: same_ignoring_case(address, selected),
                    },
                )
            } else {
                None
            },
        },
    }
}

/// The interfaces of a list of objects.
pub open spec fn interfaces_of(objects: Seq<Vec<Interface>>) -> Seq<Seq<Interface>> {
    objects.map_values(|o: Vec<Interface>| o@)
}

/// The AirPods among objects, in the order of the objects.
pub open spec fn airpods_among(objects: Seq<Seq<Interface>>, selected: Seq<char>) -> Seq<DeviceView>
    decreases objects.len(),
{
    if objects.len() == 0 {
        Seq::empty()
    } else {
        let before = airpods_among(objects.drop_last(), selected);
        match airpods_of(objects.last(), selected) {
            Some(device) => before.push(device),
            None => before,
        }
    }
}

/// A device put into a list: before the first device with a greater address.
pub open spec fn inserted(devices: Seq<DeviceView>, device: DeviceView) -> Seq<DeviceView>
    decreases devices.len(),
{
    if devices.len() == 0 || !text_less(device.address, devices.last().address) {
        devices.push(device)
    } else {
        inserted(devices.drop_last(), device).push(devices.last())
    }
}

/// Devices in the order of their addresses; those with equal addresses keep their
/// order.
pub open spec fn by_address(devices: Seq<DeviceView>) -> Seq<DeviceView>
    decreases devices.len(),
{
    if devices.len() == 0 {
        Seq::empty()
    } else {
        inserted(by_address(devices.drop_last()), devices.last())
    }
}

fn find_property<'a>(properties: &'a Vec<Property>, name: &str) -> (value: Option<&'a PropertyValue>)
    ensures
        match value {
            Some(value) => property(properties@, name@) == Some(*value),
            None => property(properties@, name@) is None,
        },
{
    proof {
        assert(properties@.skip(0) =~= properties@);
    }
    for i in 0..properties.len()
        invariant
            property(properties@, name@) == property(properties@.skip(i as int), name@),
    {
        proof {
            assert(properties@.skip(i as int).skip(1) =~= properties@.skip(i + 1));
        }
        if same_text(properties[i].name.as_str(), name) {
            return Some(&properties[i].value);
        }
    }
    None
}

/// The text that a property holds, `None` where it is missing or no text.
fn string_property(properties: &Vec<Property>, name: &str) -> (text: Option<String>)
    ensures
        crate::text::text_option(text) == text_property(properties@, name@),
{
    match find_property(properties, name) {
        Some(PropertyValue::Text(text)) => Some(text.clone()),
        _ => None,
    }
}

/// The boolean that a property holds, `None` where it is missing or no boolean.
fn bool_property(properties: &Vec<Property>, name: &str) -> (flag: Option<bool>)
    ensures
        flag == flag_property(properties@, name@),
{
    match find_property(properties, name) {
        Some(PropertyValue::Flag(flag)) => Some(*flag),
        _ => None,
    }
}

fn find_device(interfaces: &Vec<Interface>) -> (found: Option<&Vec<Property>>)
    ensures
        match found {
            Some(properties) => device_properties(interfaces@) == Some(properties@),
            None => device_properties(interfaces@) is None,
        },
{
    proof {
        assert(interfaces@.skip(0) =~= interfaces@);
    }
    for i in 0..interfaces.len()
        invariant
            device_properties(interfaces@) == device_properties(interfaces@.skip(i as int)),
    {
        proof {
            assert(interfaces@.skip(i as int).skip(1) =~= interfaces@.skip(i + 1));
        }
        if same_text(interfaces[i].name.as_str(), DEVICE_INTERFACE) {
            return Some(&interfaces[i].properties);
        }
    }
    None
}

fn read_airpods(interfaces: &Vec<Interface>, selected: &str) -> (device: Option<DeviceInfo>)
    ensures
        match device {
            Some(device) => airpods_of(interfaces@, selected@) == Some(device@),
            None => airpods_of(interfaces@, selected@) is None,
        },
{
    let properties = match find_device(interfaces) {
        Some(properties) => properties,
        None => {
            return None;
        },
    };
    let address = match string_property(properties, "Address") {
        Some(address) => address,
        None => {
            return None;
        },
    };
    let name = match string_property(properties, "Name") {
        Some(name) => name,
        None => match string_property(properties, "Alias") {
            Some(alias) => alias,
            None => String::new(),
        },
    };
    assert(name@ == device_name(properties@));
    if !contains(to_lowercase(name.as_str()).as_str(), "airpods") {
        return None;
    }
    let connected = match bool_property(properties, "Connected") {
        Some(connected) => connected,
        None => false,
    };
    let selected = eq_ignore_case(address.as_str(), selected);
    Some(DeviceInfo { address, name, connected, selected })
}

/// Puts a device into a list, before the first device with a greater address.
fn insert(devices: &mut Vec<DeviceInfo>, device: DeviceInfo)
    ensures
        device_views(final(devices)@) == inserted(device_views(old(devices)@), device@),
{
    let mut at: usize = devices.len();
    let ghost views = device_views(devices@);
    proof {
        assert(views.skip(at as int) =~= Seq::<DeviceView>::empty());
        assert(views.take(at as int) =~= views);
        assert(inserted(views, device@) + Seq::<DeviceView>::empty() =~= inserted(views, device@));
    }
    while at > 0 && comes_before(device.address.as_str(), devices[at - 1].address.as_str())
        invariant
            at <= devices.len(),
            views == device_views(devices@),
            devices@ == old(devices)@,
            inserted(views, device@) == inserted(views.take(at as int), device@) + views.skip(
                at as int,
            ),
        ensures
            at == 0 || !text_less(device.address@, views[at - 1].address),
        decreases at,
    {
        proof {
            let front = views.take(at as int);
            assert(front.last() == views[at - 1]);
            assert(front.drop_last() =~= views.take(at - 1));
            assert(inserted(front, device@) == inserted(views.take(at - 1), device@).push(
                views[at - 1],
            ));
            assert(inserted(views.take(at - 1), device@).push(views[at - 1]) + views.skip(at as int)
                =~= inserted(views.take(at - 1), device@) + views.skip(at - 1));
        }
        at = at - 1;
    }
    proof {
        let front = views.take(at as int);
        if at > 0 {
            assert(front.last() == views[at - 1]);
        }
        assert(inserted(front, device@) == front.push(device@));
    }
    devices.insert(at, device);
    assert(device_views(devices@) =~= views.take(at as int).push(device@) + views.skip(at as int));
}

/// The AirPods among the objects that BlueZ exports, in the order of their
/// addresses.
pub fn list_airpods(objects: &Vec<Vec<Interface>>, selected: &str) -> (devices: Vec<DeviceInfo>)
    ensures
        device_views(devices@) == by_address(airpods_among(interfaces_of(objects@), selected@)),
        ordered(device_views(devices@)),
{
    let mut devices: Vec<DeviceInfo> = Vec::new();
    proof {
        assert(device_views(devices@) =~= Seq::<DeviceView>::empty());
        assert(interfaces_of(objects@).take(0) =~= Seq::<Seq<Interface>>::empty());
    }
    for i in 0..objects.len()
        invariant
            device_views(devices@) == by_address(
                airpods_among(interfaces_of(objects@).take(i as int), selected@),
            ),
    {
        proof {
            let front = interfaces_of(objects@).take(i + 1);
            assert(front.drop_last() =~= interfaces_of(objects@).take(i as int));
            assert(front.last() == objects@[i as int]@);
        }
        match read_airpods(&objects[i], selected) {
            Some(device) => {
                proof {
                    let before = airpods_among(interfaces_of(objects@).take(i as int), selected@);
                    assert(before.push(device@).drop_last() =~= before);
                }
                insert(&mut devices, device);
            },
            None => {},
        }
    }
    proof {
        assert(interfaces_of(objects@).take(objects@.len() as int) =~= interfaces_of(objects@));
        law_list_is_ordered(airpods_among(interfaces_of(objects@), selected@));
    }
    devices
}

/// What is being done with BlueZ.
#[derive(Clone, Copy, Debug, PartialEq, Eq, Structural)]
pub enum BluezStage {
    /// Reaching BlueZ.
    Session,
    /// Getting the adapter.
    Adapter,
    /// Getting the device.
    Device,
    /// Subscribing to changes of the device.
    Monitor,
    /// Reading whether the device is connected.
    Read,
}

/// The message of a stage that failed, while the device is awaited or only checked.
pub open spec fn stage_failure(stage: BluezStage, awaiting: bool) -> Seq<char> {
    match stage {
        BluezStage::Session => if awaiting {
            "failed to connect to BlueZ while waiting for AirPods"@
        } else {
            "failed to connect to BlueZ while checking AirPods"@
        },
        BluezStage::Adapter => if awaiting {
            "failed to get the Bluetooth adapter while waiting for AirPods"@
        } else {
            "failed to get the Bluetooth adapter while checking AirPods"@
        },
        BluezStage::Device => "failed to access the selected AirPods in BlueZ"@,
        BluezStage::Monitor => "failed to monitor the selected AirPods connection"@,
        BluezStage::Read => "failed to read the selected AirPods connection state"@,
    }
}

/// The message of a stage that failed, while the device is awaited or only checked.
pub fn failure_message(stage: BluezStage, awaiting: bool) -> (message: &'static str)
    ensures
        message@ == stage_failure(stage, awaiting),
{
    match stage {
        BluezStage::Session => if awaiting {
            "failed to connect to BlueZ while waiting for AirPods"
        } else {
            "failed to connect to BlueZ while checking AirPods"
        },
        BluezStage::Adapter => if awaiting {
            "failed to get the Bluetooth adapter while waiting for AirPods"
        } else {
            "failed to get the Bluetooth adapter while checking AirPods"
        },
        BluezStage::Device => "failed to access the selected AirPods in BlueZ",
        BluezStage::Monitor => "failed to monitor the selected AirPods connection",
        BluezStage::Read => "failed to read the selected AirPods connection state",
    }
}

/// What happens while a device is awaited.
#[derive(Clone, Copy, Debug, PartialEq, Eq, Structural)]
pub enum DeviceChange {
    /// The connection of the device changed.
    Connected(bool),
    /// Something else about the device changed.
    Other,
    /// No more changes come.
    Ended,
}

/// Decides whether waiting for a connection is over, and how.
pub fn connection_wait(change: DeviceChange) -> (over: Option<Result<(), String>>)
    ensures
        match change {
            DeviceChange::Connected(true) => over == Some(Ok::<(), String>(())),
            DeviceChange::Ended => over matches Some(Err(message)) && message@
                == DEVICE_DISAPPEARED@,
            _ => over is None,
        },
{
    match change {
        DeviceChange::Connected(connected) => if connected {
            Some(Ok(()))
        } else {
            None
        },
        DeviceChange::Other => None,
        DeviceChange::Ended => Some(Err(DEVICE_DISAPPEARED.to_owned())),
    }
}

/// Whether no device stands behind one with a greater address.
pub open spec fn ordered(devices: Seq<DeviceView>) -> bool {
    forall|i: int, j: int|
        0 <= i < j < devices.len() ==> !text_less(
            #[trigger] devices[j].address,
            #[trigger] devices[i].address,
        )
}

proof fn lemma_less_is_transitive(a: Seq<char>, b: Seq<char>, c: Seq<char>)
    ensures
        text_less(a, b) && text_less(b, c) ==> text_less(a, c),
        text_less(a, b) ==> !text_less(b, a),
        !text_less(a, b) && !text_less(b, a) ==> a == b,
    decreases a.len(),
{
    if a.len() > 0 && b.len() > 0 && c.len() > 0 {
        lemma_less_is_transitive(a.skip(1), b.skip(1), c.skip(1));
    }
    if a.len() > 0 && b.len() > 0 {
        lemma_less_is_transitive(a.skip(1), b.skip(1), b.skip(1));
        if !text_less(a, b) && !text_less(b, a) {
            assert(a =~= seq![a[0]] + a.skip(1));
            assert(b =~= seq![b[0]] + b.skip(1));
        }
    }
    if !text_less(a, b) && !text_less(b, a) && (a.len() == 0 || b.len() == 0) {
        assert(a =~= b);
    }
}

proof fn lemma_inserted(devices: Seq<DeviceView>, device: DeviceView)
    requires
        ordered(devices),
    ensures
        ordered(inserted(devices, device)),
        inserted(devices, device).to_multiset() == devices.to_multiset().insert(device),
    decreases devices.len(),
{
    broadcast use vstd::seq_lib::group_to_multiset_ensures;

    if devices.len() == 0 || !text_less(device.address, devices.last().address) {
        assert forall|i: int| 0 <= i < devices.len() implies !text_less(
            device.address,
            #[trigger] devices[i].address,
        ) by {
            lemma_less_is_transitive(device.address, devices[i].address, devices.last().address);
            lemma_less_is_transitive(devices[i].address, devices.last().address, device.address);
            lemma_less_is_transitive(devices.last().address, devices[i].address, device.address);
        }
    } else {
        let front = devices.drop_last();
        lemma_inserted(front, device);
        let placed = inserted(front, device);
        assert(devices =~= front.push(devices.last()));
        assert forall|i: int| 0 <= i < placed.len() implies !text_less(
            devices.last().address,
            #[trigger] placed[i].address,
        ) by {
            assert(placed.to_multiset().contains(placed[i]));
            if placed[i] == device {
                lemma_less_is_transitive(device.address, devices.last().address, device.address);
            } else {
                assert(front.to_multiset().contains(placed[i]));
                let k = choose|k: int| 0 <= k < front.len() && front[k] == placed[i];
                assert(!text_less(devices[devices.len() - 1].address, devices[k].address));
            }
        }
        assert(placed.push(devices.last()).to_multiset() =~= devices.to_multiset().insert(device));
    }
}

/// The list of AirPods is in the order of the addresses and holds exactly what was
/// found.
pub proof fn law_list_is_ordered(devices: Seq<DeviceView>)
    ensures
        ordered(by_address(devices)),
        by_address(devices).to_multiset() == devices.to_multiset(),
    decreases devices.len(),
{
    broadcast use vstd::seq_lib::group_to_multiset_ensures;

    if devices.len() > 0 {
        law_list_is_ordered(devices.drop_last());
        lemma_inserted(by_address(devices.drop_last()), devices.last());
        assert(devices =~= devices.drop_last().push(devices.last()));
    }
}

/// Whether devices with the same address are the same device.
pub open spec fn told_apart_by_address(devices: Seq<DeviceView>) -> bool {
    forall|i: int, j: int|
        0 <= i < devices.len() && 0 <= j < devices.len() && #[trigger] devices[i].address
            == #[trigger] devices[j].address ==> devices[i] == devices[j]
}

proof fn lemma_ordered_is_unique(left: Seq<DeviceView>, right: Seq<DeviceView>)
    requires
        ordered(left),
        ordered(right),
        left.to_multiset() == right.to_multiset(),
        told_apart_by_address(left),
    ensures
        left == right,
    decreases left.len(),
{
    broadcast use vstd::seq_lib::group_to_multiset_ensures;

    assert(left.len() == left.to_multiset().len());
    assert(right.len() == right.to_multiset().len());
    if left.len() == 0 {
        assert(left =~= right);
    } else {
        let a = left.last();
        let b = right.last();
        assert(right.to_multiset().contains(a)) by {
            assert(left.contains(a));
        }
        assert(left.to_multiset().contains(b)) by {
            assert(right.contains(b));
        }
        let i = choose|i: int| 0 <= i < left.len() && left[i] == b;
        let j = choose|j: int| 0 <= j < right.len() && right[j] == a;
        if i < left.len() - 1 {
            assert(!text_less(left[left.len() - 1].address, left[i].address));
        }
        if j < right.len() - 1 {
            assert(!text_less(right[right.len() - 1].address, right[j].address));
        }
        lemma_less_is_transitive(a.address, b.address, a.address);
        lemma_less_is_transitive(a.address, a.address, a.address);
        assert(left[i].address == left[left.len() - 1].address);
        assert(a == b);
        let front = left.drop_last();
        let other = right.drop_last();
        assert(left =~= front.push(a));
        assert(right =~= other.push(b));
        assert(front.to_multiset() =~= left.to_multiset().remove(a));
        assert(other.to_multiset() =~= right.to_multiset().remove(b));
        assert(told_apart_by_address(front)) by {
            assert forall|x: int, y: int|
                0 <= x < front.len() && 0 <= y < front.len() && #[trigger] front[x].address
                    == #[trigger] front[y].address implies front[x] == front[y] by {
                assert(left[x].address == left[y].address);
            }
        }
        assert(ordered(front)) by {
            assert forall|x: int, y: int| 0 <= x < y < front.len() implies !text_less(
                #[trigger] front[y].address,
                #[trigger] front[x].address,
            ) by {
                assert(!text_less(left[y].address, left[x].address));
            }
        }
        assert(ordered(other)) by {
            assert forall|x: int, y: int| 0 <= x < y < other.len() implies !text_less(
                #[trigger] other[y].address,
                #[trigger] other[x].address,
            ) by {
                assert(!text_less(right[y].address, right[x].address));
            }
        }
        lemma_ordered_is_unique(front, other);
    }
}

/// The list of AirPods does not depend on the order in which they were found.
pub proof fn law_list_ignores_finding_order(found: Seq<DeviceView>, again: Seq<DeviceView>)
    requires
        found.to_multiset() == again.to_multiset(),
        told_apart_by_address(found),
    ensures
        by_address(found) == by_address(again),
{
    broadcast use vstd::seq_lib::group_to_multiset_ensures;

    law_list_is_ordered(found);
    law_list_is_ordered(again);
    let list = by_address(found);
    assert forall|i: int, j: int|
        0 <= i < list.len() && 0 <= j < list.len() && #[trigger] list[i].address
            == #[trigger] list[j].address implies list[i] == list[j] by {
        assert(found.to_multiset().contains(list[i])) by {
            assert(list.contains(list[i]));
        }
        assert(found.to_multiset().contains(list[j])) by {
            assert(list.contains(list[j]));
        }
        let x = choose|x: int| 0 <= x < found.len() && found[x] == list[i];
        let y = choose|y: int| 0 <= y < found.len() && found[y] == list[j];
        assert(found[x].address == found[y].address);
    }
    lemma_ordered_is_unique(list, by_address(again));
}

/// Of several properties with one name the first one counts, and a name that no property has
/// gives nothing.
pub proof fn law_the_first_property_counts(properties: Seq<Property>, name: Seq<char>, i: int)
    requires
        0 <= i <= properties.len(),
        forall|j: int| 0 <= j < i ==> (#[trigger] properties[j]).name@ != name,
        i < properties.len() ==> properties[i].name@ == name,
    ensures
        i < properties.len() ==> property(properties, name) == Some(properties[i].value),
        i == properties.len() ==> property(properties, name) is None,
        text_property(properties, name) == match property(properties, name) {
            Some(PropertyValue::Text(text)) => Some(text@),
            _ => None,
        },
        flag_property(properties, name) == match property(properties, name) {
            Some(PropertyValue::Flag(flag)) => Some(flag),
            _ => None,
        },
    decreases properties.len(),
{
    if i > 0 {
        let rest = properties.skip(1);
        assert(properties[0].name@ != name);
        assert forall|j: int| 0 <= j < i - 1 implies (#[trigger] rest[j]).name@ != name by {
            assert(properties[j + 1].name@ != name);
        }
        law_the_first_property_counts(rest, name, i - 1);
    }
}

/// The properties of a device are those of the first interface `org.bluez.Device1`; an object
/// without that interface is no device.
pub proof fn law_devices_have_their_interface(interfaces: Seq<Interface>, i: int)
    requires
        0 <= i <= interfaces.len(),
        forall|j: int| 0 <= j < i ==> (#[trigger] interfaces[j]).name@ != "org.bluez.Device1"@,
        i < interfaces.len() ==> interfaces[i].name@ == "org.bluez.Device1"@,
    ensures
        i < interfaces.len() ==> device_properties(interfaces) == Some(interfaces[i].properties@),
        i == interfaces.len() ==> device_properties(interfaces) is None,
    decreases interfaces.len(),
{
    if i > 0 {
        let rest = interfaces.skip(1);
        assert(interfaces[0].name@ != "org.bluez.Device1"@);
        assert forall|j: int| 0 <= j < i - 1 implies (#[trigger] rest[j]).name@
            != "org.bluez.Device1"@ by {
            assert(interfaces[j + 1].name@ != "org.bluez.Device1"@);
        }
        law_devices_have_their_interface(rest, i - 1);
    }
}

/// Whether the properties of an object are those of the given AirPods: its address, its name
/// or else its alias, in which `airpods` occurs in any case, and whether it is connected.
pub open spec fn properties_are_those_of(
    properties: Seq<Property>,
    address: Seq<char>,
    name: Seq<char>,
    connected: bool,
) -> bool {
    &&& text_property(properties, "Address"@) == Some(address)
    &&& text_property(properties, "Name"@) is Some ==> text_property(properties, "Name"@) == Some(
        name,
    )
    &&& text_property(properties, "Name"@) is None && text_property(properties, "Alias"@) is Some
        ==> text_property(properties, "Alias"@) == Some(name)
    &&& text_property(properties, "Name"@) is None && text_property(properties, "Alias"@) is None
        ==> name.len() == 0
    &&& exists|at: int| 0 <= at && at + 7 <= name.len() && #[trigger] same_ignoring_case(
        name.subrange(at, at + 7),
        "airpods"@,
    )
    &&& connected <==> flag_property(properties, "Connected"@) == Some(true)
}

proof fn lemma_airpods_in_name(name: Seq<char>)
    ensures
        occurs_in("airpods"@, lowercase(name)) <==> exists|at: int|
            0 <= at && at + 7 <= name.len() && #[trigger] same_ignoring_case(
                name.subrange(at, at + 7),
                "airpods"@,
            ),
{
    reveal_strlit("airpods");
    let word = "airpods"@;
    let lowered = lowercase(name);
    assert(lowercase(word) =~= word);
    if occurs_in(word, lowered) {
        let at = choose|at: int| #[trigger] crate::text::stands_at(lowered, word, at);
        assert(lowercase(name.subrange(at, at + 7)) =~= lowered.subrange(at, at + 7));
        assert(same_ignoring_case(name.subrange(at, at + 7), word));
    }
    if exists|at: int|
        0 <= at && at + 7 <= name.len() && #[trigger] same_ignoring_case(
            name.subrange(at, at + 7),
            word,
        ) {
        let at = choose|at: int|
            0 <= at && at + 7 <= name.len() && #[trigger] same_ignoring_case(
                name.subrange(at, at + 7),
                word,
            );
        assert(lowercase(name.subrange(at, at + 7)) =~= lowered.subrange(at, at + 7));
        assert(crate::text::stands_at(lowered, word, at));
    }
}

proof fn lemma_airpods_of(interfaces: Seq<Interface>, selected: Seq<char>)
    ensures
        airpods_of(interfaces, selected) matches Some(device) ==> device_properties(interfaces)
            is Some && properties_are_those_of(
            device_properties(interfaces)->0,
            device.address,
            device.name,
            device.connected,
        ),
        airpods_of(interfaces, selected) is None ==> device_properties(interfaces) is None
            || forall|address: Seq<char>, name: Seq<char>, connected: bool|
            !#[trigger] properties_are_those_of(
                device_properties(interfaces)->0,
                address,
                name,
                connected,
            ),
{
    if let Some(properties) = device_properties(interfaces) {
        lemma_airpods_in_name(device_name(properties));
        if airpods_of(interfaces, selected) is None {
            assert forall|address: Seq<char>, name: Seq<char>, connected: bool|
                !#[trigger] properties_are_those_of(properties, address, name, connected) by {
                if properties_are_those_of(properties, address, name, connected) {
                    assert(name =~= device_name(properties));
                }
            }
        }
    }
}

proof fn lemma_among(objects: Seq<Seq<Interface>>, selected: Seq<char>, i: int) -> (k: int)
    requires
        0 <= i < airpods_among(objects, selected).len(),
    ensures
        0 <= k < objects.len(),
        airpods_of(objects[k], selected) == Some(airpods_among(objects, selected)[i]),
    decreases objects.len(),
{
    let before = airpods_among(objects.drop_last(), selected);
    if i < before.len() {
        let k = lemma_among(objects.drop_last(), selected, i);
        assert(objects.drop_last()[k] == objects[k]);
        k
    } else {
        objects.len() - 1
    }
}

proof fn lemma_listed(objects: Seq<Seq<Interface>>, selected: Seq<char>, i: int) -> (k: int)
    requires
        0 <= i < by_address(airpods_among(objects, selected)).len(),
    ensures
        0 <= k < objects.len(),
        airpods_of(objects[k], selected) == Some(by_address(airpods_among(objects, selected))[i]),
{
    broadcast use vstd::seq_lib::group_to_multiset_ensures;

    let found = airpods_among(objects, selected);
    let list = by_address(found);
    law_list_is_ordered(found);
    assert(list.contains(list[i]));
    assert(list.to_multiset().contains(list[i]));
    assert(found.to_multiset().contains(list[i]));
    let j = choose|j: int| 0 <= j < found.len() && found[j] == list[i];
    lemma_among(objects, selected, j)
}

/// Every listed device is marked as selected exactly where its address is the selected one,
/// letter by letter and up to ASCII case, whatever else is known of it.
pub proof fn law_selected_marks_follow_the_address(
    objects: &Vec<Vec<Interface>>,
    selected: &str,
    devices: Vec<DeviceInfo>,
    i: int,
)
    requires
        call_ensures(list_airpods, (objects, selected), devices),
        0 <= i < devices@.len(),
    ensures
        devices@[i].selected <==> devices@[i].address@.len() == selected@.len() && forall|j: int|
            0 <= j < selected@.len() ==> crate::text::same_letter(
                devices@[i].address@[j],
                #[trigger] selected@[j],
            ),
{
    let views = device_views(devices@);
    assert(views[i] == devices@[i]@);
    let k = lemma_listed(interfaces_of(objects@), selected@, i);
    assert(views[i].selected == same_ignoring_case(views[i].address, selected@));
    crate::text::law_only_letters_have_a_case(selected@, devices@[i].address@);
}

/// Every listed device is one of the objects that BlueZ exports, with the address, the name
/// and the connection that are stated there.
pub proof fn law_listed_devices_are_as_bluez_states(
    objects: &Vec<Vec<Interface>>,
    selected: &str,
    devices: Vec<DeviceInfo>,
    i: int,
)
    requires
        call_ensures(list_airpods, (objects, selected), devices),
        0 <= i < devices@.len(),
    ensures
        exists|k: int|
            0 <= k < objects@.len() && device_properties((#[trigger] objects@[k])@) is Some
                && properties_are_those_of(
                device_properties(objects@[k]@)->0,
                devices@[i].address@,
                devices@[i].name@,
                devices@[i].connected,
            ),
{
    let views = device_views(devices@);
    assert(views[i] == devices@[i]@);
    let k = lemma_listed(interfaces_of(objects@), selected@, i);
    assert(interfaces_of(objects@)[k] == objects@[k]@);
    lemma_airpods_of(objects@[k]@, selected@);
}

/// Each object counts once: one more object adds its own device to the list where it is a
/// pair of AirPods, and nothing where it is not. Without objects the list is empty.
pub proof fn law_each_object_adds_its_device(
    objects: &Vec<Vec<Interface>>,
    more: &Vec<Vec<Interface>>,
    object: Vec<Interface>,
    selected: &str,
    devices: Vec<DeviceInfo>,
    longer: Vec<DeviceInfo>,
)
    requires
        call_ensures(list_airpods, (objects, selected), devices),
        call_ensures(list_airpods, (more, selected), longer),
        more@ == objects@.push(object),
    ensures
        objects@.len() == 0 ==> devices@.len() == 0,
        (device_properties(object@) is None || forall|address: Seq<char>, name: Seq<char>, connected: bool|
            !#[trigger] properties_are_those_of(
                device_properties(object@)->0,
                address,
                name,
                connected,
            )) ==> device_views(longer@).to_multiset() == device_views(devices@).to_multiset(),
        forall|device: DeviceView| #[trigger]
            properties_are_those_of(
                device_properties(object@)->0,
                device.address,
                device.name,
                device.connected,
            ) && device_properties(object@) is Some && (device.selected <==> same_ignoring_case(
                device.address,
                selected@,
            )) ==> device_views(longer@).to_multiset() == device_views(
                devices@,
            ).to_multiset().insert(device),
{
    broadcast use vstd::seq_lib::group_to_multiset_ensures;

    let few = interfaces_of(objects@);
    let many = interfaces_of(more@);
    let before = airpods_among(few, selected@);
    let after = airpods_among(many, selected@);
    assert(many.drop_last() =~= few);
    assert(many.last() == object@);
    law_list_is_ordered(before);
    law_list_is_ordered(after);
    lemma_airpods_of(object@, selected@);
    if objects@.len() == 0 {
        assert(device_views(devices@).len() == devices@.len());
        assert(by_address(before).len() == 0);
    }
    if let Some(found) = airpods_of(object@, selected@) {
        assert forall|device: DeviceView| #[trigger]
            properties_are_those_of(
                device_properties(object@)->0,
                device.address,
                device.name,
                device.connected,
            ) && device_properties(object@) is Some && (device.selected <==> same_ignoring_case(
                device.address,
                selected@,
            )) implies device_views(longer@).to_multiset() == device_views(
            devices@,
        ).to_multiset().insert(device) by {
            assert(device.name =~= found.name);
            assert(device == found);
            assert(after == before.push(found));
        }
    }
}

/// The list stands in the order of the addresses, whatever the order of the objects.
pub proof fn law_listed_addresses_ascend(
    objects: &Vec<Vec<Interface>>,
    selected: &str,
    devices: Vec<DeviceInfo>,
    i: int,
    j: int,
)
    requires
        call_ensures(list_airpods, (objects, selected), devices),
        0 <= i < j < devices@.len(),
    ensures
        devices@[i].address@ == devices@[j].address@ || text_less(
            devices@[i].address@,
            devices@[j].address@,
        ),
{
    let views = device_views(devices@);
    assert(views[i] == devices@[i]@ && views[j] == devices@[j]@);
    assert(!text_less(views[j].address, views[i].address));
    lemma_less_is_transitive(views[i].address, views[j].address, views[i].address);
}

/// Waiting for a device is over once it is connected, or without success once no more changes
/// come; nothing else ends it.
pub proof fn law_waiting_ends_with_a_connection(
    change: DeviceChange,
    over: Option<Result<(), String>>,
)
    requires
        call_ensures(connection_wait, (change,), over),
    ensures
        (over is Some && over->0 is Ok) <==> change == DeviceChange::Connected(true),
        (over is Some && over->0 is Err) <==> change == DeviceChange::Ended,
{
}

proof fn lemma_inserted_at(devices: Seq<DeviceView>, device: DeviceView) -> (k: int)
    ensures
        0 <= k <= devices.len(),
        inserted(devices, device) == devices.insert(k, device),
        forall|j: int|
            k <= j < devices.len() ==> text_less(device.address, (#[trigger] devices[j]).address),
    decreases devices.len(),
{
    if devices.len() == 0 || !text_less(device.address, devices.last().address) {
        assert(devices.push(device) =~= devices.insert(devices.len() as int, device));
        devices.len() as int
    } else {
        let front = devices.drop_last();
        let k = lemma_inserted_at(front, device);
        assert(front.insert(k, device).push(devices.last()) =~= devices.insert(k, device));
        assert forall|j: int| k <= j < devices.len() implies text_less(
            device.address,
            (#[trigger] devices[j]).address,
        ) by {
            if j < front.len() {
                assert(front[j] == devices[j]);
            }
        }
        k
    }
}

/// One more pair of AirPods goes into the list without moving the others among themselves, before
/// those with a greater address only: so devices with equal addresses keep the order in which BlueZ
/// exports them.
pub proof fn law_equal_addresses_keep_their_order(
    objects: &Vec<Vec<Interface>>,
    more: &Vec<Vec<Interface>>,
    object: Vec<Interface>,
    selected: &str,
    devices: Vec<DeviceInfo>,
    longer: Vec<DeviceInfo>,
)
    requires
        call_ensures(list_airpods, (objects, selected), devices),
        call_ensures(list_airpods, (more, selected), longer),
        more@ == objects@.push(object),
    ensures
        device_views(longer@) == device_views(devices@) || exists|k: int, device: DeviceView|
            0 <= k <= devices@.len() && device_views(longer@) == #[trigger] device_views(
                devices@,
            ).insert(k, device) && forall|j: int|
                k <= j < devices@.len() ==> text_less(
                    device.address,
                    (#[trigger] devices@[j]).address@,
                ),
{
    let few = interfaces_of(objects@);
    let many = interfaces_of(more@);
    let before = airpods_among(few, selected@);
    assert(many.drop_last() =~= few);
    assert(many.last() == object@);
    if let Some(found) = airpods_of(object@, selected@) {
        assert(before.push(found).drop_last() =~= before);
        let list = by_address(before);
        let k = lemma_inserted_at(list, found);
        assert(list == device_views(devices@));
        assert(list.len() == devices@.len());
        assert(device_views(longer@) == device_views(devices@).insert(k, found));
        assert forall|j: int| k <= j < devices@.len() implies text_less(
            found.address,
            (#[trigger] devices@[j]).address@,
        ) by {
            assert(list[j] == devices@[j]@);
        }
    }
}

} // verus!

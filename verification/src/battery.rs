//! Battery state from Apple BLE manufacturer data and from AACP notifications.
use crate::aacp::{begins_with, packet_starts_with};
use crate::address::{address_text, displayed};
use crate::domain::{AirPodsBattery, BatteryLevel};
use std::collections::HashMap;
use vstd::prelude::*;

verus! {

/// The company code under which Apple publishes manufacturer data.
pub const APPLE_COMPANY_ID: u16 = 0x004c;

/// How long a scan waits for an advertisement.
pub const SCAN_TIMEOUT_MS: u64 = 10_000;

/// The error of a scan whose events ended early.
pub const SCAN_ENDED: &'static str =
    "BLE scan ended before an AirPods advertisement was received";

/// The error of a scan in which nothing was found in time.
pub const SCAN_TIMED_OUT: &'static str =
    "no AirPods battery advertisement found; open the case near this computer and try again";

/// The number of bytes of one battery in an AACP notification.
pub const AACP_BATTERY_ITEM_SIZE: usize = 5;

/// The largest number of batteries in an AACP notification.
pub const AACP_MAX_BATTERY_ITEMS: usize = 3;

/// The battery values that came with one AACP notification.
#[derive(Clone, Copy, Debug, PartialEq, Eq, Structural)]
pub struct AacpBatteryUpdate {
    pub left: Option<BatteryLevel>,
    pub right: Option<BatteryLevel>,
    pub case: Option<BatteryLevel>,
}

impl AacpBatteryUpdate {
    /// Whether the levels of the update are in range.
    pub open spec fn in_range(self) -> bool {
        &&& self.left matches Some(level) ==> level.in_range()
        &&& self.right matches Some(level) ==> level.in_range()
        &&& self.case matches Some(level) ==> level.in_range()
    }
}

impl Default for AacpBatteryUpdate {
    /// An update without any value.
    fn default() -> (update: AacpBatteryUpdate)
        ensures
            update == (AacpBatteryUpdate { left: None, right: None, case: None }),
    {
        AacpBatteryUpdate { left: None, right: None, case: None }
    }
}

/// The model code of an advertisement, in big-endian order.
pub open spec fn model_of(data: Seq<u8>) -> u16 {
    (data[3] * 256 + data[4]) as u16
}

/// The name of a model, `None` where the model is no known one.
pub open spec fn known_model(model_id: u16) -> Option<Seq<char>> {
    if model_id == 0x0220 {
        Some("AirPods 1"@)
    } else if model_id == 0x0f20 {
        Some("AirPods 2"@)
    } else if model_id == 0x1320 {
        Some("AirPods 3"@)
    } else if model_id == 0x0e20 {
        Some("AirPods Pro"@)
    } else if model_id == 0x1420 {
        Some("AirPods Pro 2 (Lightning)"@)
    } else if model_id == 0x2420 {
        Some("AirPods Pro 2 (USB-C)"@)
    } else if model_id == 0x0a20 {
        Some("AirPods Max (Lightning)"@)
    } else if model_id == 0x1f20 {
        Some("AirPods Max (USB-C)"@)
    } else if model_id == 0x1920 {
        Some("AirPods 4"@)
    } else if model_id == 0x1b20 {
        Some("AirPods 4 (ANC)"@)
    } else if model_id == 0x2720 {
        Some("AirPods Pro (model 2720)"@)
    } else {
        None
    }
}

/// Whether manufacturer data is a proximity advertisement of known AirPods.
pub open spec fn is_advertisement(data: Seq<u8>) -> bool {
    &&& data.len() >= 11
    &&& data[0] == 0x07
    &&& data[1] == 0x19
    &&& data[2] == 0x01
    &&& known_model(model_of(data)) is Some
}

/// Bit `n` of a byte, counted from the lowest.
pub open spec fn bit(byte: u8, n: nat) -> bool {
    (byte as nat / vstd::arithmetic::power2::pow2(n)) % 2 == 1
}

/// Whether the order bit is clear: the left earbud then stands in the high nibble
/// and the right one in the low nibble.
pub open spec fn flipped(data: Seq<u8>) -> bool {
    !bit(data[5], 5)
}

/// The percentage that a four-bit value stands for, in steps of ten.
pub open spec fn tenths(nibble: int) -> Option<u8> {
    if nibble <= 10 {
        Some((nibble * 10) as u8)
    } else {
        None
    }
}

/// The level of the left earbud in an advertisement.
pub open spec fn advertised_left(data: Seq<u8>) -> BatteryLevel {
    if flipped(data) {
        BatteryLevel { percent: tenths(data[6] as int / 16), charging: bit(data[7], 5) }
    } else {
        BatteryLevel { percent: tenths(data[6] as int % 16), charging: bit(data[7], 4) }
    }
}

/// The level of the right earbud in an advertisement.
pub open spec fn advertised_right(data: Seq<u8>) -> BatteryLevel {
    if flipped(data) {
        BatteryLevel { percent: tenths(data[6] as int % 16), charging: bit(data[7], 4) }
    } else {
        BatteryLevel { percent: tenths(data[6] as int / 16), charging: bit(data[7], 5) }
    }
}

/// The level of the case in an advertisement.
pub open spec fn advertised_case(data: Seq<u8>) -> BatteryLevel {
    BatteryLevel { percent: tenths(data[7] as int % 16), charging: bit(data[7], 6) }
}

/// What an advertisement says of the batteries.
pub open spec fn advertises(
    data: Seq<u8>,
    address: Seq<char>,
    rssi: i16,
    battery: AirPodsBattery,
) -> bool {
    &&& battery.left == advertised_left(data)
    &&& battery.right == advertised_right(data)
    &&& battery.case == advertised_case(data)
    &&& battery.model_id == model_of(data)
    &&& battery.ble_address@ == address
    &&& battery.rssi == rssi
}

/// Bit `n` of a byte by a mask.
proof fn lemma_bits(byte: u8)
    ensures
        bit(byte, 4) == ((byte >> 4) & 0x01 != 0),
        bit(byte, 5) == ((byte >> 4) & 0x02 != 0),
        bit(byte, 5) == (byte & 0x20 != 0),
        bit(byte, 6) == ((byte >> 4) & 0x04 != 0),
        byte >> 4 == byte / 16,
        byte & 0x0f == byte % 16,
{
    vstd::arithmetic::power2::lemma2_to64();
    assert(((byte / 16) % 2 == 1) == ((byte >> 4) & 0x01 != 0)) by (bit_vector);
    assert(((byte / 32) % 2 == 1) == ((byte >> 4) & 0x02 != 0)) by (bit_vector);
    assert(((byte / 32) % 2 == 1) == (byte & 0x20 != 0)) by (bit_vector);
    assert(((byte / 64) % 2 == 1) == ((byte >> 4) & 0x04 != 0)) by (bit_vector);
    assert(byte >> 4 == byte / 16) by (bit_vector);
    assert(byte & 0x0f == byte % 16) by (bit_vector);
}

fn is_airpods_model(model_id: u16) -> (known: bool)
    ensures
        known == known_model(model_id) is Some,
{
    model_id == 0x0220 || model_id == 0x0f20 || model_id == 0x1320 || model_id == 0x0e20
        || model_id == 0x1420 || model_id == 0x2420 || model_id == 0x0a20 || model_id == 0x1f20
        || model_id == 0x1920 || model_id == 0x1b20 || model_id == 0x2720
}

fn battery_percent(nibble: u8) -> (percent: Option<u8>)
    ensures
        percent == tenths(nibble as int),
{
    if nibble <= 0x0a {
        Some(nibble * 10)
    } else {
        None
    }
}

/// Reads Apple manufacturer data as a battery state, where it is an
/// advertisement of a supported model.
pub fn parse_advertisement(data: &[u8], ble_address: String, rssi: i16) -> (battery: Option<
    AirPodsBattery,
>)
    ensures
        battery is Some <==> is_advertisement(data@),
        battery matches Some(battery) ==> advertises(data@, ble_address@, rssi, battery),
{
    if data.len() < 11 || data[0] != 0x07 || data[1] != 0x19 || data[2] != 0x01 {
        return None;
    }
    let model_id: u16 = (data[3] as u16) * 256 + data[4] as u16;
    if !is_airpods_model(model_id) {
        return None;
    }
    proof {
        lemma_bits(data@[5]);
        lemma_bits(data@[6]);
        lemma_bits(data@[7]);
    }
    let values_flipped = data[5] & 0x20 == 0;
    let pods: u8 = data[6];
    let left_nibble: u8 = if values_flipped {
        pods >> 4
    } else {
        pods & 0x0f
    };
    let right_nibble: u8 = if values_flipped {
        pods & 0x0f
    } else {
        pods >> 4
    };
    let flags: u8 = data[7] >> 4;
    let first_charging = flags & 0x02 != 0;
    let second_charging = flags & 0x01 != 0;
    Some(
        AirPodsBattery {
            left: BatteryLevel {
                percent: battery_percent(left_nibble),
                charging: if values_flipped {
                    first_charging
                } else {
                    second_charging
                },
            },
            right: BatteryLevel {
                percent: battery_percent(right_nibble),
                charging: if values_flipped {
                    second_charging
                } else {
                    first_charging
                },
            },
            case: BatteryLevel {
                percent: battery_percent(data[7] & 0x0f),
                charging: flags & 0x04 != 0,
            },
            model_id,
            ble_address,
            rssi,
        },
    )
}

/// Looks at one device that appeared during a scan.
///
/// A battery state comes out where the device reports its signal strength and
/// carries Apple manufacturer data that is an advertisement.
pub fn scan_device(
    address: [u8; 6],
    rssi: Option<i16>,
    manufacturer_data: Option<HashMap<u16, Vec<u8>>>,
) -> (battery: Option<AirPodsBattery>)
    ensures
        battery is Some <==> (rssi is Some && manufacturer_data is Some
            && manufacturer_data->0@.contains_key(APPLE_COMPANY_ID) && is_advertisement(
            manufacturer_data->0@[APPLE_COMPANY_ID]@,
        )),
        battery matches Some(battery) ==> advertises(
            manufacturer_data->0@[APPLE_COMPANY_ID]@,
            displayed(address@),
            rssi->0,
            battery,
        ),
{
    broadcast use vstd::std_specs::hash::group_hash_axioms;

    match (rssi, manufacturer_data) {
        (Some(rssi), Some(map)) => {
            match map.get(&APPLE_COMPANY_ID) {
                Some(data) => parse_advertisement(data.as_slice(), address_text(address), rssi),
                None => None,
            }
        },
        _ => None,
    }
}

/// Why a scan gave no battery state.
#[derive(Debug)]
pub enum ScanFailure {
    /// BlueZ could not be reached, with the reason.
    Bluez(String),
    /// There is no Bluetooth adapter, with the reason.
    Adapter(String),
    /// The scan could not be limited to Bluetooth LE, with the reason.
    Filter(String),
    /// The scan could not be started, with the reason.
    Start(String),
    /// No more devices come.
    Ended,
    /// No advertisement came in time.
    TimedOut,
}

impl ScanFailure {
    /// The message of this failure.
    pub open spec fn text(self) -> Seq<char> {
        match self {
            ScanFailure::Bluez(error) => "failed to connect to BlueZ: "@ + error@,
            ScanFailure::Adapter(error) => "failed to get the Bluetooth adapter: "@ + error@,
            ScanFailure::Filter(error) => "failed to configure BLE scan: "@ + error@,
            ScanFailure::Start(error) => "failed to start BLE scan: "@ + error@,
            ScanFailure::Ended => SCAN_ENDED@,
            ScanFailure::TimedOut => SCAN_TIMED_OUT@,
        }
    }

    /// The message of this failure.
    pub fn message(&self) -> (message: String)
        ensures
            message@ == self.text(),
    {
        let (context, error) = match self {
            ScanFailure::Bluez(error) => ("failed to connect to BlueZ: ", error),
            ScanFailure::Adapter(error) => ("failed to get the Bluetooth adapter: ", error),
            ScanFailure::Filter(error) => ("failed to configure BLE scan: ", error),
            ScanFailure::Start(error) => ("failed to start BLE scan: ", error),
            ScanFailure::Ended => {
                return SCAN_ENDED.to_owned();
            },
            ScanFailure::TimedOut => {
                return SCAN_TIMED_OUT.to_owned();
            },
        };
        let mut message = context.to_owned();
        message.append(error.as_str());
        message
    }
}

/// How an AACP battery notification begins.
pub open spec fn battery_header() -> Seq<u8> {
    seq![0x04, 0x00, 0x04, 0x00, 0x04, 0x00]
}

/// The `i`-th battery of a notification.
pub open spec fn item(data: Seq<u8>, i: int) -> Seq<u8> {
    data.subrange(7 + 5 * i, 12 + 5 * i)
}

/// The level of one battery of a notification, `None` where the item is malformed.
///
/// The bytes of an item are the component, 1, the percentage, the state and 1.
/// State 1 is charging, 2 is discharging and 4 is disconnected.
pub open spec fn item_level(item: Seq<u8>) -> Option<BatteryLevel> {
    if item[1] != 0x01 || item[4] != 0x01 {
        None
    } else if item[3] == 0x04 {
        Some(BatteryLevel { percent: None, charging: false })
    } else if (item[3] == 0x01 || item[3] == 0x02) && item[2] <= 100 {
        Some(BatteryLevel { percent: Some(item[2]), charging: item[3] == 0x01 })
    } else {
        None
    }
}

/// Whether a packet is a battery notification of which every item is well formed.
pub open spec fn is_battery_notification(data: Seq<u8>) -> bool {
    &&& data.len() >= 7
    &&& begins_with(data, battery_header())
    &&& 1 <= data[6] <= AACP_MAX_BATTERY_ITEMS
    &&& data.len() == 7 + data[6] * AACP_BATTERY_ITEM_SIZE
    &&& forall|i: int| 0 <= i < data[6] ==> item_level(#[trigger] item(data, i)) is Some
}

/// The level that the last of the first `count` items gives for a component.
pub open spec fn reported(data: Seq<u8>, count: int, component: u8) -> Option<BatteryLevel>
    decreases count,
{
    if count <= 0 {
        None
    } else if item(data, count - 1)[0] == component {
        item_level(item(data, count - 1))
    } else {
        reported(data, count - 1, component)
    }
}

/// What the first `count` items of a notification say: component 4 is the left
/// earbud, 2 the right one and 8 the case.
pub open spec fn reported_update(data: Seq<u8>, count: int) -> AacpBatteryUpdate {
    AacpBatteryUpdate {
        left: reported(data, count, 0x04),
        right: reported(data, count, 0x02),
        case: reported(data, count, 0x08),
    }
}

/// What a packet says of the batteries, `None` where it says nothing.
pub open spec fn notified(data: Seq<u8>) -> Option<AacpBatteryUpdate> {
    if is_battery_notification(data) {
        let update = reported_update(data, data[6] as int);
        if update.left is Some || update.right is Some || update.case is Some {
            Some(update)
        } else {
            None
        }
    } else {
        None
    }
}

fn valid_percent(percent: u8) -> (valid: Option<u8>)
    ensures
        valid == (if percent <= 100 {
            Some(percent)
        } else {
            None
        }),
{
    if percent <= 100 {
        Some(percent)
    } else {
        None
    }
}

fn parse_item(item: &[u8]) -> (level: Option<BatteryLevel>)
    requires
        item.len() == AACP_BATTERY_ITEM_SIZE,
    ensures
        level == item_level(item@),
{
    if item[1] != 0x01 || item[4] != 0x01 {
        return None;
    }
    match item[3] {
        0x01 => match valid_percent(item[2]) {
            Some(percent) => Some(BatteryLevel { percent: Some(percent), charging: true }),
            None => None,
        },
        0x02 => match valid_percent(item[2]) {
            Some(percent) => Some(BatteryLevel { percent: Some(percent), charging: false }),
            None => None,
        },
        0x04 => Some(BatteryLevel { percent: None, charging: false }),
        _ => None,
    }
}

/// Reads an AACP battery notification, with percentages from 0 to 100.
pub fn parse_aacp_battery(data: &[u8]) -> (update: Option<AacpBatteryUpdate>)
    ensures
        update == notified(data@),
{
    let header: Vec<u8> = vec![0x04, 0x00, 0x04, 0x00, 0x04, 0x00];
    assert(header@ =~= battery_header());
    if data.len() < 7 || !packet_starts_with(data, header.as_slice()) {
        return None;
    }
    let item_count: usize = data[6] as usize;
    if item_count == 0 || item_count > AACP_MAX_BATTERY_ITEMS || data.len() != 7 + item_count
        * AACP_BATTERY_ITEM_SIZE {
        return None;
    }
    let mut update = AacpBatteryUpdate { left: None, right: None, case: None };
    for i in 0..item_count
        invariant
            data.len() >= 7,
            begins_with(data@, battery_header()),
            item_count == data@[6],
            1 <= item_count <= AACP_MAX_BATTERY_ITEMS,
            data.len() == 7 + item_count * AACP_BATTERY_ITEM_SIZE,
            forall|j: int| 0 <= j < i ==> item_level(#[trigger] item(data@, j)) is Some,
            update == reported_update(data@, i as int),
    {
        let start: usize = 7 + i * AACP_BATTERY_ITEM_SIZE;
        let bytes = vstd::slice::slice_subrange(data, start, start + AACP_BATTERY_ITEM_SIZE);
        assert(bytes@ == item(data@, i as int));
        match parse_item(bytes) {
            None => {
                return None;
            },
            Some(level) => match bytes[0] {
                0x02 => {
                    update.right = Some(level);
                },
                0x04 => {
                    update.left = Some(level);
                },
                0x08 => {
                    update.case = Some(level);
                },
                _ => {},
            },
        }
    }
    if update.left.is_some() || update.right.is_some() || update.case.is_some() {
        Some(update)
    } else {
        None
    }
}

/// The name of the model with the given code.
pub fn model_name(model_id: u16) -> (name: &'static str)
    ensures
        name@ == (match known_model(model_id) {
            Some(name) => name,
            None => "Unknown AirPods"@,
        }),
{
    match model_id {
        0x0220 => "AirPods 1",
        0x0f20 => "AirPods 2",
        0x1320 => "AirPods 3",
        0x0e20 => "AirPods Pro",
        0x1420 => "AirPods Pro 2 (Lightning)",
        0x2420 => "AirPods Pro 2 (USB-C)",
        0x0a20 => "AirPods Max (Lightning)",
        0x1f20 => "AirPods Max (USB-C)",
        0x1920 => "AirPods 4",
        0x1b20 => "AirPods 4 (ANC)",
        0x2720 => "AirPods Pro (model 2720)",
        _ => "Unknown AirPods",
    }
}

/// Percentages from BLE come in steps of ten and never exceed one hundred.
pub proof fn law_advertised_percentages(data: Seq<u8>)
    ensures
        advertised_left(data).percent matches Some(percent) ==> percent <= 100 && percent % 10 == 0,
        advertised_right(data).percent matches Some(percent) ==> percent <= 100 && percent % 10
            == 0,
        advertised_case(data).percent matches Some(percent) ==> percent <= 100 && percent % 10 == 0,
{
}

/// Which earbud sends an advertisement makes no difference: with the order bit
/// turned, the nibbles exchanged and the charging bits exchanged, the same levels
/// are read.
pub proof fn law_flipping_is_symmetric(data: Seq<u8>, turned: Seq<u8>)
    requires
        flipped(data) != flipped(turned),
        turned[6] as int / 16 == data[6] as int % 16,
        turned[6] as int % 16 == data[6] as int / 16,
        bit(turned[7], 4) == bit(data[7], 5),
        bit(turned[7], 5) == bit(data[7], 4),
    ensures
        advertised_left(turned) == advertised_left(data),
        advertised_right(turned) == advertised_right(data),
{
}

proof fn lemma_reported_in_range(data: Seq<u8>, count: int, component: u8)
    ensures
        reported(data, count, component) matches Some(level) ==> level.in_range(),
    decreases count,
{
    if count > 0 {
        lemma_reported_in_range(data, count - 1, component);
    }
}

/// Percentages from AACP lie between 0 and 100, and an update always carries a
/// value for at least one component.
pub proof fn law_notified_percentages(data: Seq<u8>)
    ensures
        notified(data) matches Some(update) ==> update.in_range() && (update.left is Some
            || update.right is Some || update.case is Some),
{
    lemma_reported_in_range(data, data[6] as int, 0x04);
    lemma_reported_in_range(data, data[6] as int, 0x02);
    lemma_reported_in_range(data, data[6] as int, 0x08);
}

/// A battery notification is neither an audio packet nor an acknowledgement.
pub proof fn law_notifications_are_a_kind_of_their_own(packet: Seq<u8>)
    requires
        is_battery_notification(packet),
    ensures
        !crate::framing::audio_sdu(packet),
        !begins_with(packet, crate::aacp::handshake_ack_prefix()),
        !begins_with(packet, crate::aacp::features_ack_prefix()),
{
    assert(packet.take(6)[0] == 0x04);
    assert(packet.take(6)[4] == 0x04);
    assert(crate::aacp::handshake_ack_prefix()[0] == 0x01);
    assert(crate::aacp::features_ack_prefix()[4] == 0x2b);
    if begins_with(packet, crate::aacp::handshake_ack_prefix()) {
        assert(packet.take(4)[0] == 0x01);
    }
}

/// Whether the bytes of a packet are those of a battery notification with well-formed items:
/// the header, a count from one to three, and five bytes for each item.
pub open spec fn well_formed_notification(data: Seq<u8>) -> bool {
    &&& data.len() >= 7
    &&& data[0] == 4 && data[1] == 0 && data[2] == 4 && data[3] == 0 && data[4] == 4 && data[5] == 0
    &&& 1 <= data[6] <= 3
    &&& data.len() == 7 + 5 * data[6]
    &&& forall|i: int|
        0 <= i < data[6] ==> {
            &&& #[trigger] data[7 + 5 * i + 1] == 1
            &&& data[7 + 5 * i + 4] == 1
            &&& data[7 + 5 * i + 3] == 4 || ((data[7 + 5 * i + 3] == 1 || data[7 + 5 * i + 3] == 2)
                && data[7 + 5 * i + 2] <= 100)
        }
}

/// The level that the bytes of the `i`-th item stand for: the percentage as it is sent, none
/// where the battery is disconnected, and charging where the state is 1.
pub open spec fn sent_level(data: Seq<u8>, i: int) -> BatteryLevel {
    BatteryLevel {
        percent: if data[7 + 5 * i + 3] == 4 {
            None
        } else {
            Some(data[7 + 5 * i + 2])
        },
        charging: data[7 + 5 * i + 3] == 1,
    }
}

proof fn lemma_well_formed(data: Seq<u8>)
    ensures
        is_battery_notification(data) <==> well_formed_notification(data),
        forall|i: int|
            is_battery_notification(data) && 0 <= i < data[6] ==> item_level(
                #[trigger] item(data, i),
            ) == Some(sent_level(data, i)) && item(data, i)[0] == data[7 + 5 * i],
{
    let header = battery_header();
    if begins_with(data, header) {
        let head = data.take(6);
        assert(head[0] == header[0] && head[1] == header[1] && head[2] == header[2] && head[3]
            == header[3] && head[4] == header[4] && head[5] == header[5]);
    }
    if is_battery_notification(data) {
        assert forall|i: int| 0 <= i < data[6] implies {
            &&& #[trigger] data[7 + 5 * i + 1] == 1
            &&& data[7 + 5 * i + 4] == 1
            &&& data[7 + 5 * i + 3] == 4 || ((data[7 + 5 * i + 3] == 1 || data[7 + 5 * i + 3] == 2)
                && data[7 + 5 * i + 2] <= 100)
        } by {
            assert(item_level(item(data, i)) is Some);
            assert(item(data, i)[1] == data[7 + 5 * i + 1]);
            assert(item(data, i)[2] == data[7 + 5 * i + 2]);
            assert(item(data, i)[3] == data[7 + 5 * i + 3]);
            assert(item(data, i)[4] == data[7 + 5 * i + 4]);
        }
    }
    if well_formed_notification(data) {
        assert(data.take(6) =~= header);
        assert forall|i: int| 0 <= i < data[6] implies item_level(#[trigger] item(data, i)) == Some(
            sent_level(data, i),
        ) && item(data, i)[0] == data[7 + 5 * i] by {
            assert(data[7 + 5 * i + 1] == 1);
            assert(item(data, i)[0] == data[7 + 5 * i]);
            assert(item(data, i)[1] == data[7 + 5 * i + 1]);
            assert(item(data, i)[2] == data[7 + 5 * i + 2]);
            assert(item(data, i)[3] == data[7 + 5 * i + 3]);
            assert(item(data, i)[4] == data[7 + 5 * i + 4]);
        }
    }
}

proof fn lemma_reported_last(data: Seq<u8>, count: int, component: u8, i: int)
    requires
        is_battery_notification(data),
        0 <= i < count <= data[6],
        data[7 + 5 * i] == component,
        forall|j: int| i < j < count ==> #[trigger] data[7 + 5 * j] != component,
    ensures
        reported(data, count, component) == Some(sent_level(data, i)),
    decreases count,
{
    lemma_well_formed(data);
    assert(item(data, count - 1)[0] == data[7 + 5 * (count - 1)]);
    if i < count - 1 {
        assert(data[7 + 5 * (count - 1)] != component);
        lemma_reported_last(data, count - 1, component, i);
    } else {
        assert(item_level(item(data, i)) == Some(sent_level(data, i)));
    }
}

proof fn lemma_not_reported(data: Seq<u8>, count: int, component: u8)
    requires
        is_battery_notification(data),
        count <= data[6],
        forall|j: int| 0 <= j < count ==> #[trigger] data[7 + 5 * j] != component,
    ensures
        reported(data, count, component) is None,
    decreases count,
{
    if count > 0 {
        lemma_well_formed(data);
        assert(item(data, count - 1)[0] == data[7 + 5 * (count - 1)]);
        assert(data[7 + 5 * (count - 1)] != component);
        lemma_not_reported(data, count - 1, component);
    }
}

/// Each component of a notification gets the level that was sent for it, the last one where
/// it was sent more than once: component 4 is the left earbud, 2 the right one and 8 the
/// case.
pub proof fn law_each_component_gets_its_level(
    data: &[u8],
    update: Option<AacpBatteryUpdate>,
    i: int,
)
    requires
        call_ensures(parse_aacp_battery, (data,), update),
        well_formed_notification(data@),
        0 <= i < data@[6],
        forall|j: int| i < j < data@[6] ==> #[trigger] data@[7 + 5 * j] != data@[7 + 5 * i],
    ensures
        data@[7 + 5 * i] == 4 ==> update is Some && update->0.left == Some(sent_level(data@, i)),
        data@[7 + 5 * i] == 2 ==> update is Some && update->0.right == Some(sent_level(data@, i)),
        data@[7 + 5 * i] == 8 ==> update is Some && update->0.case == Some(sent_level(data@, i)),
{
    lemma_well_formed(data@);
    lemma_reported_last(data@, data@[6] as int, data@[7 + 5 * i], i);
}

/// A component that was not sent gets no level, and a notification of none of the three
/// components says nothing.
pub proof fn law_silent_components_get_no_level(data: &[u8], update: Option<AacpBatteryUpdate>)
    requires
        call_ensures(parse_aacp_battery, (data,), update),
        well_formed_notification(data@),
    ensures
        (forall|i: int| 0 <= i < data@[6] ==> #[trigger] data@[7 + 5 * i] != 4)
            ==> update is None || update->0.left is None,
        (forall|i: int| 0 <= i < data@[6] ==> #[trigger] data@[7 + 5 * i] != 2)
            ==> update is None || update->0.right is None,
        (forall|i: int| 0 <= i < data@[6] ==> #[trigger] data@[7 + 5 * i] != 8)
            ==> update is None || update->0.case is None,
        (forall|i: int|
            0 <= i < data@[6] ==> #[trigger] data@[7 + 5 * i] != 4 && data@[7 + 5 * i] != 2
                && data@[7 + 5 * i] != 8) ==> update is None,
{
    lemma_well_formed(data@);
    let count = data@[6] as int;
    if forall|i: int| 0 <= i < count ==> #[trigger] data@[7 + 5 * i] != 4 {
        lemma_not_reported(data@, count, 4);
    }
    if forall|i: int| 0 <= i < count ==> #[trigger] data@[7 + 5 * i] != 2 {
        lemma_not_reported(data@, count, 2);
    }
    if forall|i: int| 0 <= i < count ==> #[trigger] data@[7 + 5 * i] != 8 {
        lemma_not_reported(data@, count, 8);
    }
}

/// A packet whose bytes are not those of a well-formed notification says nothing.
pub proof fn law_malformed_notifications_say_nothing(data: &[u8], update: Option<AacpBatteryUpdate>)
    requires
        call_ensures(parse_aacp_battery, (data,), update),
        !well_formed_notification(data@),
    ensures
        update is None,
{
    lemma_well_formed(data@);
}

/// The item that carries a level for a component.
pub open spec fn encoded_item(component: u8, level: BatteryLevel) -> Seq<u8> {
    match level.percent {
        Some(percent) => seq![
            component,
            1u8,
            percent,
            if level.charging {
                1u8
            } else {
                2u8
            },
            1u8,
        ],
        None => seq![component, 1u8, 0u8, 4u8, 1u8],
    }
}

/// Levels of both earbuds and of the case that are sent in one notification are read as they
/// were sent.
pub proof fn law_sent_levels_are_read_back(
    left: BatteryLevel,
    right: BatteryLevel,
    case: BatteryLevel,
    data: &[u8],
    update: Option<AacpBatteryUpdate>,
)
    requires
        left.in_range() && (left.percent is None ==> !left.charging),
        right.in_range() && (right.percent is None ==> !right.charging),
        case.in_range() && (case.percent is None ==> !case.charging),
        data@ == seq![4u8, 0, 4, 0, 4, 0, 3] + encoded_item(4, left) + encoded_item(2, right)
            + encoded_item(8, case),
        call_ensures(parse_aacp_battery, (data,), update),
    ensures
        update == Some(
            AacpBatteryUpdate { left: Some(left), right: Some(right), case: Some(case) },
        ),
{
    let bytes = data@;
    let a = encoded_item(4, left);
    let b = encoded_item(2, right);
    let c = encoded_item(8, case);
    assert(bytes[6] == 3 && bytes.len() == 22);
    assert forall|k: int| 0 <= k < 5 implies bytes[7 + k] == a[k] && bytes[12 + k] == b[k]
        && bytes[17 + k] == c[k] by {}
    assert(bytes[7] == a[0] && bytes[8] == a[1] && bytes[9] == a[2] && bytes[10] == a[3]
        && bytes[11] == a[4]);
    assert(bytes[12] == b[0] && bytes[13] == b[1] && bytes[14] == b[2] && bytes[15] == b[3]
        && bytes[16] == b[4]);
    assert(bytes[17] == c[0] && bytes[18] == c[1] && bytes[19] == c[2] && bytes[20] == c[3]
        && bytes[21] == c[4]);
    assert forall|i: int| 0 <= i < bytes[6] implies {
        &&& #[trigger] bytes[7 + 5 * i + 1] == 1
        &&& bytes[7 + 5 * i + 4] == 1
        &&& bytes[7 + 5 * i + 3] == 4 || ((bytes[7 + 5 * i + 3] == 1 || bytes[7 + 5 * i + 3] == 2)
            && bytes[7 + 5 * i + 2] <= 100)
    } by {
        assert(i == 0 || i == 1 || i == 2);
    }
    assert(well_formed_notification(bytes));
    assert(sent_level(bytes, 0) == left);
    assert(sent_level(bytes, 1) == right);
    assert(sent_level(bytes, 2) == case);
    assert(bytes[7] == 4 && bytes[12] == 2 && bytes[17] == 8);
    law_each_component_gets_its_level(data, update, 0);
    law_each_component_gets_its_level(data, update, 1);
    law_each_component_gets_its_level(data, update, 2);
}

/// The percentage that four bits of an advertisement stand for: ten times their number, and
/// none from eleven on.
pub open spec fn stands_for(nibble: int, percent: Option<u8>) -> bool {
    if nibble <= 10 {
        percent matches Some(percent) && percent == 10 * nibble
    } else {
        percent is None
    }
}

/// An advertisement is read bit by bit: with the order bit set the low four bits are the
/// left earbud, with the order bit clear they are the right one, and each has the charging
/// bit that goes with it. The case has four bits and a charging bit of its own.
pub proof fn law_advertisements_are_read_bit_by_bit(
    data: &[u8],
    ble_address: String,
    rssi: i16,
    battery: Option<AirPodsBattery>,
)
    requires
        call_ensures(parse_advertisement, (data, ble_address, rssi), battery),
        battery is Some,
    ensures
        data@.len() >= 11 && data@[0] == 0x07 && data@[1] == 0x19 && data@[2] == 0x01,
        ({
            let read = battery->0;
            let low = data@[6] as int % 16;
            let high = data@[6] as int / 16;
            let low_charging = (data@[7] as int / 16) % 2 == 1;
            let high_charging = (data@[7] as int / 32) % 2 == 1;
            let left_is_low = (data@[5] as int / 32) % 2 == 1;
            &&& left_is_low ==> stands_for(low, read.left.percent) && stands_for(
                high,
                read.right.percent,
            ) && read.left.charging == low_charging && read.right.charging == high_charging
            &&& !left_is_low ==> stands_for(high, read.left.percent) && stands_for(
                low,
                read.right.percent,
            ) && read.left.charging == high_charging && read.right.charging == low_charging
            &&& stands_for(data@[7] as int % 16, read.case.percent)
            &&& read.case.charging == ((data@[7] as int / 64) % 2 == 1)
            &&& read.model_id == data@[3] * 256 + data@[4]
            &&& read.ble_address@ == ble_address@
            &&& read.rssi == rssi
        }),
{
    vstd::arithmetic::power2::lemma2_to64();
}

/// An advertisement is accepted exactly where it is long enough, begins as one does, and its
/// model is one of those that have a name.
pub proof fn law_named_models_are_accepted(
    data: &[u8],
    ble_address: String,
    rssi: i16,
    battery: Option<AirPodsBattery>,
    model_id: u16,
    name: &'static str,
)
    requires
        call_ensures(parse_advertisement, (data, ble_address, rssi), battery),
        data@.len() >= 11 && data@[0] == 0x07 && data@[1] == 0x19 && data@[2] == 0x01,
        model_id == data@[3] * 256 + data@[4],
        call_ensures(model_name, (model_id,), name),
    ensures
        battery is Some <==> name@ != "Unknown AirPods"@,
        battery is Some <==> model_id == 0x0220 || model_id == 0x0f20 || model_id == 0x1320
            || model_id == 0x0e20 || model_id == 0x1420 || model_id == 0x2420 || model_id == 0x0a20
            || model_id == 0x1f20 || model_id == 0x1920 || model_id == 0x1b20 || model_id == 0x2720,
        model_id == 0x0220 ==> name@ == "AirPods 1"@,
        model_id == 0x0f20 ==> name@ == "AirPods 2"@,
        model_id == 0x1320 ==> name@ == "AirPods 3"@,
        model_id == 0x0e20 ==> name@ == "AirPods Pro"@,
        model_id == 0x1420 ==> name@ == "AirPods Pro 2 (Lightning)"@,
        model_id == 0x2420 ==> name@ == "AirPods Pro 2 (USB-C)"@,
        model_id == 0x0a20 ==> name@ == "AirPods Max (Lightning)"@,
        model_id == 0x1f20 ==> name@ == "AirPods Max (USB-C)"@,
        model_id == 0x1920 ==> name@ == "AirPods 4"@,
        model_id == 0x1b20 ==> name@ == "AirPods 4 (ANC)"@,
        model_id == 0x2720 ==> name@ == "AirPods Pro (model 2720)"@,
{
    lemma_model_names(model_id, model_id);
}

proof fn lemma_model_names(left: u16, right: u16)
    ensures
        known_model(left) matches Some(name) ==> name != "Unknown AirPods"@,
        known_model(left) is Some && known_model(left) == known_model(right) ==> left == right,
{
    reveal_strlit("AirPods 1");
    reveal_strlit("AirPods 2");
    reveal_strlit("AirPods 3");
    reveal_strlit("AirPods Pro");
    reveal_strlit("AirPods Pro 2 (Lightning)");
    reveal_strlit("AirPods Pro 2 (USB-C)");
    reveal_strlit("AirPods Max (Lightning)");
    reveal_strlit("AirPods Max (USB-C)");
    reveal_strlit("AirPods 4");
    reveal_strlit("AirPods 4 (ANC)");
    reveal_strlit("AirPods Pro (model 2720)");
    reveal_strlit("Unknown AirPods");
    assert("Unknown AirPods"@[0] == 'U');
    assert("AirPods 1"@[8] == '1' && "AirPods 2"@[8] == '2' && "AirPods 3"@[8] == '3');
    assert("AirPods 4"@[8] == '4' && "AirPods 4 (ANC)"@[8] == '4');
    assert("AirPods 4"@.len() == 9 && "AirPods 4 (ANC)"@.len() == 15);
    assert("AirPods 1"@.len() == 9 && "AirPods 2"@.len() == 9 && "AirPods 3"@.len() == 9);
    assert("AirPods Pro"@.len() == 11 && "AirPods Pro 2 (Lightning)"@.len() == 25);
    assert("AirPods Pro 2 (USB-C)"@.len() == 21 && "AirPods Pro (model 2720)"@.len() == 24);
    assert("AirPods Max (Lightning)"@.len() == 23 && "AirPods Max (USB-C)"@.len() == 19);
}

/// Different models have different names, and none of them is called unknown.
pub proof fn law_models_are_told_apart(
    left: u16,
    left_name: &'static str,
    right: u16,
    right_name: &'static str,
)
    requires
        call_ensures(model_name, (left,), left_name),
        call_ensures(model_name, (right,), right_name),
        left != right,
    ensures
        left_name@ == right_name@ ==> left_name@ == "Unknown AirPods"@,
{
    lemma_model_names(left, right);
    lemma_model_names(right, left);
}

/// A device that appears in a scan is read through the data under Apple's company code,
/// 0x004c, and under its own address and signal strength; without one of them it gives
/// nothing.
pub proof fn law_scans_read_the_data_of_apple(
    address: [u8; 6],
    rssi: Option<i16>,
    manufacturer_data: Option<HashMap<u16, Vec<u8>>>,
    battery: Option<AirPodsBattery>,
    data: &[u8],
    text: String,
    read: Option<AirPodsBattery>,
)
    requires
        call_ensures(scan_device, (address, rssi, manufacturer_data), battery),
        call_ensures(address_text, (address,), text),
    ensures
        battery is Some ==> rssi is Some && manufacturer_data is Some
            && manufacturer_data->0@.contains_key(0x004c),
        rssi is Some && manufacturer_data is Some && manufacturer_data->0@.contains_key(0x004c)
            && data@ == manufacturer_data->0@[0x004c]@ && call_ensures(
            parse_advertisement,
            (data, text, rssi->0),
            read,
        ) ==> {
            &&& battery is Some <==> read is Some
            &&& battery is Some ==> battery->0.left == read->0.left && battery->0.right
                == read->0.right && battery->0.case == read->0.case && battery->0.rssi == rssi->0
                && battery->0.ble_address@ == text@ && battery->0.model_id == read->0.model_id
        },
{
}

/// A scan that failed for a reason gives that reason at the end of its message.
pub proof fn law_failed_scans_give_their_reason(failure: &ScanFailure, message: String)
    requires
        call_ensures(ScanFailure::message, (failure,), message),
    ensures
        failure matches ScanFailure::Bluez(error) ==> exists|front: Seq<char>|
            message@ == #[trigger] (front + error@),
        failure matches ScanFailure::Adapter(error) ==> exists|front: Seq<char>|
            message@ == #[trigger] (front + error@),
        failure matches ScanFailure::Filter(error) ==> exists|front: Seq<char>|
            message@ == #[trigger] (front + error@),
        failure matches ScanFailure::Start(error) ==> exists|front: Seq<char>|
            message@ == #[trigger] (front + error@),
{
}

} // verus!

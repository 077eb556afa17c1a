//! What the command line prints.
//!
//! Levels come as text with one decimal place.
use crate::ipc::{device_views, BatteryStatus, DaemonStatus, DeviceInfo, DeviceView, StatusView};
use crate::text::{decimal, texts, to_decimal};
use vstd::prelude::*;

verus! {

/// The error of a session bus that cannot be reached.
pub const NO_SESSION_BUS: &'static str = "failed to connect to the session D-Bus";

/// The error of a daemon that is not on the bus.
pub const NO_DAEMON: &'static str = "airpodsd is unavailable on the session D-Bus";

/// The listening modes that the command line knows.
#[derive(Clone, Copy, Debug, PartialEq, Eq, Structural)]
pub enum ModeCommand {
    /// Neither noise cancellation nor transparency.
    Off,
    /// Active noise cancellation.
    Anc,
    /// Outside sound is let in.
    Transparency,
    /// The device adapts the cancellation to its surroundings.
    Adaptive,
}

impl ModeCommand {
    /// The mode that the daemon is asked for.
    pub open spec fn mode(self) -> crate::aacp::ListeningMode {
        match self {
            ModeCommand::Off => crate::aacp::ListeningMode::Off,
            ModeCommand::Anc => crate::aacp::ListeningMode::NoiseCancellation,
            ModeCommand::Transparency => crate::aacp::ListeningMode::Transparency,
            ModeCommand::Adaptive => crate::aacp::ListeningMode::Adaptive,
        }
    }

    /// The name of the mode on the bus, which the daemon understands as that mode.
    pub fn as_str(self) -> (name: &'static str)
        ensures
            name@ == self.mode().name(),
    {
        match self {
            ModeCommand::Off => "off",
            ModeCommand::Anc => "anc",
            ModeCommand::Transparency => "transparency",
            ModeCommand::Adaptive => "adaptive",
        }
    }
}

/// A percentage as text; below zero it is unknown.
pub open spec fn percent_text(value: i16) -> Seq<char> {
    if value < 0 {
        "unknown"@
    } else {
        decimal(value as nat) + "%"@
    }
}

/// A percentage as text; below zero it is unknown.
pub fn percent(value: i16) -> (text: String)
    ensures
        text@ == percent_text(value),
{
    if value < 0 {
        "unknown".to_owned()
    } else {
        let mut text = to_decimal(value as u128);
        text.append("%");
        text
    }
}

/// What a line says of charging.
pub open spec fn charging_text(value: bool) -> Seq<char> {
    if value {
        " (charging)"@
    } else {
        ""@
    }
}

/// What a line says of charging.
pub fn charging(value: bool) -> (text: &'static str)
    ensures
        text@ == charging_text(value),
{
    if value {
        " (charging)"
    } else {
        ""
    }
}

/// Whether the microphone is active, as text.
pub open spec fn on_off_text(value: bool) -> Seq<char> {
    if value {
        "active"@
    } else {
        "inactive"@
    }
}

/// Whether the microphone is active, as text.
pub fn on_off(value: bool) -> (text: &'static str)
    ensures
        text@ == on_off_text(value),
{
    if value {
        "active"
    } else {
        "inactive"
    }
}

/// The line that reports an error, where there is one.
pub open spec fn error_lines(last_error: Seq<char>) -> Seq<Seq<char>> {
    if last_error.len() == 0 {
        Seq::empty()
    } else {
        seq!["Last error: "@ + last_error]
    }
}

/// The lines that describe the daemon.
pub open spec fn described_status(status: StatusView, gain: Seq<char>, limiter: Seq<char>) -> Seq<
    Seq<char>,
> {
    seq![
        "State: "@ + status.state,
        "Device: "@ + if status.selected_device.len() == 0 {
            "not selected"@
        } else {
            status.selected_device
        },
        "Microphone: "@ + on_off_text(status.mic_active),
        "Gain: "@ + gain + " dB"@,
        "Limiter: "@ + limiter + " dBFS"@,
        "UPower bridge: "@ + if status.power_bridge_available {
            "available"@
        } else {
            "unavailable"@
        },
    ] + error_lines(status.last_error)
}

/// The lines that describe the microphone.
pub open spec fn described_microphone(
    status: StatusView,
    gain: Seq<char>,
    limiter: Seq<char>,
) -> Seq<Seq<char>> {
    seq![
        "Microphone: "@ + on_off_text(status.mic_active),
        "State: "@ + status.state,
        "Gain: "@ + gain + " dB"@,
        "Limiter: "@ + limiter + " dBFS"@,
        "Reconnect attempt: "@ + decimal(status.reconnect_attempt as nat),
    ] + error_lines(status.last_error)
}

/// The lines that describe the batteries of the earbuds.
pub open spec fn described_battery(battery: BatteryStatus) -> Seq<Seq<char>> {
    seq![
        "Left: "@ + percent_text(battery.left_percent) + charging_text(battery.left_charging),
        "Right: "@ + percent_text(battery.right_percent) + charging_text(battery.right_charging),
    ]
}

/// The line that describes a device.
pub open spec fn described_device(device: DeviceView) -> Seq<char> {
    (if device.selected {
        "*"@
    } else {
        " "@
    }) + " "@ + device.address + "  "@ + device.name + "  "@ + if device.connected {
        "connected"@
    } else {
        "disconnected"@
    }
}

/// The lines that describe the devices.
pub open spec fn described_devices(devices: Seq<DeviceView>) -> Seq<Seq<char>> {
    if devices.len() == 0 {
        seq!["No AirPods found by BlueZ."@]
    } else {
        devices.map_values(|d: DeviceView| described_device(d))
    }
}

fn with_error(lines: &mut Vec<String>, last_error: &str)
    ensures
        texts(final(lines)@) == texts(old(lines)@) + error_lines(last_error@),
{
    let ghost before = texts(lines@);
    if !last_error.is_empty() {
        let mut text = "Last error: ".to_owned();
        text.append(last_error);
        lines.push(text);
    }
    assert(texts(lines@) =~= before + error_lines(last_error@));
}

/// Two texts as one.
fn pair(first: &str, second: &str) -> (text: String)
    ensures
        text@ == first@ + second@,
{
    let mut text = first.to_owned();
    text.append(second);
    text
}

/// Three texts as one.
fn triple(first: &str, second: &str, third: &str) -> (text: String)
    ensures
        text@ == first@ + second@ + third@,
{
    let mut text = first.to_owned();
    text.append(second);
    text.append(third);
    text
}

/// The lines that describe the daemon.
pub fn print_status(status: &DaemonStatus, gain: &str, limiter: &str) -> (lines: Vec<String>)
    ensures
        texts(lines@) == described_status(status@, gain@, limiter@),
{
    let device = if status.selected_device.as_str().is_empty() {
        "not selected"
    } else {
        status.selected_device.as_str()
    };
    let bridge = if status.power_bridge_available {
        "available"
    } else {
        "unavailable"
    };
    let mut lines = vec![
        pair("State: ", status.state.as_str()),
        pair("Device: ", device),
        pair("Microphone: ", on_off(status.mic_active)),
        triple("Gain: ", gain, " dB"),
        triple("Limiter: ", limiter, " dBFS"),
        pair("UPower bridge: ", bridge),
    ];
    with_error(&mut lines, status.last_error.as_str());
    assert(texts(lines@) =~= described_status(status@, gain@, limiter@));
    lines
}

/// The lines that describe the microphone.
pub fn print_mic_status(status: &DaemonStatus, gain: &str, limiter: &str) -> (lines: Vec<String>)
    ensures
        texts(lines@) == described_microphone(status@, gain@, limiter@),
{
    let attempt = to_decimal(status.reconnect_attempt as u128);
    let mut lines = vec![
        pair("Microphone: ", on_off(status.mic_active)),
        pair("State: ", status.state.as_str()),
        triple("Gain: ", gain, " dB"),
        triple("Limiter: ", limiter, " dBFS"),
        pair("Reconnect attempt: ", attempt.as_str()),
    ];
    with_error(&mut lines, status.last_error.as_str());
    assert(texts(lines@) =~= described_microphone(status@, gain@, limiter@));
    lines
}

/// The lines that describe the batteries of the earbuds.
pub fn print_battery(battery: BatteryStatus) -> (lines: Vec<String>)
    ensures
        texts(lines@) == described_battery(battery),
{
    let left = percent(battery.left_percent);
    let right = percent(battery.right_percent);
    let lines = vec![
        triple("Left: ", left.as_str(), charging(battery.left_charging)),
        triple("Right: ", right.as_str(), charging(battery.right_charging)),
    ];
    assert(texts(lines@) =~= described_battery(battery));
    lines
}

/// The lines that describe the devices.
pub fn print_devices(devices: &Vec<DeviceInfo>) -> (lines: Vec<String>)
    ensures
        texts(lines@) == described_devices(device_views(devices@)),
{
    if devices.len() == 0 {
        let lines = vec!["No AirPods found by BlueZ.".to_owned()];
        assert(texts(lines@) =~= described_devices(device_views(devices@)));
        return lines;
    }
    let mut lines: Vec<String> = Vec::new();
    for i in 0..devices.len()
        invariant
            lines.len() == i,
            forall|j: int|
                0 <= j < i ==> (#[trigger] lines@[j])@ == described_device(devices@[j]@),
    {
        let device = &devices[i];
        let mut text = if device.selected {
            "*".to_owned()
        } else {
            " ".to_owned()
        };
        text.append(" ");
        text.append(device.address.as_str());
        text.append("  ");
        text.append(device.name.as_str());
        text.append("  ");
        text.append(
            if device.connected {
                "connected"
            } else {
                "disconnected"
            },
        );
        lines.push(text);
    }
    assert(texts(lines@) =~= described_devices(device_views(devices@)));
    lines
}

/// What the command line does with the daemon, as far as it confirms it.
#[derive(Clone, Copy, Debug)]
pub enum Request<'a> {
    /// A device was selected.
    Selected { address: &'a str },
    /// The microphone was started.
    MicStarted,
    /// The microphone was stopped.
    MicStopped,
    /// The gain was set.
    GainSet { gain: &'a str },
    /// The limiter was set.
    LimiterSet { limiter: &'a str },
    /// A listening mode was asked for.
    ModeSent { mode: ModeCommand },
}

/// The confirmation of a request.
pub fn confirmation(request: Request) -> (text: String)
    ensures
        text@ == (match request {
            Request::Selected { address } => "Selected "@ + address@ + "."@,
            Request::MicStarted => "Microphone start requested."@,
            Request::MicStopped => "Microphone stop requested."@,
            Request::GainSet { gain } => "Gain set to "@ + gain@ + " dB."@,
            Request::LimiterSet { limiter } => "Limiter set to "@ + limiter@ + " dBFS."@,
            Request::ModeSent { mode } => "Listening mode command sent: "@ + mode.mode().name()
                + "."@,
        }),
{
    match request {
        Request::Selected { address } => triple("Selected ", address, "."),
        Request::MicStarted => "Microphone start requested.".to_owned(),
        Request::MicStopped => "Microphone stop requested.".to_owned(),
        Request::GainSet { gain } => triple("Gain set to ", gain, " dB."),
        Request::LimiterSet { limiter } => triple("Limiter set to ", limiter, " dBFS."),
        Request::ModeSent { mode } => triple("Listening mode command sent: ", mode.as_str(), "."),
    }
}

/// Different modes of the command line reach the daemon as different modes.
pub proof fn law_modes_reach_the_daemon(left: ModeCommand, right: ModeCommand)
    requires
        left != right,
    ensures
        left.mode() != right.mode(),
        left.mode().name() != right.mode().name(),
{
    crate::aacp::law_modes_are_told_apart(left.mode(), right.mode());
}

/// A mode of the command line goes to the daemon under the name by which it was asked for.
pub proof fn law_modes_keep_their_names(mode: ModeCommand, name: &'static str)
    requires
        call_ensures(ModeCommand::as_str, (mode,), name),
    ensures
        mode == ModeCommand::Off ==> name@ == "off"@,
        mode == ModeCommand::Anc ==> name@ == "anc"@,
        mode == ModeCommand::Transparency ==> name@ == "transparency"@,
        mode == ModeCommand::Adaptive ==> name@ == "adaptive"@,
{
}

proof fn lemma_texts(lines: Seq<String>)
    ensures
        texts(lines).len() == lines.len(),
        forall|i: int| 0 <= i < lines.len() ==> (#[trigger] lines[i])@ == texts(lines)[i],
{
}

/// Each device has its line, in the order of the list: it begins with an asterisk exactly where
/// the device is selected, and says its address, its name and whether it is connected. Without
/// devices one line says so.
pub proof fn law_each_device_has_its_line(devices: &Vec<DeviceInfo>, lines: Vec<String>, i: int)
    requires
        call_ensures(print_devices, (devices,), lines),
    ensures
        devices@.len() == 0 ==> lines@.len() == 1,
        devices@.len() > 0 ==> lines@.len() == devices@.len(),
        0 <= i < devices@.len() ==> {
            let device = devices@[i];
            &&& lines@[i]@[0] == '*' <==> device.selected
            &&& lines@[i]@ == lines@[i]@.take(1) + " "@ + device.address@ + "  "@ + device.name@
                + "  "@ + if device.connected {
                "connected"@
            } else {
                "disconnected"@
            }
        },
{
    lemma_texts(lines@);
    let views = device_views(devices@);
    assert(views.len() == devices@.len());
    if 0 <= i < devices@.len() {
        reveal_strlit("*");
        reveal_strlit(" ");
        assert(views[i] == devices@[i]@);
        assert(lines@[i]@ == described_device(views[i]));
        let mark = if devices@[i].selected {
            "*"@
        } else {
            " "@
        };
        assert(lines@[i]@.take(1) =~= mark);
    }
}

/// The earbuds have a line each, the left one first: its percentage, or that it is unknown, and
/// whether it is charging.
pub proof fn law_each_earbud_has_its_line(battery: BatteryStatus, lines: Vec<String>)
    requires
        call_ensures(print_battery, (battery,), lines),
    ensures
        lines@.len() == 2,
        battery.left_percent >= 0 ==> lines@[0]@ == "Left: "@ + (decimal(
            battery.left_percent as nat,
        ) + "%"@) + (if battery.left_charging {
            " (charging)"@
        } else {
            ""@
        }),
        battery.left_percent < 0 ==> lines@[0]@ == "Left: "@ + "unknown"@ + (
        if battery.left_charging {
            " (charging)"@
        } else {
            ""@
        }),
        battery.right_percent >= 0 ==> lines@[1]@ == "Right: "@ + (decimal(
            battery.right_percent as nat,
        ) + "%"@) + (if battery.right_charging {
            " (charging)"@
        } else {
            ""@
        }),
        battery.right_percent < 0 ==> lines@[1]@ == "Right: "@ + "unknown"@ + (
        if battery.right_charging {
            " (charging)"@
        } else {
            ""@
        }),
{
    lemma_texts(lines@);
    assert(lines@[0]@ == texts(lines@)[0] && lines@[1]@ == texts(lines@)[1]);
}

/// The status is printed line by line, and the last error has a line exactly where there is one.
pub proof fn law_the_status_is_printed_line_by_line(
    status: &DaemonStatus,
    gain: &str,
    limiter: &str,
    lines: Vec<String>,
)
    requires
        call_ensures(print_status, (status, gain, limiter), lines),
    ensures
        lines@.len() == if status.last_error@.len() == 0 {
            6int
        } else {
            7
        },
        lines@[0]@ == "State: "@ + status.state@,
        status.selected_device@.len() > 0 ==> lines@[1]@ == "Device: "@ + status.selected_device@,
        status.selected_device@.len() == 0 ==> lines@[1]@ == "Device: "@ + "not selected"@,
        status.mic_active ==> lines@[2]@ == "Microphone: "@ + "active"@,
        !status.mic_active ==> lines@[2]@ == "Microphone: "@ + "inactive"@,
        lines@[3]@ == "Gain: "@ + gain@ + " dB"@,
        lines@[4]@ == "Limiter: "@ + limiter@ + " dBFS"@,
        status.power_bridge_available ==> lines@[5]@ == "UPower bridge: "@ + "available"@,
        !status.power_bridge_available ==> lines@[5]@ == "UPower bridge: "@ + "unavailable"@,
        status.last_error@.len() > 0 ==> lines@[6]@ == "Last error: "@ + status.last_error@,
{
    lemma_texts(lines@);
    let printed = texts(lines@);
    assert(printed == described_status(status@, gain@, limiter@));
    assert(lines@[0]@ == printed[0] && lines@[1]@ == printed[1] && lines@[2]@ == printed[2]);
    assert(lines@[3]@ == printed[3] && lines@[4]@ == printed[4] && lines@[5]@ == printed[5]);
    if status.last_error@.len() > 0 {
        assert(lines@[6]@ == printed[6]);
    }
}

/// The microphone is printed line by line, with the number of reconnect attempts.
pub proof fn law_the_microphone_is_printed_line_by_line(
    status: &DaemonStatus,
    gain: &str,
    limiter: &str,
    lines: Vec<String>,
)
    requires
        call_ensures(print_mic_status, (status, gain, limiter), lines),
    ensures
        lines@.len() == if status.last_error@.len() == 0 {
            5int
        } else {
            6
        },
        status.mic_active ==> lines@[0]@ == "Microphone: "@ + "active"@,
        !status.mic_active ==> lines@[0]@ == "Microphone: "@ + "inactive"@,
        lines@[1]@ == "State: "@ + status.state@,
        lines@[2]@ == "Gain: "@ + gain@ + " dB"@,
        lines@[3]@ == "Limiter: "@ + limiter@ + " dBFS"@,
        lines@[4]@ == "Reconnect attempt: "@ + decimal(status.reconnect_attempt as nat),
        status.last_error@.len() > 0 ==> lines@[5]@ == "Last error: "@ + status.last_error@,
{
    lemma_texts(lines@);
    let printed = texts(lines@);
    assert(printed == described_microphone(status@, gain@, limiter@));
    assert(lines@[0]@ == printed[0] && lines@[1]@ == printed[1] && lines@[2]@ == printed[2]);
    assert(lines@[3]@ == printed[3] && lines@[4]@ == printed[4]);
    if status.last_error@.len() > 0 {
        assert(lines@[5]@ == printed[5]);
    }
}

/// A confirmation says what was asked for, with the value that was given.
pub proof fn law_confirmations_say_what_was_asked_for(request: Request, text: String)
    requires
        call_ensures(confirmation, (request,), text),
    ensures
        request matches Request::Selected { address } ==> text@ == "Selected "@ + address@ + "."@,
        request matches Request::GainSet { gain } ==> text@ == "Gain set to "@ + gain@ + " dB."@,
        request matches Request::LimiterSet { limiter } ==> text@ == "Limiter set to "@ + limiter@
            + " dBFS."@,
        request is MicStarted ==> text@ == "Microphone start requested."@,
        request is MicStopped ==> text@ == "Microphone stop requested."@,
        request == (Request::ModeSent { mode: ModeCommand::Anc }) ==> text@
            == "Listening mode command sent: "@ + "anc"@ + "."@,
        request == (Request::ModeSent { mode: ModeCommand::Off }) ==> text@
            == "Listening mode command sent: "@ + "off"@ + "."@,
        request == (Request::ModeSent { mode: ModeCommand::Transparency }) ==> text@
            == "Listening mode command sent: "@ + "transparency"@ + "."@,
        request == (Request::ModeSent { mode: ModeCommand::Adaptive }) ==> text@
            == "Listening mode command sent: "@ + "adaptive"@ + "."@,
{
}

} // verus!

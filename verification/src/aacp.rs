//! The AACP protocol that AirPods speak over Bluetooth L2CAP.
//!
//! This module holds the packets of a session, the state that decides which of
//! them are sent, and the rules by which connecting and sending are retried.
use crate::text::{decimal, same_text, to_decimal};
use vstd::prelude::*;

verus! {

/// The PSM on which AirPods offer AACP over Bluetooth BR/EDR.
pub const AACP_PSM: u16 = 0x1001;

/// The time within which a connection and its peer must be ready.
pub const CONNECT_TIMEOUT_MS: u64 = 10_000;

/// The time within which one packet must be sent, retries included.
pub const IO_TIMEOUT_MS: u64 = 3_000;

/// The pause between two looks at a connection and between two tries to send.
pub const CONNECTION_POLL_INTERVAL_MS: u64 = 100;

/// The pause behind the handshake.
pub const HANDSHAKE_SETTLE_MS: u64 = 100;

/// How often sending is retried while the socket is not connected.
pub const SEND_RETRY_LIMIT: usize = 10;

/// The packet that opens a session.
pub open spec fn handshake_packet() -> Seq<u8> {
    seq![
        0x00, 0x00, 0x04, 0x00, 0x01, 0x00, 0x02, 0x00, 0x00, 0x00, 0x00, 0x00, 0x00, 0x00, 0x00,
        0x00,
    ]
}

/// The packet that selects the features needed for notifications.
pub open spec fn features_packet() -> Seq<u8> {
    seq![0x04, 0x00, 0x04, 0x00, 0x4d, 0x00, 0xd7, 0x00, 0x00, 0x00, 0x00, 0x00, 0x00, 0x00]
}

/// The packet that subscribes to every notification.
pub open spec fn notifications_packet() -> Seq<u8> {
    seq![0x04, 0x00, 0x04, 0x00, 0x0f, 0x00, 0xff, 0xff, 0xff, 0xff]
}

/// The packet that starts the microphone stream.
pub open spec fn start_audio_packet() -> Seq<u8> {
    seq![
        0x04, 0x00, 0x04, 0x00, 0x58, 0x00, 0x00, 0x00, 0x09, 0x00, 0x00, 0x01, 0x82, 0x00, 0x00,
        0x00, 0x04, 0x96, 0x00,
    ]
}

/// The packet that stops the microphone stream.
pub open spec fn stop_audio_packet() -> Seq<u8> {
    seq![0x04, 0x00, 0x04, 0x00, 0x58, 0x00, 0x00, 0x00, 0x02, 0x00, 0x03, 0x01]
}

/// The control command that sets a listening mode.
pub open spec fn listening_mode_packet(mode: ListeningMode) -> Seq<u8> {
    seq![0x04, 0x00, 0x04, 0x00, 0x09, 0x00, 0x0D, mode.code(), 0x00, 0x00, 0x00]
}

/// How a packet begins that acknowledges the handshake.
pub open spec fn handshake_ack_prefix() -> Seq<u8> {
    seq![0x01, 0x00, 0x04, 0x00]
}

/// How a packet begins that acknowledges the feature setup.
pub open spec fn features_ack_prefix() -> Seq<u8> {
    seq![0x04, 0x00, 0x04, 0x00, 0x2b, 0x00]
}

/// Whether a packet begins with the given bytes.
pub open spec fn begins_with(packet: Seq<u8>, prefix: Seq<u8>) -> bool {
    prefix.len() <= packet.len() && packet.take(prefix.len() as int) == prefix
}

/// Whether `packet` begins with `prefix`.
pub(crate) fn packet_starts_with(packet: &[u8], prefix: &[u8]) -> (found: bool)
    ensures
        found == begins_with(packet@, prefix@),
{
    if prefix.len() > packet.len() {
        return false;
    }
    for i in 0..prefix.len()
        invariant
            prefix.len() <= packet.len(),
            forall|j: int| 0 <= j < i ==> packet@[j] == prefix@[j],
    {
        if packet[i] != prefix[i] {
            assert(packet@.take(prefix@.len() as int)[i as int] != prefix@[i as int]);
            return false;
        }
    }
    assert(packet@.take(prefix@.len() as int) =~= prefix@);
    true
}

/// The listening modes that AirPods take through control command `0x0D`.
#[derive(Clone, Copy, Debug, PartialEq, Eq, Structural)]
pub enum ListeningMode {
    /// Neither noise cancellation nor transparency.
    Off,
    /// Active noise cancellation.
    NoiseCancellation,
    /// Outside sound is let in.
    Transparency,
    /// The device adapts the cancellation to its surroundings.
    Adaptive,
}

impl ListeningMode {
    /// The value of the mode in a control command.
    pub open spec fn code(self) -> u8 {
        match self {
            ListeningMode::Off => 0x01,
            ListeningMode::NoiseCancellation => 0x02,
            ListeningMode::Transparency => 0x03,
            ListeningMode::Adaptive => 0x04,
        }
    }

    /// The name of the mode on the command line and on the bus.
    pub open spec fn name(self) -> Seq<char> {
        match self {
            ListeningMode::Off => "off"@,
            ListeningMode::NoiseCancellation => "anc"@,
            ListeningMode::Transparency => "transparency"@,
            ListeningMode::Adaptive => "adaptive"@,
        }
    }

    /// The mode with the given name.
    pub fn parse(value: &str) -> (mode: Option<ListeningMode>)
        ensures
            forall|m: ListeningMode| mode == Some(m) <==> value@ == #[trigger] m.name(),
    {
        proof {
            lemma_mode_names();
            assert(ListeningMode::Off.name() == "off"@);
            assert(ListeningMode::NoiseCancellation.name() == "anc"@);
            assert(ListeningMode::Transparency.name() == "transparency"@);
            assert(ListeningMode::Adaptive.name() == "adaptive"@);
        }
        if same_text(value, "off") {
            Some(ListeningMode::Off)
        } else if same_text(value, "anc") {
            Some(ListeningMode::NoiseCancellation)
        } else if same_text(value, "transparency") {
            Some(ListeningMode::Transparency)
        } else if same_text(value, "adaptive") {
            Some(ListeningMode::Adaptive)
        } else {
            None
        }
    }

    /// The name of the mode on the command line and in logs.
    pub fn as_str(self) -> (name: &'static str)
        ensures
            name@ == self.name(),
    {
        match self {
            ListeningMode::Off => "off",
            ListeningMode::NoiseCancellation => "anc",
            ListeningMode::Transparency => "transparency",
            ListeningMode::Adaptive => "adaptive",
        }
    }

    fn to_code(self) -> (code: u8)
        ensures
            code == self.code(),
    {
        match self {
            ListeningMode::Off => 0x01,
            ListeningMode::NoiseCancellation => 0x02,
            ListeningMode::Transparency => 0x03,
            ListeningMode::Adaptive => 0x04,
        }
    }
}

proof fn lemma_mode_names()
    ensures
        forall|a: ListeningMode, b: ListeningMode| #[trigger] a.name() == #[trigger] b.name() ==> a == b,
{
    reveal_strlit("off");
    reveal_strlit("anc");
    reveal_strlit("transparency");
    reveal_strlit("adaptive");
    assert("off"@[0] == 'o');
    assert("anc"@.len() == 3 && "anc"@[0] == 'a');
    assert("transparency"@.len() == 12);
    assert("adaptive"@.len() == 8);
}

/// Different modes have different names and different command packets.
pub proof fn law_modes_are_told_apart(left: ListeningMode, right: ListeningMode)
    requires
        left != right,
    ensures
        left.name() != right.name(),
        listening_mode_packet(left) != listening_mode_packet(right),
{
    lemma_mode_names();
    assert(listening_mode_packet(left)[7] != listening_mode_packet(right)[7]);
}

/// What a session fails at.
#[derive(Clone, Copy, Debug, PartialEq, Eq, Structural)]
pub enum AacpFailure {
    /// Creating its socket.
    Socket,
    /// Connecting in time.
    ConnectTimeout,
    /// Connecting.
    Connect,
    /// Getting a peer in time.
    PeerTimeout,
    /// Looking at the peer.
    Peer,
    /// Sending the handshake.
    Handshake,
    /// Sending the feature setup.
    Features,
    /// Requesting notifications.
    Notifications,
    /// Starting the microphone stream.
    Start,
    /// Stopping the microphone stream.
    Stop,
    /// Setting a listening mode.
    ListeningMode,
    /// Receiving a packet.
    Receive,
}

impl AacpFailure {
    /// The message of this failure.
    pub open spec fn text(self) -> Seq<char> {
        match self {
            AacpFailure::Socket => "failed to create AACP L2CAP socket"@,
            AacpFailure::ConnectTimeout => "AACP L2CAP connection timed out"@,
            AacpFailure::Connect => "AACP L2CAP connection failed"@,
            AacpFailure::PeerTimeout => "AACP L2CAP peer did not become ready within 10 seconds"@,
            AacpFailure::Peer => "failed to verify AACP L2CAP peer"@,
            AacpFailure::Handshake => "AACP handshake failed"@,
            AacpFailure::Features => "failed to configure AACP notification features"@,
            AacpFailure::Notifications => "failed to request AACP notifications"@,
            AacpFailure::Start => "AACP microphone START failed"@,
            AacpFailure::Stop => "AACP microphone STOP failed"@,
            AacpFailure::ListeningMode => "failed to set AirPods listening mode"@,
            AacpFailure::Receive => "Bluetooth receive failed"@,
        }
    }

    /// The message of this failure.
    pub fn message(self) -> (message: &'static str)
        ensures
            message@ == self.text(),
    {
        match self {
            AacpFailure::Socket => "failed to create AACP L2CAP socket",
            AacpFailure::ConnectTimeout => "AACP L2CAP connection timed out",
            AacpFailure::Connect => "AACP L2CAP connection failed",
            AacpFailure::PeerTimeout => "AACP L2CAP peer did not become ready within 10 seconds",
            AacpFailure::Peer => "failed to verify AACP L2CAP peer",
            AacpFailure::Handshake => "AACP handshake failed",
            AacpFailure::Features => "failed to configure AACP notification features",
            AacpFailure::Notifications => "failed to request AACP notifications",
            AacpFailure::Start => "AACP microphone START failed",
            AacpFailure::Stop => "AACP microphone STOP failed",
            AacpFailure::ListeningMode => "failed to set AirPods listening mode",
            AacpFailure::Receive => "Bluetooth receive failed",
        }
    }
}

/// One AACP session with a pair of AirPods.
#[derive(Clone, Copy, Debug, PartialEq, Eq, Structural)]
pub struct AacpSession {
    /// Whether the microphone stream may be running on the device.
    pub started: bool,
}

impl AacpSession {
    /// A session that has just been connected.
    pub fn new() -> (session: AacpSession)
        ensures
            !session.started,
    {
        AacpSession { started: false }
    }

    /// The packet that opens the session.
    pub fn initialize(&self) -> (packet: Vec<u8>)
        ensures
            packet@ == handshake_packet(),
    {
        vec![
            0x00, 0x00, 0x04, 0x00, 0x01, 0x00, 0x02, 0x00, 0x00, 0x00, 0x00, 0x00, 0x00, 0x00,
            0x00, 0x00,
        ]
    }

    /// Whether a packet acknowledges the handshake.
    pub fn is_handshake_ack(packet: &[u8]) -> (ack: bool)
        ensures
            ack == begins_with(packet@, handshake_ack_prefix()),
    {
        let prefix: Vec<u8> = vec![0x01, 0x00, 0x04, 0x00];
        assert(prefix@ =~= handshake_ack_prefix());
        packet_starts_with(packet, prefix.as_slice())
    }

    /// Whether a packet acknowledges the feature setup.
    pub fn is_features_ack(packet: &[u8]) -> (ack: bool)
        ensures
            ack == begins_with(packet@, features_ack_prefix()),
    {
        let prefix: Vec<u8> = vec![0x04, 0x00, 0x04, 0x00, 0x2b, 0x00];
        assert(prefix@ =~= features_ack_prefix());
        packet_starts_with(packet, prefix.as_slice())
    }

    /// The feature setup, sent once the handshake is acknowledged.
    pub fn set_specific_features(&self) -> (packet: Vec<u8>)
        ensures
            packet@ == features_packet(),
    {
        vec![0x04, 0x00, 0x04, 0x00, 0x4d, 0x00, 0xd7, 0x00, 0x00, 0x00, 0x00, 0x00, 0x00, 0x00]
    }

    /// The request for notifications, battery values among them.
    pub fn request_notifications(&self) -> (packet: Vec<u8>)
        ensures
            packet@ == notifications_packet(),
    {
        vec![0x04, 0x00, 0x04, 0x00, 0x0f, 0x00, 0xff, 0xff, 0xff, 0xff]
    }

    /// The packet that starts the microphone stream, or `None` where it was
    /// started before.
    ///
    /// The session counts as started from here on, so that a caller that gives up
    /// while the packet is on its way still stops the stream.
    pub fn start_audio(&mut self) -> (packet: Option<Vec<u8>>)
        ensures
            final(self).started,
            packet is Some <==> !old(self).started,
            packet matches Some(bytes) ==> bytes@ == start_audio_packet(),
    {
        if self.started {
            return None;
        }
        self.started = true;
        let packet: Vec<u8> = vec![
            0x04, 0x00, 0x04, 0x00, 0x58, 0x00, 0x00, 0x00, 0x09, 0x00, 0x00, 0x01, 0x82, 0x00,
            0x00, 0x00, 0x04, 0x96, 0x00,
        ];
        assert(packet@ =~= start_audio_packet());
        Some(packet)
    }

    /// Takes note of whether the start packet was sent.
    pub fn start_finished(&mut self, sent: bool) -> (result: Result<(), AacpFailure>)
        ensures
            final(self).started == (old(self).started && sent),
            result == if sent {
                Ok(())
            } else {
                Err(AacpFailure::Start)
            },
    {
        if sent {
            Ok(())
        } else {
            self.started = false;
            Err(AacpFailure::Start)
        }
    }

    /// The packet that stops the microphone stream, or `None` where it was not
    /// started.
    pub fn stop_audio(&self) -> (packet: Option<Vec<u8>>)
        ensures
            packet is Some <==> self.started,
            packet matches Some(bytes) ==> bytes@ == stop_audio_packet(),
    {
        if !self.started {
            return None;
        }
        let packet: Vec<u8> = vec![
            0x04, 0x00, 0x04, 0x00, 0x58, 0x00, 0x00, 0x00, 0x02, 0x00, 0x03, 0x01,
        ];
        assert(packet@ =~= stop_audio_packet());
        Some(packet)
    }

    /// Takes note of whether the stop packet was sent. One that was not sent can be
    /// sent again.
    pub fn stop_finished(&mut self, sent: bool) -> (result: Result<(), AacpFailure>)
        ensures
            final(self).started == (old(self).started && !sent),
            result == if sent {
                Ok(())
            } else {
                Err(AacpFailure::Stop)
            },
    {
        if sent {
            self.started = false;
            Ok(())
        } else {
            Err(AacpFailure::Stop)
        }
    }

    /// The control command that sets a listening mode.
    pub fn set_listening_mode(&self, mode: ListeningMode) -> (packet: Vec<u8>)
        ensures
            packet@ == listening_mode_packet(mode),
    {
        vec![0x04, 0x00, 0x04, 0x00, 0x09, 0x00, 0x0D, mode.to_code(), 0x00, 0x00, 0x00]
    }

    /// Whether the start command was sent.
    pub fn is_audio_started(&self) -> (started: bool)
        ensures
            started == self.started,
    {
        self.started
    }
}

/// What a look at the peer of a fresh socket shows.
#[derive(Clone, Copy, Debug, PartialEq, Eq, Structural)]
pub enum PeerLook {
    /// The peer with its channel identifier.
    Peer { cid: u16 },
    /// The kernel reports that the socket is not connected.
    NotConnected,
    /// The kernel reports another error.
    Failed,
}

/// What follows a look at the peer.
#[derive(Clone, Copy, Debug, PartialEq, Eq, Structural)]
pub enum PeerStep {
    /// The peer is ready.
    Ready,
    /// Look again after a pause.
    LookAgain,
    /// The connection cannot be used.
    Failed,
}

/// Decides whether a freshly connected socket is ready: its peer must have a
/// channel identifier.
pub fn peer_step(look: PeerLook) -> (step: PeerStep)
    ensures
        step == PeerStep::Ready <==> (look matches PeerLook::Peer { cid } && cid != 0),
        step == PeerStep::Failed <==> look == PeerLook::Failed,
{
    match look {
        PeerLook::Peer { cid } => if cid != 0 {
            PeerStep::Ready
        } else {
            PeerStep::LookAgain
        },
        PeerLook::NotConnected => PeerStep::LookAgain,
        PeerLook::Failed => PeerStep::Failed,
    }
}

/// What one try to send a packet gave.
#[derive(Clone, Copy, Debug, PartialEq, Eq, Structural)]
pub enum SendTry {
    /// The number of bytes that were written.
    Written { count: usize },
    /// The kernel reports that the socket is not connected.
    NotConnected,
    /// The kernel reports another error.
    Failed,
}

/// What follows a try to send a packet.
#[derive(Clone, Copy, Debug, PartialEq, Eq, Structural)]
pub enum SendStep {
    /// The whole packet was sent.
    Sent,
    /// Try again after a pause; `attempts` retries have then been made.
    Retry { attempts: usize },
    /// Sending failed.
    Failed,
    /// Only a part of the packet was written.
    Short { written: usize, length: usize },
}

impl SendStep {
    /// The step that follows a try, after a number of retries.
    pub open spec fn following(result: SendTry, attempts: usize, length: usize) -> SendStep {
        match result {
            SendTry::Written { count } => if count == length {
                SendStep::Sent
            } else {
                SendStep::Short { written: count, length }
            },
            SendTry::NotConnected => if attempts < SEND_RETRY_LIMIT {
                SendStep::Retry { attempts: (attempts + 1) as usize }
            } else {
                SendStep::Failed
            },
            SendTry::Failed => SendStep::Failed,
        }
    }
}

/// Decides what follows a try to send a packet of `length` bytes, after
/// `attempts` retries.
pub fn send_step(result: SendTry, attempts: usize, length: usize) -> (step: SendStep)
    ensures
        step == SendStep::following(result, attempts, length),
{
    match result {
        SendTry::Written { count } => if count == length {
            SendStep::Sent
        } else {
            SendStep::Short { written: count, length }
        },
        SendTry::NotConnected => if attempts < SEND_RETRY_LIMIT {
            SendStep::Retry { attempts: attempts + 1 }
        } else {
            SendStep::Failed
        },
        SendTry::Failed => SendStep::Failed,
    }
}

/// The message of a packet that was written in part.
pub fn short_write_message(written: usize, length: usize) -> (message: String)
    ensures
        message@ == "short Bluetooth packet write: "@ + decimal(written as nat) + "/"@ + decimal(
            length as nat,
        ) + " bytes"@,
{
    let mut message = "short Bluetooth packet write: ".to_owned();
    message.append(to_decimal(written as u128).as_str());
    message.append("/");
    message.append(to_decimal(length as u128).as_str());
    message.append(" bytes");
    message
}

/// The number of retries after a row of tries, each of which led to a retry;
/// `None` where one of them led to something else.
pub open spec fn retries_after(tries: Seq<SendTry>, length: usize) -> Option<usize>
    decreases tries.len(),
{
    if tries.len() == 0 {
        Some(0)
    } else {
        match retries_after(tries.drop_last(), length) {
            Some(attempts) => match SendStep::following(tries.last(), attempts, length) {
                SendStep::Retry { attempts } => Some(attempts),
                _ => None,
            },
            None => None,
        }
    }
}

/// Sending ends: however the tries turn out, at most ten of them lead to
/// another one.
pub proof fn law_sending_ends(tries: Seq<SendTry>, length: usize)
    ensures
        retries_after(tries, length) matches Some(attempts) ==> {
            &&& attempts == tries.len()
            &&& tries.len() <= SEND_RETRY_LIMIT
        },
    decreases tries.len(),
{
    if tries.len() > 0 {
        law_sending_ends(tries.drop_last(), length);
    }
}

/// The acknowledgements and the audio packets are told apart by their first bytes.
pub proof fn law_packet_kinds_are_disjoint(packet: Seq<u8>)
    ensures
        !(begins_with(packet, handshake_ack_prefix()) && begins_with(
            packet,
            features_ack_prefix(),
        )),
        !(begins_with(packet, handshake_ack_prefix()) && crate::framing::audio_sdu(packet)),
        !(begins_with(packet, features_ack_prefix()) && crate::framing::audio_sdu(packet)),
{
    if begins_with(packet, handshake_ack_prefix()) {
        assert(packet.take(4)[0] == 0x01);
    }
    if begins_with(packet, features_ack_prefix()) {
        assert(packet.take(6)[0] == 0x04);
        assert(packet.take(6)[4] == 0x2b);
    }
}

/// The name of a mode leads to the command with the code of that mode, and no other text
/// names a mode.
pub proof fn law_mode_names_reach_their_codes(
    name: &str,
    parsed: Option<ListeningMode>,
    session: &AacpSession,
    mode: ListeningMode,
    packet: Vec<u8>,
)
    requires
        call_ensures(ListeningMode::parse, (name,), parsed),
        parsed == Some(mode),
        call_ensures(AacpSession::set_listening_mode, (session, mode), packet),
    ensures
        name@ == "off"@ || name@ == "anc"@ || name@ == "transparency"@ || name@ == "adaptive"@,
        packet@.len() == 11 && packet@[4] == 0x09 && packet@[6] == 0x0d,
        name@ == "off"@ <==> packet@[7] == 1,
        name@ == "anc"@ <==> packet@[7] == 2,
        name@ == "transparency"@ <==> packet@[7] == 3,
        name@ == "adaptive"@ <==> packet@[7] == 4,
{
    lemma_mode_names();
    assert(name@ == mode.name());
    assert(ListeningMode::Off.name() == "off"@);
    assert(ListeningMode::NoiseCancellation.name() == "anc"@);
    assert(ListeningMode::Transparency.name() == "transparency"@);
    assert(ListeningMode::Adaptive.name() == "adaptive"@);
}

/// A mode is read back from its own name, and a text that is no name gives none.
pub proof fn law_modes_are_read_from_their_names(
    mode: ListeningMode,
    name: &'static str,
    text: &str,
    parsed: Option<ListeningMode>,
)
    requires
        call_ensures(ListeningMode::as_str, (mode,), name),
        call_ensures(ListeningMode::parse, (text,), parsed),
    ensures
        text@ == name@ <==> parsed == Some(mode),
        text@ != "off"@ && text@ != "anc"@ && text@ != "transparency"@ && text@ != "adaptive"@
            ==> parsed is None,
{
    assert(mode.name() == name@);
    if let Some(other) = parsed {
        assert(text@ == other.name());
    }
}

/// The microphone is started once: the first start gives a packet and the second one none.
/// A start that was not sent leaves nothing to be stopped.
pub proof fn law_audio_is_started_once(
    first: &mut AacpSession,
    packet: Option<Vec<u8>>,
    second: &mut AacpSession,
    again: Option<Vec<u8>>,
    reported: &mut AacpSession,
    sent: bool,
    result: Result<(), AacpFailure>,
)
    requires
        !old(first).started,
        call_ensures(AacpSession::start_audio, (first,), packet),
        *old(second) == *final(first),
        call_ensures(AacpSession::start_audio, (second,), again),
        *old(reported) == *final(first),
        call_ensures(AacpSession::start_finished, (reported, sent), result),
    ensures
        packet is Some && final(first).started,
        again is None && final(second).started,
        final(reported).started == sent,
        result is Ok <==> sent,
{
}

/// A stop packet is there exactly while the microphone may be running, and until one was
/// sent it can be sent again.
pub proof fn law_audio_is_stopped_until_it_was_sent(
    session: &AacpSession,
    packet: Option<Vec<u8>>,
    reported: &mut AacpSession,
    sent: bool,
    result: Result<(), AacpFailure>,
)
    requires
        call_ensures(AacpSession::stop_audio, (session,), packet),
        *old(reported) == *session,
        call_ensures(AacpSession::stop_finished, (reported, sent), result),
    ensures
        packet is Some <==> session.started,
        final(reported).started <==> session.started && !sent,
        result is Ok <==> sent,
{
}

/// Acknowledgements are known by their first bytes, whatever follows.
pub proof fn law_acknowledgements_begin_with_their_bytes(packet: &[u8], handshake: bool, features: bool)
    requires
        call_ensures(AacpSession::is_handshake_ack, (packet,), handshake),
        call_ensures(AacpSession::is_features_ack, (packet,), features),
    ensures
        handshake <==> packet@.len() >= 4 && packet@[0] == 1 && packet@[1] == 0 && packet@[2] == 4
            && packet@[3] == 0,
        features <==> packet@.len() >= 6 && packet@[0] == 4 && packet@[1] == 0 && packet@[2] == 4
            && packet@[3] == 0 && packet@[4] == 0x2b && packet@[5] == 0,
{
    let short = handshake_ack_prefix();
    let long = features_ack_prefix();
    if handshake {
        assert(packet@.take(4)[0] == short[0] && packet@.take(4)[1] == short[1] && packet@.take(
            4,
        )[2] == short[2] && packet@.take(4)[3] == short[3]);
    } else if packet@.len() >= 4 && packet@[0] == 1 && packet@[1] == 0 && packet@[2] == 4
        && packet@[3] == 0 {
        assert(packet@.take(4) =~= short);
    }
    if features {
        let head = packet@.take(6);
        assert(head[0] == long[0] && head[1] == long[1] && head[2] == long[2] && head[3] == long[3]
            && head[4] == long[4] && head[5] == long[5]);
    } else if packet@.len() >= 6 && packet@[0] == 4 && packet@[1] == 0 && packet@[2] == 4
        && packet@[3] == 0 && packet@[4] == 0x2b && packet@[5] == 0 {
        assert(packet@.take(6) =~= long);
    }
}

/// A connection is ready only with a channel; one that is not there yet is looked at again,
/// and one that failed is not.
pub proof fn law_a_peer_needs_a_channel(look: PeerLook, step: PeerStep)
    requires
        call_ensures(peer_step, (look,), step),
    ensures
        look matches PeerLook::Peer { cid } ==> (step == PeerStep::Ready <==> cid != 0),
        look == PeerLook::NotConnected ==> step == PeerStep::LookAgain,
        look == PeerLook::Failed ==> step == PeerStep::Failed,
        look matches PeerLook::Peer { cid } ==> cid == 0 ==> step == PeerStep::LookAgain,
{
}

/// A packet counts as sent only as a whole. A socket that is not connected yet is tried
/// again ten times, and any other error ends sending at once.
pub proof fn law_only_whole_packets_are_sent(
    result: SendTry,
    attempts: usize,
    length: usize,
    step: SendStep,
)
    requires
        call_ensures(send_step, (result, attempts, length), step),
    ensures
        step is Sent <==> result == (SendTry::Written { count: length }),
        result matches SendTry::Written { count } ==> count != length ==> step == (SendStep::Short {
            written: count,
            length,
        }),
        result is NotConnected && attempts < 10 ==> step == (SendStep::Retry {
            attempts: (attempts + 1) as usize,
        }),
        result is NotConnected && attempts >= 10 ==> step is Failed,
        result is Failed ==> step is Failed,
{
}

} // verus!

use airpods::aacp::{
    peer_step, send_step, short_write_message, AacpFailure, AacpSession, ListeningMode, PeerLook, PeerStep,
    SendStep, SendTry, SEND_RETRY_LIMIT,
};

const MODES: [ListeningMode; 4] = [
    ListeningMode::Off,
    ListeningMode::NoiseCancellation,
    ListeningMode::Transparency,
    ListeningMode::Adaptive,
];

#[test]
fn mode_names_are_read_back() {
    for mode in MODES {
        assert_eq!(ListeningMode::parse(mode.as_str()), Some(mode));
    }
    assert_eq!(ListeningMode::NoiseCancellation.as_str(), "anc");
    assert_eq!(ListeningMode::parse("ANC"), None);
    assert_eq!(ListeningMode::parse(""), None);
    assert_eq!(ListeningMode::parse("off "), None);
}

#[test]
fn mode_packets_carry_the_mode() {
    let session = AacpSession::new();
    for (mode, code) in MODES.iter().zip(1u8..) {
        assert_eq!(
            session.set_listening_mode(*mode),
            vec![0x04, 0x00, 0x04, 0x00, 0x09, 0x00, 0x0d, code, 0x00, 0x00, 0x00]
        );
    }
}

#[test]
fn setup_packets_are_fixed() {
    let session = AacpSession::new();
    let mut handshake = vec![0x00, 0x00, 0x04, 0x00, 0x01, 0x00, 0x02];
    handshake.extend([0; 9]);
    assert_eq!(session.initialize(), handshake);
    assert_eq!(
        session.set_specific_features(),
        vec![0x04, 0x00, 0x04, 0x00, 0x4d, 0x00, 0xd7, 0, 0, 0, 0, 0, 0, 0]
    );
    assert_eq!(
        session.request_notifications(),
        vec![0x04, 0x00, 0x04, 0x00, 0x0f, 0x00, 0xff, 0xff, 0xff, 0xff]
    );
}

#[test]
fn acknowledgements_are_recognised_by_their_beginning() {
    assert!(AacpSession::is_handshake_ack(&[0x01, 0x00, 0x04, 0x00, 0x77]));
    assert!(!AacpSession::is_handshake_ack(&[0x01, 0x00, 0x04]));
    assert!(AacpSession::is_features_ack(&[0x04, 0x00, 0x04, 0x00, 0x2b, 0x00]));
    assert!(!AacpSession::is_features_ack(&[0x04, 0x00, 0x04, 0x00, 0x2c, 0x00]));
}

#[test]
fn audio_is_started_once_and_stopped_once() {
    let mut session = AacpSession::new();
    assert!(!session.is_audio_started());
    assert_eq!(session.stop_audio(), None);
    let start = session.start_audio().unwrap();
    assert_eq!(
        start,
        vec![
            0x04, 0x00, 0x04, 0x00, 0x58, 0x00, 0x00, 0x00, 0x09, 0x00, 0x00, 0x01, 0x82, 0x00,
            0x00, 0x00, 0x04, 0x96, 0x00
        ]
    );
    assert!(session.is_audio_started());
    assert_eq!(session.start_finished(true), Ok(()));
    assert_eq!(session.start_audio(), None);
    let stop = session.stop_audio().unwrap();
    assert_eq!(stop, vec![0x04, 0x00, 0x04, 0x00, 0x58, 0x00, 0x00, 0x00, 0x02, 0x00, 0x03, 0x01]);
    assert_eq!(session.stop_finished(false), Err(AacpFailure::Stop));
    assert!(session.is_audio_started());
    assert_eq!(session.stop_finished(true), Ok(()));
    assert!(!session.is_audio_started());
}

#[test]
fn a_start_that_was_not_sent_leaves_nothing_to_stop() {
    let mut session = AacpSession::new();
    assert!(session.start_audio().is_some());
    assert_eq!(session.start_finished(false), Err(AacpFailure::Start));
    assert_eq!(session.stop_audio(), None);
}

#[test]
fn a_peer_is_ready_with_a_channel() {
    assert_eq!(peer_step(PeerLook::Peer { cid: 64 }), PeerStep::Ready);
    assert_eq!(peer_step(PeerLook::Peer { cid: 0 }), PeerStep::LookAgain);
    assert_eq!(peer_step(PeerLook::NotConnected), PeerStep::LookAgain);
    assert_eq!(peer_step(PeerLook::Failed), PeerStep::Failed);
}

#[test]
fn sending_is_retried_ten_times() {
    let mut attempts = 0;
    let mut retries = 0;
    loop {
        match send_step(SendTry::NotConnected, attempts, 16) {
            SendStep::Retry { attempts: next } => {
                attempts = next;
                retries += 1;
            }
            step => {
                assert_eq!(step, SendStep::Failed);
                break;
            }
        }
    }
    assert_eq!(retries, SEND_RETRY_LIMIT);
    assert_eq!(send_step(SendTry::Written { count: 16 }, 3, 16), SendStep::Sent);
    assert_eq!(send_step(SendTry::Failed, 0, 16), SendStep::Failed);
    assert_eq!(
        send_step(SendTry::Written { count: 7 }, 0, 16),
        SendStep::Short { written: 7, length: 16 }
    );
    assert_eq!(short_write_message(7, 16), "short Bluetooth packet write: 7/16 bytes");
}

#[test]
fn failures_have_messages() {
    let cases = [
        (AacpFailure::Socket, "failed to create AACP L2CAP socket"),
        (AacpFailure::ConnectTimeout, "AACP L2CAP connection timed out"),
        (AacpFailure::Connect, "AACP L2CAP connection failed"),
        (AacpFailure::PeerTimeout, "AACP L2CAP peer did not become ready within 10 seconds"),
        (AacpFailure::Peer, "failed to verify AACP L2CAP peer"),
        (AacpFailure::Handshake, "AACP handshake failed"),
        (AacpFailure::Features, "failed to configure AACP notification features"),
        (AacpFailure::Notifications, "failed to request AACP notifications"),
        (AacpFailure::Start, "AACP microphone START failed"),
        (AacpFailure::Stop, "AACP microphone STOP failed"),
        (AacpFailure::ListeningMode, "failed to set AirPods listening mode"),
        (AacpFailure::Receive, "Bluetooth receive failed"),
    ];
    for (failure, message) in cases {
        assert_eq!(failure.message(), message);
    }
}

use airpods::framing::{demux_audio_sdu, is_audio_sdu, FramingError};

fn header() -> Vec<u8> {
    let mut header = vec![0u8; 22];
    header[0] = 0x04;
    header[2] = 0x04;
    header[4] = 0x58;
    header[6] = 0x01;
    header
}

#[test]
fn short_packets_are_no_audio() {
    assert!(!is_audio_sdu(&[0x04, 0x00, 0x04]));
    assert!(!is_audio_sdu(&[0x04, 0x00, 0x04, 0x00, 0x58, 0x00, 0x01]));
}

#[test]
fn audio_packets_are_recognised() {
    assert!(is_audio_sdu(&[0x04, 0x00, 0x04, 0x00, 0x58, 0x00, 0x01, 0x00]));
    assert!(is_audio_sdu(&[0x04, 0x99, 0x04, 0x99, 0x58, 0x00, 0x01, 0x00]));
    assert!(!is_audio_sdu(&[0x04, 0x00, 0x04, 0x00, 0x58, 0x00, 0x02, 0x00]));
    assert!(!is_audio_sdu(&[0x04, 0x00, 0x04, 0x00, 0x59, 0x00, 0x01, 0x00]));
}

#[test]
fn access_units_come_out_in_order() {
    let mut packet = header();
    packet.extend([9, 9, 9, 9, 3, 10, 11, 12]);
    packet.extend([8, 8, 8, 8, 0]);
    packet.extend([7, 7, 7, 7, 1, 42]);
    let units = demux_audio_sdu(&packet).unwrap();
    let expected: Vec<&[u8]> = vec![&[10, 11, 12], &[], &[42]];
    assert_eq!(units, expected);
}

#[test]
fn a_packet_of_header_only_holds_no_units() {
    assert_eq!(demux_audio_sdu(&header()).unwrap().len(), 0);
}

#[test]
fn every_framing_error_is_reported() {
    let error = demux_audio_sdu(&[1, 2, 3]).unwrap_err();
    assert_eq!(error, FramingError::NotAudio);
    assert_eq!(error.message(), "not an AACP 0x58 audio SDU");

    let error = demux_audio_sdu(&header()[..21]).unwrap_err();
    assert_eq!(error, FramingError::TruncatedHeader);
    assert_eq!(error.message(), "truncated AACP 0x58 header");

    let mut packet = header();
    packet.extend([0, 0, 0, 0]);
    let error = demux_audio_sdu(&packet).unwrap_err();
    assert_eq!(error, FramingError::TruncatedUnitHeader { offset: 22 });
    assert_eq!(error.message(), "truncated access-unit header at offset 22");

    let mut packet = header();
    packet.extend([0, 0, 0, 0, 1, 5]);
    packet.extend([0, 0, 0, 0, 2, 5]);
    let error = demux_audio_sdu(&packet).unwrap_err();
    assert_eq!(error, FramingError::UnitTooLong { offset: 28 });
    assert_eq!(error.message(), "access unit at offset 28 exceeds packet boundary");
}

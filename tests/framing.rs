use mumble_client::error::SendError;
use mumble_client::fields::string_fits;
use mumble_client::messages::{
    authenticate_frame, pack_version, ping_frame, version_exchange_frame, MessageId,
};
use mumble_client::wire::encode_frame;

#[test]
fn empty_payload_frame_is_header_only() {
    let frame = encode_frame(3, &Vec::new()).unwrap();
    assert_eq!(frame, vec![0x00, 0x03, 0x00, 0x00, 0x00, 0x00]);
}

#[test]
fn frame_header_is_big_endian() {
    let frame = encode_frame(0x0102, &vec![9, 8, 7]).unwrap();
    assert_eq!(frame, vec![0x01, 0x02, 0x00, 0x00, 0x00, 0x03, 9, 8, 7]);
}

#[test]
fn frame_length_uses_all_four_bytes() {
    let payload = vec![0xabu8; 0x1_0203];
    let frame = encode_frame(0xffff, &payload).unwrap();
    assert_eq!(&frame[..6], &[0xff, 0xff, 0x00, 0x01, 0x02, 0x03]);
    assert_eq!(&frame[6..], &payload[..]);
}

#[test]
fn message_ids_are_fixed() {
    assert_eq!(MessageId::Version.id(), 0);
    assert_eq!(MessageId::Authenticate.id(), 2);
    assert_eq!(MessageId::Ping.id(), 3);
}

#[test]
fn version_packs_major_minor_patch() {
    assert_eq!(pack_version(1, 3, 0), 0x0001_0300);
    assert_eq!(pack_version(0xffff, 0xff, 0xff), 0xffff_ffff);
    assert_eq!(pack_version(2, 0, 7), 0x0002_0007);
}

#[test]
fn ping_frame_is_six_bytes() {
    assert_eq!(ping_frame(), vec![0x00, 0x03, 0x00, 0x00, 0x00, 0x00]);
}

#[test]
fn authenticate_frame_bytes() {
    let frame = authenticate_frame("alice", "secret").unwrap();
    let mut expected = vec![0x00, 0x02, 0x00, 0x00, 0x00, 17];
    expected.extend_from_slice(&[0x0a, 5]);
    expected.extend_from_slice(b"alice");
    expected.extend_from_slice(&[0x12, 6]);
    expected.extend_from_slice(b"secret");
    expected.extend_from_slice(&[0x28, 1]);
    assert_eq!(frame, expected);
}

#[test]
fn authenticate_frame_counts_utf8_bytes() {
    let frame = authenticate_frame("é", "").unwrap();
    assert_eq!(frame, vec![0x00, 0x02, 0x00, 0x00, 0x00, 8, 0x0a, 2, 0xc3, 0xa9, 0x12, 0, 0x28, 1]);
}

#[test]
fn version_frame_bytes() {
    let frame = version_exchange_frame("mumble-rs 0.1.0").unwrap();
    let mut payload = vec![0x08, 0x80, 0x86, 0x04];
    payload.extend_from_slice(&[0x12, 15]);
    payload.extend_from_slice(b"mumble-rs 0.1.0");
    payload.extend_from_slice(&[0x1a, 14]);
    payload.extend_from_slice(b"DenialAdams OS");
    payload.extend_from_slice(&[0x22, 7]);
    payload.extend_from_slice(b"1.3.3.7");
    let mut expected = vec![0x00, 0x00, 0x00, 0x00, 0x00, payload.len() as u8];
    expected.extend_from_slice(&payload);
    assert_eq!(frame, expected);
}

#[test]
fn long_release_gets_multi_byte_length() {
    let release = "r".repeat(200);
    let frame = version_exchange_frame(&release).unwrap();
    assert_eq!(&frame[6..12], &[0x08, 0x80, 0x86, 0x04, 0x12, 0xc8]);
    assert_eq!(frame[12], 0x01);
    assert_eq!(frame.len(), 6 + 4 + 3 + 200 + 16 + 9);
}

#[test]
fn short_strings_fit_a_field() {
    assert!(string_fits(""));
    assert!(string_fits("secret"));
}

#[test]
fn oversized_error_is_message_too_large() {
    let e = SendError::MessageTooLarge("x");
    assert!(matches!(e, SendError::MessageTooLarge(_)));
}

//! The message codec: framing, unframing, bounds and status classification.

use replayd::ipc::message::{
    check_body_size, CodecError, Message, Response, Status, StatusError, BUF_SIZE, STATUS_FAIL,
    STATUS_SUCCESS,
};

#[test]
fn message_round_trip() {
    let body = b"hello world".to_vec();
    let msg = Message::from(body.clone()).unwrap();
    let frame = msg.encode();
    let back = Message::decode(&frame).unwrap();
    assert_eq!(back.body(), &body);
}

#[test]
fn message_round_trip_empty() {
    let msg = Message::from(Vec::new()).unwrap();
    let frame = msg.encode();
    assert_eq!(frame, vec![0u8, 0u8]);
    let back = Message::decode(&frame).unwrap();
    assert!(back.body().is_empty());
}

#[test]
fn message_round_trip_max() {
    let body = vec![0xABu8; BUF_SIZE];
    let msg = Message::from(body.clone()).unwrap();
    let frame = msg.encode();
    assert_eq!(frame.len(), 2 + BUF_SIZE);
    let back = Message::decode(&frame).unwrap();
    assert_eq!(back.body(), &body);
}

#[test]
fn message_frame_bytes_exact() {
    let msg = Message::from(b"ab".to_vec()).unwrap();
    assert_eq!(msg.encode(), vec![0u8, 2u8, b'a', b'b']);
}

#[test]
fn message_length_header_big_endian() {
    let body = vec![b'x'; 0x0123];
    let msg = Message::from(body).unwrap();
    let frame = msg.encode();
    assert_eq!(frame[0], 0x01);
    assert_eq!(frame[1], 0x23);
}

#[test]
fn oversized_body_rejected_before_any_write() {
    let body = vec![0u8; BUF_SIZE + 1];
    match Message::from(body) {
        Err(CodecError::PayloadTooLarge) => {},
        _ => panic!("an oversized body must be rejected"),
    }
    // No Message exists, so no frame and no byte was ever produced.
}

#[test]
fn boundary_exactly_max_succeeds() {
    assert!(Message::from(vec![0u8; 8192]).is_ok());
    assert!(Message::from(vec![0u8; 8193]).is_err());
    assert_eq!(check_body_size(&vec![0u8; 8192]), Ok(()));
    assert_eq!(check_body_size(&vec![0u8; 8193]), Err(CodecError::PayloadTooLarge));
}

#[test]
fn decode_truncated_header() {
    assert_eq!(Message::decode(&[]).unwrap_err(), CodecError::Truncated);
    assert_eq!(Message::decode(&[0u8]).unwrap_err(), CodecError::Truncated);
}

#[test]
fn decode_truncated_body() {
    // Header promises five bytes; only three arrive.
    let frame = [0u8, 5u8, b'a', b'b', b'c'];
    assert_eq!(Message::decode(&frame).unwrap_err(), CodecError::Truncated);
}

#[test]
fn decode_oversized_length_refused() {
    // Header claims 0xFFFF bytes, far over the bound.
    let frame = [0xFFu8, 0xFFu8, 0u8];
    assert_eq!(Message::decode(&frame).unwrap_err(), CodecError::PayloadTooLarge);
}

#[test]
fn decode_ignores_trailing_bytes() {
    let frame = [0u8, 2u8, b'h', b'i', 0xEE, 0xFF];
    let msg = Message::decode(&frame).unwrap();
    assert_eq!(msg.body(), &b"hi".to_vec());
}

#[test]
fn write_msg_appends_one_frame() {
    let mut out = vec![0xEEu8];
    assert!(replayd::ipc::socket::write_msg(&mut out, b"hi").is_ok());
    assert_eq!(out, vec![0xEEu8, 0u8, 2u8, b'h', b'i']);
}

#[test]
fn rejected_write_leaves_the_buffer_untouched() {
    let mut out = Vec::new();
    let oversized = vec![0u8; BUF_SIZE + 1];
    assert_eq!(
        replayd::ipc::socket::write_msg(&mut out, &oversized),
        Err(CodecError::PayloadTooLarge)
    );
    assert!(out.is_empty());
}

#[test]
fn response_round_trip() {
    let body = b"Status message".to_vec();
    let resp = Response::from(STATUS_SUCCESS, body.clone()).unwrap();
    let frame = resp.encode();
    let back = Response::decode(&frame).unwrap();
    assert_eq!(back.body(), &body);
    assert!(back.check().is_ok());
}

#[test]
fn response_frame_bytes_exact() {
    let resp = Response::from(STATUS_FAIL, b"no".to_vec()).unwrap();
    assert_eq!(resp.encode(), vec![0u8, 2u8, 7u8, b'n', b'o']);
}

#[test]
fn response_oversized_rejected() {
    match Response::from(STATUS_SUCCESS, vec![0u8; BUF_SIZE + 1]) {
        Err(CodecError::PayloadTooLarge) => {},
        _ => panic!("an oversized body must be rejected"),
    }
}

#[test]
fn response_decode_truncated() {
    assert_eq!(Response::decode(&[0u8, 0u8]).unwrap_err(), CodecError::Truncated);
    let frame = [0u8, 4u8, 6u8, b'a'];
    assert_eq!(Response::decode(&frame).unwrap_err(), CodecError::Truncated);
}

#[test]
fn status_success_classifies_ok() {
    let frame = [0u8, 2u8, 0x06, b'o', b'k'];
    let resp = Response::decode(&frame).unwrap();
    assert!(resp.check().is_ok());
}

#[test]
fn status_fail_preserves_body_verbatim() {
    let frame = [0u8, 4u8, 0x07, b'o', b'o', b'p', b's'];
    let resp = Response::decode(&frame).unwrap();
    match resp.check() {
        Err(StatusError::StatusFail(body)) => assert_eq!(body, b"oops".to_vec()),
        _ => panic!("the failure status must carry the body"),
    }
}

#[test]
fn unknown_status_never_a_success() {
    for byte in 0u8..=255 {
        if byte == STATUS_SUCCESS || byte == STATUS_FAIL {
            continue;
        }
        let frame = [0u8, 1u8, byte, b'x'];
        let resp = Response::decode(&frame).unwrap();
        match resp.check() {
            Err(StatusError::StatusUnknown(s)) => assert_eq!(s, byte),
            _ => panic!("an unrecognized status byte must never classify as success"),
        }
        assert_eq!(Status::of_byte(byte), Status::Unrecognized(byte));
    }
    assert_eq!(Status::of_byte(STATUS_SUCCESS), Status::Success);
    assert_eq!(Status::of_byte(STATUS_FAIL), Status::Fail);
}

#[test]
fn status_error_messages() {
    let fail = StatusError::StatusFail(b"went wrong".to_vec());
    assert_eq!(fail.message(), "went wrong");
    let unknown = StatusError::StatusUnknown(200);
    assert_eq!(unknown.message(), "Received unknown response status: 200");
}

#[test]
fn status_error_message_replaces_invalid_utf8() {
    let fail = StatusError::StatusFail(vec![0xFFu8]);
    assert_eq!(fail.message(), "\u{FFFD}");
}

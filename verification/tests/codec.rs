use vacht::codec::{
    decode_request, encode_closing, encode_error, encode_js_exception, encode_js_value_id,
    DecodeError, LocalSocketStreamError, PythonEvent, PythonEventType, RustEventType,
};

#[test]
fn error_frame_layout() {
    let frame = encode_error("bad").unwrap();
    assert_eq!(frame, vec![0u8, 3, 0, 0, 0, b'b', b'a', b'd']);
}

#[test]
fn closing_frame_layout() {
    assert_eq!(encode_closing(), vec![1u8]);
}

#[test]
fn exception_frame_layout() {
    let frame = encode_js_exception("Error", "x", "").unwrap();
    let mut expected = vec![2u8];
    expected.extend_from_slice(&[5, 0, 0, 0]);
    expected.extend_from_slice(b"Error");
    expected.extend_from_slice(&[1, 0, 0, 0]);
    expected.extend_from_slice(b"x");
    expected.extend_from_slice(&[0, 0, 0, 0]);
    assert_eq!(frame, expected);
}

#[test]
fn value_frame_layout() {
    let frame = encode_js_value_id(0x0102030405060708);
    assert_eq!(frame, vec![3u8, 8, 7, 6, 5, 4, 3, 2, 1]);
}

#[test]
fn value_frame_small_id() {
    assert_eq!(encode_js_value_id(5), vec![3u8, 5, 0, 0, 0, 0, 0, 0, 0]);
}

#[test]
fn decode_close_isolate() {
    assert_eq!(decode_request(&[0]), Ok((None, 1)));
    // Trailing bytes belong to the next frame and are left alone.
    assert_eq!(decode_request(&[0, 99, 100]), Ok((None, 1)));
}

#[test]
fn decode_run_script() {
    let buf = [1u8, 3, 0, 0, 0, b'1', b'+', b'1'];
    assert_eq!(
        decode_request(&buf),
        Ok((Some(PythonEvent::RunScript(String::from("1+1"))), 8))
    );
}

#[test]
fn decode_run_script_non_ascii() {
    // "héllo" spans a multi-byte UTF-8 sequence; decoding must rebuild the
    // same characters, not just pass the bytes along.
    let payload = "héllo".as_bytes();
    let mut buf = vec![1u8, payload.len() as u8, 0, 0, 0];
    buf.extend_from_slice(payload);
    let (event, consumed) = decode_request(&buf).unwrap();
    assert_eq!(consumed, 1 + 4 + payload.len());
    match event {
        Some(PythonEvent::RunScript(s)) => {
            assert_eq!(s, "héllo");
            assert_eq!(s.chars().count(), 5);
        }
        other => panic!("unexpected event: {:?}", other),
    }
}

#[test]
fn decode_drop_value() {
    let buf = [2u8, 9, 0, 0, 0, 0, 0, 0, 0];
    assert_eq!(decode_request(&buf), Ok((Some(PythonEvent::DropValue(9)), 9)));
    let buf = [2u8, 1, 2, 3, 4, 5, 6, 7, 8];
    assert_eq!(
        decode_request(&buf),
        Ok((Some(PythonEvent::DropValue(0x0807060504030201)), 9))
    );
}

#[test]
fn decode_unknown_tag_is_reported_in_band() {
    for tag in [3u8, 4, 200] {
        assert_eq!(
            decode_request(&[tag]),
            Ok((
                Some(PythonEvent::Errored(LocalSocketStreamError::UnknownEventType)),
                1
            ))
        );
    }
}

#[test]
fn decode_incomplete_frames() {
    assert_eq!(decode_request(&[]), Err(DecodeError::Incomplete));
    assert_eq!(decode_request(&[1u8, 5, 0]), Err(DecodeError::Incomplete));
    assert_eq!(
        decode_request(&[1u8, 5, 0, 0, 0, b'a']),
        Err(DecodeError::Incomplete)
    );
    assert_eq!(decode_request(&[2u8, 1, 2]), Err(DecodeError::Incomplete));
}

#[test]
fn decode_invalid_utf8_payload() {
    assert_eq!(
        decode_request(&[1u8, 1, 0, 0, 0, 0xFF]),
        Err(DecodeError::InvalidPayload)
    );
    assert_eq!(
        decode_request(&[1u8, 2, 0, 0, 0, 0xC3, 0x28]),
        Err(DecodeError::InvalidPayload)
    );
}

#[test]
fn request_tag_mapping() {
    assert_eq!(PythonEventType::from_u8(0), Some(PythonEventType::CloseIsolate));
    assert_eq!(PythonEventType::from_u8(1), Some(PythonEventType::RunScript));
    assert_eq!(PythonEventType::from_u8(2), Some(PythonEventType::DropValue));
    // The reserved tag is rejected, not guessed at.
    assert_eq!(PythonEventType::from_u8(3), None);
    assert_eq!(PythonEventType::from_u8(255), None);
}

#[test]
fn response_tag_mapping() {
    assert_eq!(RustEventType::from_u8(0), Some(RustEventType::Error));
    assert_eq!(RustEventType::from_u8(1), Some(RustEventType::Closing));
    assert_eq!(RustEventType::from_u8(2), Some(RustEventType::JsException));
    assert_eq!(RustEventType::from_u8(3), None);
}

#[test]
fn unknown_event_message_text() {
    assert_eq!(
        LocalSocketStreamError::UnknownEventType.message(),
        "unknown event type"
    );
}

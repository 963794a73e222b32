use rs_mail_client::control::{
    bad_request, decimal_string, handle_request, platform_unsupported, sync_page_response, Request, RequestAction,
    SyncFailure,
};
use rs_mail_client::frame::{decode_frame, encode_frame, frame_payload_len, FrameError, MAX_FRAME_LEN};
use rs_mail_client::sasl::{build_xoauth2_bytes, xoauth2_attempts};

#[test]
fn xoauth2_payload_bytes() {
    assert_eq!(
        build_xoauth2_bytes("a@b.com", "T"),
        b"user=a@b.com\x01auth=Bearer T\x01\x01".to_vec()
    );
}

#[test]
fn xoauth2_attempts_raw_then_base64() {
    let (raw, b64) = xoauth2_attempts("a@b.com", "T").unwrap();
    assert_eq!(raw, b"user=a@b.com\x01auth=Bearer T\x01\x01".to_vec());
    assert_eq!(b64, b"dXNlcj1hQGIuY29tAWF1dGg9QmVhcmVyIFQBAQ==".to_vec());
    assert_ne!(raw, b64);
}

#[test]
fn ping_round_trips_to_pong() {
    match handle_request(&Request::Ping) {
        RequestAction::Reply(resp) => {
            assert!(resp.ok);
            assert_eq!(resp.message.as_deref(), Some("pong"));
        }
        other => panic!("unexpected action {:?}", other),
    }
}

#[test]
fn sync_page_is_deferred_work() {
    match handle_request(&Request::SyncPage { page: 2, page_size: 20 }) {
        RequestAction::SyncPage { page, page_size } => {
            assert_eq!((page, page_size), (2, 20));
        }
        other => panic!("unexpected action {:?}", other),
    }
}

#[test]
fn sync_page_responses() {
    let ok = sync_page_response(3, Ok(()));
    assert!(ok.ok);
    assert_eq!(ok.message.as_deref(), Some("synced page 3"));
    let e = sync_page_response(0, Err(SyncFailure::Token("expired".to_string())));
    assert!(!e.ok);
    assert_eq!(e.message.as_deref(), Some("token error: expired"));
    let e = sync_page_response(0, Err(SyncFailure::Fetch("down".to_string())));
    assert_eq!(e.message.as_deref(), Some("imap error: down"));
    let e = sync_page_response(0, Err(SyncFailure::Store("locked".to_string())));
    assert_eq!(e.message.as_deref(), Some("store error: locked"));
    let b = bad_request();
    assert!(!b.ok);
    assert_eq!(b.message.as_deref(), Some("bad request"));
}

#[test]
fn decimal_text() {
    assert_eq!(decimal_string(0), "0");
    assert_eq!(decimal_string(1205), "1205");
    assert_eq!(decimal_string(u32::MAX), "4294967295");
}

#[test]
fn frame_round_trip() {
    let payload = br#"{"cmd":"ping"}"#.to_vec();
    let frame = encode_frame(&payload).unwrap();
    assert_eq!(&frame[..4], &[0, 0, 0, 14]);
    assert_eq!(decode_frame(&frame).unwrap(), payload);
}

#[test]
fn oversized_frames_are_rejected() {
    assert_eq!(frame_payload_len([0, 0x10, 0, 1]), Err(FrameError::TooLarge));
    assert_eq!(frame_payload_len([0xff, 0xff, 0xff, 0xff]), Err(FrameError::TooLarge));
    assert_eq!(frame_payload_len([0, 0x10, 0, 0]), Ok(MAX_FRAME_LEN));
    let mut buf = vec![0, 0x10, 0, 1];
    buf.extend_from_slice(b"short");
    assert_eq!(decode_frame(&buf), Err(FrameError::TooLarge));
    let big = vec![0u8; MAX_FRAME_LEN + 1];
    assert_eq!(encode_frame(&big), Err(FrameError::TooLarge));
}

#[test]
fn incomplete_frames() {
    assert_eq!(decode_frame(&vec![0, 0]), Err(FrameError::Incomplete));
    assert_eq!(decode_frame(&vec![0, 0, 0, 5, 1, 2]), Err(FrameError::Incomplete));
    assert_eq!(decode_frame(&vec![0, 0, 0, 0]), Ok(vec![]));
}

#[test]
fn unsupported_platform_answer() {
    let r = platform_unsupported();
    assert!(!r.ok);
    assert_eq!(r.message.as_deref(), Some("IPC not supported on this platform"));
}

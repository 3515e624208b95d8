//! Connection state and the decode-stage decisions, the oversize-frame
//! guard included.

use twsproto::de::Deserializer;
use twsproto::messages::ServerRspMsg;
use twsproto::session::{
    frame_size_ok, ConnStatus, Session, MAX_MSG_LEN, NOT_CONNECTED_CODE, NO_VALID_ID,
};

#[test]
fn connection_state_transitions() {
    let mut s = Session::new(151);
    assert_eq!(s.status(), ConnStatus::Disconnected);
    s.on_socket_established();
    assert_eq!(s.status(), ConnStatus::Connecting);
    s.on_handshake_complete();
    assert_eq!(s.status(), ConnStatus::Connected);
    s.on_failure();
    assert_eq!(s.status(), ConnStatus::Disconnected);
}

#[test]
fn queue_closed_disconnects() {
    let mut s = Session::new(151);
    s.on_socket_established();
    s.on_handshake_complete();
    s.on_closed();
    assert_eq!(s.status(), ConnStatus::Disconnected);
}

#[test]
fn frame_size_guard() {
    // the reader rejects an oversize declaration before reading any payload
    assert!(frame_size_ok(MAX_MSG_LEN));
    assert!(frame_size_ok(0));
    assert!(!frame_size_ok(MAX_MSG_LEN + 1));
}

#[test]
fn oversize_payload_emits_one_error_and_disconnects() {
    let mut s = Session::new(151);
    s.on_socket_established();
    s.on_handshake_complete();
    let payload = "x".repeat(MAX_MSG_LEN + 1);
    let outcome = s.on_payload(&payload);
    assert!(outcome.stop);
    assert_eq!(outcome.messages.len(), 1);
    match &outcome.messages[0] {
        ServerRspMsg::ErrMsg { req_id, error_code, error_str } => {
            assert_eq!(*req_id, NO_VALID_ID);
            assert_eq!(*error_code, NOT_CONNECTED_CODE);
            assert!(error_str.starts_with("Not connected:16777216:"));
        },
        other => panic!("wrong message: {:?}", other),
    }
    assert_eq!(s.status(), ConnStatus::Disconnected);
}

#[test]
fn oversize_is_measured_in_bytes() {
    // a payload of two-byte characters crosses the limit by bytes long
    // before it does by characters, and the reported length is in bytes
    let mut s = Session::new(151);
    s.on_socket_established();
    s.on_handshake_complete();
    let payload = "\u{e9}".repeat(MAX_MSG_LEN / 2 + 1);
    assert!(payload.chars().count() <= MAX_MSG_LEN);
    let byte_len = payload.len();
    assert!(byte_len > MAX_MSG_LEN);
    let outcome = s.on_payload(&payload);
    assert!(outcome.stop);
    match &outcome.messages[0] {
        ServerRspMsg::ErrMsg { error_str, .. } => {
            assert!(error_str.starts_with(&format!("Not connected:{}:", byte_len)));
        },
        other => panic!("wrong message: {:?}", other),
    }
    assert_eq!(s.status(), ConnStatus::Disconnected);
}

#[test]
fn rejected_declared_length_yields_one_error_message() {
    // the reader stage refuses the frame unread and forwards exactly one
    // error-kind message
    let outcome = twsproto::session::oversize_frame_outcome(MAX_MSG_LEN + 1);
    assert!(outcome.stop);
    assert_eq!(outcome.messages.len(), 1);
    match &outcome.messages[0] {
        ServerRspMsg::ErrMsg { req_id, error_code, error_str } => {
            assert_eq!(*req_id, NO_VALID_ID);
            assert_eq!(*error_code, NOT_CONNECTED_CODE);
            assert_eq!(error_str, "Not connected:16777216:");
        },
        other => panic!("wrong message: {:?}", other),
    }
}

#[test]
fn ordinary_payload_is_decoded_and_session_goes_on() {
    let mut s = Session::new(151);
    s.on_socket_established();
    s.on_handshake_complete();
    let outcome = s.on_payload(&"9\u{0}1\u{0}17\u{0}".to_string());
    assert!(!outcome.stop);
    assert_eq!(outcome.messages, vec![ServerRspMsg::NextValidId { order_id: 17 }]);
    assert_eq!(s.status(), ConnStatus::Connected);
}

#[test]
fn unknown_kind_stops_the_stage() {
    let mut s = Session::new(151);
    s.on_socket_established();
    s.on_handshake_complete();
    let outcome = s.on_payload(&"404\u{0}1\u{0}".to_string());
    assert!(outcome.stop);
    assert!(outcome.messages.is_empty());
    assert_eq!(s.status(), ConnStatus::Disconnected);
}

#[test]
fn ordering_is_preserved_across_payloads() {
    // one producer, one consumer: messages come out in frame order
    let mut s = Session::new(151);
    s.on_socket_established();
    s.on_handshake_complete();
    let mut seen: Vec<ServerRspMsg> = Vec::new();
    for payload in ["9\u{0}1\u{0}5\u{0}", "49\u{0}1\u{0}77\u{0}", "53\u{0}"] {
        let outcome = s.on_payload(&payload.to_string());
        assert!(!outcome.stop);
        seen.extend(outcome.messages);
    }
    assert_eq!(
        seen,
        vec![
            ServerRspMsg::NextValidId { order_id: 5 },
            ServerRspMsg::CurrentTime { time: 77 },
            ServerRspMsg::OpenOrderEnd,
        ]
    );
}

#[test]
fn deserializer_round_trips_an_encoded_request() {
    let buf = twsproto::encoder::encode_request(&twsproto::requests::ServerReqMsg::ReqAllOpenOrders {
        version: 1,
    })
    .unwrap();
    let mut d = Deserializer::from_bytes(&buf);
    assert_eq!(d.payload_len, buf.len() - 4);
    assert_eq!(d.next_field().unwrap(), b"16".to_vec());
    assert_eq!(d.next_field().unwrap(), b"1".to_vec());
    assert_eq!(d.next_field().unwrap(), Vec::<u8>::new());
    assert!(d.next_field().is_none());
}

#[test]
fn deserializer_splits_a_framed_request() {
    // 4-byte length prefix, then NUL-separated byte fields
    let bytes = [0u8, 0, 0, 5, b'1', b'6', 0, b'1', 0];
    let mut d = Deserializer::from_bytes(&bytes);
    assert_eq!(d.payload_len, 5);
    assert_eq!(d.field_count(), 3);
    assert_eq!(d.next_field().unwrap(), b"16".to_vec());
    assert_eq!(d.next_field().unwrap(), b"1".to_vec());
    assert_eq!(d.next_field().unwrap(), Vec::<u8>::new());
    assert!(d.next_field().is_none());
}

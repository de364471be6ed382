use tee_gateway::codec::{assemble_chunks, split_into_chunks};
use tee_gateway::packet::PacketHeader;
use tee_gateway::relay::{
    checked_payload_len, frame_payload, parse_len_prefix, prepare_relay, ta_socket_path,
    RegisterRequest, RelayError, SessionState, TeeRequest, MAX_PAYLOAD_SIZE,
};

fn open_session(uuid: &str) -> TeeRequest {
    TeeRequest::OpenSession { uuid: uuid.to_string() }
}

#[test]
fn open_session_binds_connection() {
    let mut session = SessionState::new();
    assert_eq!(session.uuid, None);
    let r = session.resolve_uuid(&open_session("X"));
    assert_eq!(r, Ok("X".to_string()));
    assert_eq!(session.uuid, Some("X".to_string()));
}

#[test]
fn follow_up_request_reuses_binding() {
    let mut session = SessionState::new();
    session.resolve_uuid(&open_session("X")).unwrap();
    assert_eq!(session.resolve_uuid(&TeeRequest::InvokeCommand), Ok("X".to_string()));
    assert_eq!(session.resolve_uuid(&TeeRequest::CloseSession), Ok("X".to_string()));
    assert_eq!(session.uuid, Some("X".to_string()));
}

#[test]
fn request_before_open_session_fails() {
    let mut session = SessionState::new();
    assert_eq!(
        session.resolve_uuid(&TeeRequest::InvokeCommand),
        Err(RelayError::MissingSession)
    );
    assert_eq!(session.uuid, None);
    assert_eq!(
        session.resolve_uuid(&TeeRequest::RequestCancellation),
        Err(RelayError::MissingSession)
    );
}

#[test]
fn reopen_rebinds_connection() {
    let mut session = SessionState::new();
    session.resolve_uuid(&open_session("X")).unwrap();
    session.resolve_uuid(&open_session("Y")).unwrap();
    assert_eq!(session.resolve_uuid(&TeeRequest::InvokeCommand), Ok("Y".to_string()));
}

#[test]
fn socket_path_follows_convention() {
    assert_eq!(ta_socket_path("X"), "/tmp/X.sock");
    assert_eq!(
        ta_socket_path("123e4567-e89b-12d3-a456-426614174000"),
        "/tmp/123e4567-e89b-12d3-a456-426614174000.sock"
    );
}

#[test]
fn payload_length_bound_is_enforced() {
    let fits = PacketHeader { data_type: 3, data_size: MAX_PAYLOAD_SIZE };
    assert_eq!(checked_payload_len(&fits), Ok(MAX_PAYLOAD_SIZE as usize));
    let small = PacketHeader { data_type: 3, data_size: 0 };
    assert_eq!(checked_payload_len(&small), Ok(0));
    let oversized = PacketHeader { data_type: 3, data_size: MAX_PAYLOAD_SIZE + 1 };
    assert_eq!(checked_payload_len(&oversized), Err(RelayError::PayloadTooLarge));
    let huge = PacketHeader { data_type: 3, data_size: u64::MAX };
    assert_eq!(checked_payload_len(&huge), Err(RelayError::PayloadTooLarge));
}

#[test]
fn framing_prepends_length_prefix() {
    let framed = frame_payload(&[0xaa, 0xbb, 0xcc]);
    assert_eq!(framed, vec![3, 0, 0, 0, 0xaa, 0xbb, 0xcc]);
    assert_eq!(parse_len_prefix(&framed[0..4]), 3);
    assert_eq!(frame_payload(&[]), vec![0, 0, 0, 0]);
}

#[test]
fn prepare_relay_builds_full_action() {
    let mut session = SessionState::new();
    let payload = vec![0x10u8, 0x20, 0x30, 0x40, 0x50];
    let action = prepare_relay(&mut session, &open_session("X"), &payload).unwrap();
    assert_eq!(action.target_uuid, "X");
    assert_eq!(action.socket_path, "/tmp/X.sock");
    assert_eq!(action.framed_request, vec![5, 0, 0, 0, 0x10, 0x20, 0x30, 0x40, 0x50]);

    let follow = prepare_relay(&mut session, &TeeRequest::InvokeCommand, &payload).unwrap();
    assert_eq!(follow.socket_path, "/tmp/X.sock");
}

#[test]
fn prepare_relay_without_session_fails() {
    let mut session = SessionState::new();
    let r = prepare_relay(&mut session, &TeeRequest::InvokeCommand, &[1, 2, 3]);
    assert!(matches!(r, Err(RelayError::MissingSession)));
    assert_eq!(session.uuid, None);
}

#[test]
fn relay_round_trip_with_reversing_stub() {
    // A stub local endpoint that answers every request with the reversed
    // payload, length-prefixed; the relay's framing and chunking must hand
    // the reversed payload back to the remote peer unchanged.
    let mut session = SessionState::new();
    let payload: Vec<u8> = (0..1500u32).map(|i| (i % 256) as u8).collect();
    let action = prepare_relay(&mut session, &open_session("X"), &payload).unwrap();

    // What the local endpoint sees: a 4-byte prefix and the payload.
    let request_len = parse_len_prefix(&action.framed_request[0..4]);
    assert_eq!(request_len, payload.len());
    let received: &[u8] = &action.framed_request[4..];
    assert_eq!(received, &payload[..]);

    // The stub's response: length prefix, then the reversed payload.
    let mut reversed: Vec<u8> = received.to_vec();
    reversed.reverse();
    let response = frame_payload(&reversed);

    // The relay reads the prefix, forwards it verbatim, then streams the
    // response bytes in chunks; the peer reassembles them.
    let response_len = parse_len_prefix(&response[0..4]);
    assert_eq!(response_len, reversed.len());
    let body = &response[4..4 + response_len];
    let chunks = split_into_chunks(body);
    assert_eq!(chunks.len(), 3);
    let delivered = assemble_chunks(&chunks);
    assert_eq!(delivered, reversed);

    let expected: Vec<u8> = payload.iter().rev().copied().collect();
    assert_eq!(delivered, expected);
}

#[test]
fn failed_connection_leaves_others_untouched() {
    // One connection's failure (no session bound) is contained: a second,
    // independent connection's state and relay keep working.
    let mut failing = SessionState::new();
    let mut healthy = SessionState::new();
    healthy.resolve_uuid(&open_session("X")).unwrap();

    assert_eq!(
        failing.resolve_uuid(&TeeRequest::InvokeCommand),
        Err(RelayError::MissingSession)
    );
    let action = prepare_relay(&mut healthy, &TeeRequest::InvokeCommand, &[9, 9]).unwrap();
    assert_eq!(action.socket_path, "/tmp/X.sock");
}

#[test]
fn registration_does_not_touch_relay() {
    // The registry is observed, not required: a registration record for one
    // identity changes nothing about how the relay resolves another.
    let record = RegisterRequest { uuid: "Y".to_string() };
    assert_eq!(record.uuid, "Y");

    let mut session = SessionState::new();
    let action = prepare_relay(&mut session, &open_session("X"), &[1]).unwrap();
    assert_eq!(action.socket_path, "/tmp/X.sock");
    assert_eq!(action.target_uuid, "X");
}

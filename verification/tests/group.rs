use efsec::{EfSecInboundGroupSession, EfSecOutboundGroupSession, ErrorKind};

/// Replace one character of a string by a different base64 character.
fn flip_base64_char(s: &str, idx: usize) -> String {
    let mut chars: Vec<char> = s.chars().collect();
    chars[idx] = if chars[idx] == 'A' { 'B' } else { 'A' };
    chars.into_iter().collect()
}

#[test]
fn group_round_trip_two_receivers() {
    let mut outbound = EfSecOutboundGroupSession::new();
    let key = outbound.session_key();
    let mut inbound_one = EfSecInboundGroupSession::new(&key).unwrap();
    let mut inbound_two = EfSecInboundGroupSession::new(&key).unwrap();

    let message = outbound.encrypt("m0");
    assert_eq!(inbound_one.decrypt(&message).unwrap(), "m0");
    assert_eq!(inbound_two.decrypt(&message).unwrap(), "m0");
}

#[test]
fn group_out_of_order_exactly_once() {
    let mut outbound = EfSecOutboundGroupSession::new();
    let key = outbound.session_key();
    let mut inbound = EfSecInboundGroupSession::new(&key).unwrap();

    let e0 = outbound.encrypt("m0");
    let e1 = outbound.encrypt("m1");
    let e2 = outbound.encrypt("m2");

    assert_eq!(inbound.decrypt(&e2).unwrap(), "m2");
    assert_eq!(inbound.decrypt(&e0).unwrap(), "m0");
    assert_eq!(inbound.decrypt(&e1).unwrap(), "m1");

    let replay = inbound.decrypt(&e0).unwrap_err();
    assert_eq!(replay.kind(), ErrorKind::ReplayOrOrdering);
}

#[test]
fn group_forward_secrecy_boundary() {
    let mut outbound = EfSecOutboundGroupSession::new();
    let e0 = outbound.encrypt("m0");
    let _e1 = outbound.encrypt("m1");

    // The export is taken at index 2: earlier messages lie beyond the
    // forward-secrecy boundary of sessions built from it.
    let key = outbound.session_key();
    let mut inbound = EfSecInboundGroupSession::new(&key).unwrap();
    let e2 = outbound.encrypt("m2");
    assert_eq!(inbound.decrypt(&e2).unwrap(), "m2");

    let before = inbound.decrypt(&e0).unwrap_err();
    assert_eq!(before.kind(), ErrorKind::ReplayOrOrdering);
    // Deterministic and permanent: the same message fails again.
    let again = inbound.decrypt(&e0).unwrap_err();
    assert_eq!(again.kind(), ErrorKind::ReplayOrOrdering);
}

#[test]
fn group_tamper_detection() {
    let mut outbound = EfSecOutboundGroupSession::new();
    let key = outbound.session_key();
    let mut inbound = EfSecInboundGroupSession::new(&key).unwrap();

    let message = outbound.encrypt("a group plaintext of reasonable length");
    // The tail of the envelope is the signature over everything before it.
    let tampered = flip_base64_char(&message, message.len() - 10);
    let err = inbound.decrypt(&tampered).unwrap_err();
    assert_eq!(err.kind(), ErrorKind::Authentication);

    // The untouched envelope still decrypts: failure left the state as it was.
    assert_eq!(inbound.decrypt(&message).unwrap(), "a group plaintext of reasonable length");
}

#[test]
fn group_session_ids_and_indices() {
    let mut outbound = EfSecOutboundGroupSession::new();
    let sid = outbound.session_id();
    assert_eq!(outbound.message_index(), 0);
    let _ = outbound.encrypt("m0");
    assert_eq!(outbound.message_index(), 1);
    assert_eq!(outbound.session_id(), sid);

    let other = EfSecOutboundGroupSession::new();
    assert_ne!(other.session_id(), sid);
}

#[test]
fn group_inbound_malformed_session_key() {
    let err = EfSecInboundGroupSession::new("not a session key").err().unwrap();
    assert_eq!(err.kind(), ErrorKind::Decoding);
}

#[test]
fn group_decrypt_malformed_message() {
    let outbound = EfSecOutboundGroupSession::new();
    let mut inbound = EfSecInboundGroupSession::new(&outbound.session_key()).unwrap();
    let err = inbound.decrypt("*** not base64 ***").unwrap_err();
    assert_eq!(err.kind(), ErrorKind::Decoding);
}

#[test]
fn group_wrong_session_rejects() {
    let mut sender = EfSecOutboundGroupSession::new();
    let other = EfSecOutboundGroupSession::new();
    let mut inbound = EfSecInboundGroupSession::new(&other.session_key()).unwrap();

    // A message from a different session carries a signature that cannot
    // verify under this session's signing key.
    let message = sender.encrypt("m0");
    let err = inbound.decrypt(&message).unwrap_err();
    assert_eq!(err.kind(), ErrorKind::Authentication);
}

use efsec::{EfSecAccount, ErrorKind};

/// Extract the curve25519 identity key from an identity-keys JSON object,
/// re-encoded as a JSON string.
fn curve_key_json(identity: &str) -> String {
    let v: serde_json::Value = serde_json::from_str(identity).unwrap();
    serde_json::to_string(&v["curve25519"]).unwrap()
}

/// Extract one one-time public key from a one-time-keys JSON object,
/// re-encoded as a JSON string.
fn one_otk_json(otks: &str) -> String {
    let v: serde_json::Value = serde_json::from_str(otks).unwrap();
    let map = v.as_object().unwrap();
    let (_, key) = map.iter().next().unwrap();
    serde_json::to_string(key).unwrap()
}

/// Extract the body of a pairwise envelope (the initial-message text),
/// re-encoded as a JSON string.
fn prekey_body(envelope: &str) -> String {
    let v: serde_json::Value = serde_json::from_str(envelope).unwrap();
    serde_json::to_string(&v["body"]).unwrap()
}

/// Replace one character of a string by a different base64 character.
fn flip_char(s: &str, idx: usize) -> String {
    let mut chars: Vec<char> = s.chars().collect();
    chars[idx] = if chars[idx] == 'A' { 'B' } else { 'A' };
    chars.into_iter().collect()
}

#[test]
fn pairwise_establishment_round_trip() {
    let mut a = EfSecAccount::new();
    let b = EfSecAccount::new();
    a.generate_one_time_keys(1);

    let a_identity = curve_key_json(&a.identity_keys());
    let a_otk = one_otk_json(&a.one_time_keys());
    let mut session_b = b.create_outbound_session(&a_identity, &a_otk).unwrap();

    let envelope = session_b.encrypt("hello").unwrap();
    let v: serde_json::Value = serde_json::from_str(&envelope).unwrap();
    assert_eq!(v["type"], serde_json::Value::from(0u64));

    let b_identity = curve_key_json(&b.identity_keys());
    let (mut session_a, plaintext) =
        a.create_inbound_session(&b_identity, &prekey_body(&envelope)).unwrap();
    assert_eq!(plaintext, "hello");
    assert_eq!(session_a.session_id(), session_b.session_id());

    // The receiving side is already established, so its envelopes carry
    // the normal message type; the initiator switches after the reply.
    let reply = session_a.encrypt("hi").unwrap();
    let v: serde_json::Value = serde_json::from_str(&reply).unwrap();
    assert_eq!(v["type"], serde_json::Value::from(1u64));
    assert_eq!(session_b.decrypt(&reply).unwrap(), "hi");

    let followup = session_b.encrypt("again").unwrap();
    let v: serde_json::Value = serde_json::from_str(&followup).unwrap();
    assert_eq!(v["type"], serde_json::Value::from(1u64));
    assert_eq!(session_a.decrypt(&followup).unwrap(), "again");
}

#[test]
fn pairwise_round_trip_both_directions() {
    let mut a = EfSecAccount::new();
    let b = EfSecAccount::new();
    a.generate_one_time_keys(1);

    let a_identity = curve_key_json(&a.identity_keys());
    let a_otk = one_otk_json(&a.one_time_keys());
    let mut session_b = b.create_outbound_session(&a_identity, &a_otk).unwrap();
    let first = session_b.encrypt("first").unwrap();
    let b_identity = curve_key_json(&b.identity_keys());
    let (mut session_a, plaintext) =
        a.create_inbound_session(&b_identity, &prekey_body(&first)).unwrap();
    assert_eq!(plaintext, "first");

    for i in 0..4 {
        let from_a = session_a.encrypt(&format!("a{i}")).unwrap();
        assert_eq!(session_b.decrypt(&from_a).unwrap(), format!("a{i}"));
        let from_b = session_b.encrypt(&format!("b{i}")).unwrap();
        assert_eq!(session_a.decrypt(&from_b).unwrap(), format!("b{i}"));
    }
}

#[test]
fn pairwise_out_of_order_and_replay() {
    let mut a = EfSecAccount::new();
    let b = EfSecAccount::new();
    a.generate_one_time_keys(1);

    let a_identity = curve_key_json(&a.identity_keys());
    let a_otk = one_otk_json(&a.one_time_keys());
    let mut session_b = b.create_outbound_session(&a_identity, &a_otk).unwrap();
    let e0 = session_b.encrypt("m0").unwrap();
    let e1 = session_b.encrypt("m1").unwrap();
    let e2 = session_b.encrypt("m2").unwrap();

    let b_identity = curve_key_json(&b.identity_keys());
    let (mut session_a, plaintext) =
        a.create_inbound_session(&b_identity, &prekey_body(&e2)).unwrap();
    assert_eq!(plaintext, "m2");
    assert_eq!(session_a.decrypt(&e0).unwrap(), "m0");
    assert_eq!(session_a.decrypt(&e1).unwrap(), "m1");

    let replay = session_a.decrypt(&e0).unwrap_err();
    assert_eq!(replay.kind(), ErrorKind::ReplayOrOrdering);
}

#[test]
fn one_time_key_single_use() {
    let mut a = EfSecAccount::new();
    let b = EfSecAccount::new();
    a.generate_one_time_keys(1);

    let a_identity = curve_key_json(&a.identity_keys());
    let a_otk = one_otk_json(&a.one_time_keys());
    let mut session_b = b.create_outbound_session(&a_identity, &a_otk).unwrap();
    let envelope = session_b.encrypt("hello").unwrap();
    let b_identity = curve_key_json(&b.identity_keys());
    let message = prekey_body(&envelope);

    a.create_inbound_session(&b_identity, &message).unwrap();
    // Consuming the referenced key is the sole path by which the pool
    // shrinks without explicit action: the only key is now gone.
    assert_eq!(a.one_time_keys(), "{}");

    let second = a.create_inbound_session(&b_identity, &message).err().unwrap();
    assert_eq!(second.kind(), ErrorKind::SessionEstablishment);
}

#[test]
fn pool_retains_unconsumed_keys() {
    let mut a = EfSecAccount::new();
    let b = EfSecAccount::new();
    a.generate_one_time_keys(2);

    let pool: serde_json::Value = serde_json::from_str(&a.one_time_keys()).unwrap();
    let map = pool.as_object().unwrap();
    assert_eq!(map.len(), 2);
    let mut entries = map.iter();
    let (_, used_key) = entries.next().unwrap();
    let (other_id, other_key) = entries.next().unwrap();
    let used_key_json = serde_json::to_string(used_key).unwrap();

    let a_identity = curve_key_json(&a.identity_keys());
    let mut session_b = b.create_outbound_session(&a_identity, &used_key_json).unwrap();
    let envelope = session_b.encrypt("hello").unwrap();
    let b_identity = curve_key_json(&b.identity_keys());
    a.create_inbound_session(&b_identity, &prekey_body(&envelope)).unwrap();

    // Exactly the referenced key left the pool; the other entry stays.
    let after: serde_json::Value = serde_json::from_str(&a.one_time_keys()).unwrap();
    let remaining = after.as_object().unwrap();
    assert_eq!(remaining.len(), 1);
    assert_eq!(remaining.get(other_id).unwrap(), other_key);
}

#[test]
fn pairwise_tamper_detection() {
    let mut a = EfSecAccount::new();
    let b = EfSecAccount::new();
    a.generate_one_time_keys(1);

    let a_identity = curve_key_json(&a.identity_keys());
    let a_otk = one_otk_json(&a.one_time_keys());
    let mut session_b = b.create_outbound_session(&a_identity, &a_otk).unwrap();
    let first = session_b.encrypt("an initial message with some length").unwrap();
    let b_identity = curve_key_json(&b.identity_keys());
    let (mut session_a, _) =
        a.create_inbound_session(&b_identity, &prekey_body(&first)).unwrap();

    let envelope = session_b.encrypt("a longer plaintext so the tag sits well past the header").unwrap();
    let mut v: serde_json::Value = serde_json::from_str(&envelope).unwrap();
    let body = v["body"].as_str().unwrap().to_string();
    let tampered_body = flip_char(&body, body.len() - 4);
    v["body"] = serde_json::Value::String(tampered_body);
    let tampered = serde_json::to_string(&v).unwrap();

    let err = session_a.decrypt(&tampered).unwrap_err();
    assert_eq!(err.kind(), ErrorKind::Authentication);

    // The untouched envelope still decrypts: failure left the state as it was.
    assert_eq!(
        session_a.decrypt(&envelope).unwrap(),
        "a longer plaintext so the tag sits well past the header"
    );
}

#[test]
fn pairwise_decrypt_malformed_envelope() {
    let mut a = EfSecAccount::new();
    let b = EfSecAccount::new();
    a.generate_one_time_keys(1);

    let a_identity = curve_key_json(&a.identity_keys());
    let a_otk = one_otk_json(&a.one_time_keys());
    let mut session_b = b.create_outbound_session(&a_identity, &a_otk).unwrap();
    let err = session_b.decrypt("this is not an envelope").unwrap_err();
    assert_eq!(err.kind(), ErrorKind::Decoding);
}

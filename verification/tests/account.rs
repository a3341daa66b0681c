use efsec::{EfSecAccount, ErrorKind};

#[test]
fn fresh_account_has_empty_pool() {
    let account = EfSecAccount::new();
    assert_eq!(account.one_time_keys(), "{}");
}

#[test]
fn identity_keys_have_both_halves() {
    let account = EfSecAccount::new();
    let v: serde_json::Value = serde_json::from_str(&account.identity_keys()).unwrap();
    assert!(!v["curve25519"].is_null());
    assert!(!v["ed25519"].is_null());
}

#[test]
fn identity_keys_stable_across_mutations() {
    let mut account = EfSecAccount::new();
    let before = account.identity_keys();
    account.generate_one_time_keys(5);
    assert_eq!(account.identity_keys(), before);
}

#[test]
fn generate_one_time_keys_grows_pool() {
    let mut account = EfSecAccount::new();
    account.generate_one_time_keys(3);
    let v: serde_json::Value = serde_json::from_str(&account.one_time_keys()).unwrap();
    assert_eq!(v.as_object().unwrap().len(), 3);
    account.generate_one_time_keys(2);
    let v: serde_json::Value = serde_json::from_str(&account.one_time_keys()).unwrap();
    assert_eq!(v.as_object().unwrap().len(), 5);
}

#[test]
fn outbound_session_rejects_malformed_keys() {
    let account = EfSecAccount::new();
    let peer = EfSecAccount::new();
    let peer_identity: serde_json::Value =
        serde_json::from_str(&peer.identity_keys()).unwrap();
    let good_key = serde_json::to_string(&peer_identity["curve25519"]).unwrap();

    let err = account.create_outbound_session("not json", &good_key).err().unwrap();
    assert_eq!(err.kind(), ErrorKind::Decoding);
    let err = account.create_outbound_session(&good_key, "\"not base64\"").err().unwrap();
    assert_eq!(err.kind(), ErrorKind::Decoding);
}

#[test]
fn inbound_session_rejects_malformed_input() {
    let mut account = EfSecAccount::new();
    let peer = EfSecAccount::new();
    let peer_identity: serde_json::Value =
        serde_json::from_str(&peer.identity_keys()).unwrap();
    let good_key = serde_json::to_string(&peer_identity["curve25519"]).unwrap();

    let err = account.create_inbound_session("nonsense", "\"AAAA\"").err().unwrap();
    assert_eq!(err.kind(), ErrorKind::Decoding);
    let err = account.create_inbound_session(&good_key, "not a message").err().unwrap();
    assert_eq!(err.kind(), ErrorKind::Decoding);
}

#[test]
fn error_carries_kind_and_message() {
    let err = EfSecAccount::new().create_outbound_session("x", "y").err().unwrap();
    assert_eq!(err.kind(), ErrorKind::Decoding);
    assert!(!err.message().is_empty());
}

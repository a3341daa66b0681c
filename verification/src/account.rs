//! Device accounts: the long-term identity keypair and the pool of
//! disposable one-time prekeys, the root of trust for establishing new
//! pairwise sessions.
//!
//! The keys themselves live in `vodozemac::olm::Account` behind trusted
//! wrappers. The account mirrors, as plain text snapshots, what it ever
//! hands out: the serialized identity keys (fixed at creation) and the
//! serialized pool of unused one-time keys (refreshed on every mutation).
//! The pool snapshot is read by two names — the number of entries it lists
//! and the set of one-time public keys it lists — over which the contracts
//! state how generation grows the pool and how establishing an inbound
//! session consumes exactly the referenced key, once.

use vstd::prelude::*;

use crate::codec::utf8_string;
use crate::errors::{EfSecError, ErrorKind, fails_with};
use crate::session::{EfSecSession, map_olm_decrypt_error};

verus! {

/// Whether the given text is the JSON encoding of a Curve25519 public key.
/// A function of the text alone.
pub uninterp spec fn curve_key_parses(text: Seq<char>) -> bool;

/// Whether the given text is the JSON encoding of a pairwise initial
/// ("prekey") message: the envelope that carries enough metadata for the
/// receiver to replicate the key agreement. A function of the text alone.
pub uninterp spec fn prekey_message_parses(text: Seq<char>) -> bool;

/// Whether the given text is the JSON encoding of a pair of public identity
/// keys: the object carrying the curve25519 key-agreement key and the
/// ed25519 signing key. A function of the text alone.
pub uninterp spec fn identity_keys_parse(text: Seq<char>) -> bool;

/// The number of entries a one-time-key pool snapshot lists: one per key
/// id. A function of the snapshot text alone.
pub uninterp spec fn otk_count_of(text: Seq<char>) -> nat;

/// The set of one-time public keys (in their base64 form) a pool snapshot
/// lists as its entries' values. A function of the snapshot text alone.
pub uninterp spec fn otk_keys_of(text: Seq<char>) -> Set<Seq<char>>;

/// The one-time public key (in its base64 form) that a well-formed initial
/// message references: the single-use key the sender consumed from the
/// receiver's published pool. A function of the message text alone.
pub uninterp spec fn prekey_otk(message: Seq<char>) -> Seq<char>;

#[verifier::external_type_specification]
#[verifier::external_body]
pub struct ExOlmAccount(vodozemac::olm::Account);

#[verifier::external_type_specification]
#[verifier::external_body]
pub struct ExCurve25519PublicKey(vodozemac::Curve25519PublicKey);

#[verifier::external_type_specification]
#[verifier::external_body]
pub struct ExSessionCreationError(vodozemac::olm::SessionCreationError);

/// A device's account: its long-term identity keypair and its pool of
/// unused one-time keys.
pub struct EfSecAccount {
    /// The long-term key material and the one-time key pool.
    pub(crate) inner: vodozemac::olm::Account,
    /// JSON form of the two public identity keys, fixed at creation.
    pub(crate) identity_json: String,
    /// JSON form of the currently unused one-time public keys, refreshed by
    /// every operation that changes the pool.
    pub(crate) otk_json: String,
}

/// Relies on `serde_json::from_str::<vodozemac::Curve25519PublicKey>`:
/// parsing is a function of the input text alone and succeeds exactly when
/// the text is the JSON encoding of such a key.
#[verifier::external_body]
fn parse_curve_key(text: &str) -> (r: Result<vodozemac::Curve25519PublicKey, String>)
    ensures
        r is Ok <==> curve_key_parses(text@),
{
    serde_json::from_str(text).map_err(|e| e.to_string())
}

/// Relies on `vodozemac::olm::SessionCreationError`: sorts each failure of
/// inbound session establishment into the library's taxonomy. An unknown or
/// already-consumed one-time key, a mismatched identity key or session
/// configuration, and a non-contributory key exchange are establishment
/// failures; a failure to decrypt the embedded initial message keeps the
/// decryption failure's own kind.
#[verifier::external_body]
fn map_session_creation_error(e: vodozemac::olm::SessionCreationError) -> (r: EfSecError)
    ensures
        r.kind == ErrorKind::SessionEstablishment || r.kind == ErrorKind::Authentication || r.kind == ErrorKind::ReplayOrOrdering,
{
    match e {
        vodozemac::olm::SessionCreationError::Decryption(inner) => map_olm_decrypt_error(inner),
        other => EfSecError::new(ErrorKind::SessionEstablishment, other.to_string()),
    }
}

/// Relies on `vodozemac::olm::Account::new`, `Account::identity_keys`,
/// `Account::one_time_keys` and `serde_json::to_string`: a fresh account
/// holds newly generated random identity keys, whose public halves
/// serialize to the identity-keys JSON object, and an empty one-time-key
/// pool, which serializes to the empty object listing no entries and no
/// keys. Neither serialization can fail: the identity keys are a plain
/// two-field struct of base64 strings and the pool is a map from numeric
/// key ids to base64 strings.
#[verifier::external_body]
fn account_raw_new() -> (r: (vodozemac::olm::Account, String, String))
    ensures
        identity_keys_parse(r.1@),
        r.2@ == "{}"@,
        otk_count_of(r.2@) == 0,
        otk_keys_of(r.2@) == Set::<Seq<char>>::empty(),
{
    let inner = vodozemac::olm::Account::new();
    let identity_json = serde_json::to_string(&inner.identity_keys())
        .expect("identity keys always serialize");
    let otk_json = serde_json::to_string(&inner.one_time_keys())
        .expect("one-time keys always serialize");
    (inner, identity_json, otk_json)
}

impl EfSecAccount {
    /// The serialized public identity keys, as contracts speak of them.
    pub closed spec fn spec_identity(&self) -> Seq<char> {
        self.identity_json@
    }

    /// The serialized unused one-time public keys, as contracts speak of
    /// them.
    pub closed spec fn spec_one_time_keys(&self) -> Seq<char> {
        self.otk_json@
    }

    /// Create a fresh account with new random identity keys and an empty
    /// one-time-key pool. The identity snapshot is the well-formed encoding
    /// of the two public keys; the pool snapshot is the empty object.
    pub fn new() -> (r: EfSecAccount)
        ensures
            identity_keys_parse(r.spec_identity()),
            r.spec_one_time_keys() == "{}"@,
            otk_count_of(r.spec_one_time_keys()) == 0,
            otk_keys_of(r.spec_one_time_keys()) == Set::<Seq<char>>::empty(),
    {
        let (inner, identity_json, otk_json) = account_raw_new();
        EfSecAccount { inner, identity_json, otk_json }
    }

    /// The JSON form of the public identity keys: the key-agreement key and
    /// the signing key. Stable for the account's life; never fails.
    pub fn identity_keys(&self) -> (r: String)
        ensures
            r@ == self.spec_identity(),
    {
        self.identity_json.clone()
    }

    /// The JSON form of the currently unused one-time public keys, keyed by
    /// key id. Never fails.
    pub fn one_time_keys(&self) -> (r: String)
        ensures
            r@ == self.spec_one_time_keys(),
    {
        self.otk_json.clone()
    }

    /// Relies on `Account::generate_one_time_keys` (backed by the store in
    /// vodozemac's one_time_keys module), `Account::one_time_keys` and
    /// `serde_json::to_string`: appends `count` freshly generated one-time
    /// keys to the pool, each under a new numeric id, so the refreshed
    /// snapshot lists exactly `count` more entries — except past the
    /// store's fixed capacity of 5000 keys, where the oldest are discarded
    /// first and the snapshot stays at 5000 entries. Below the capacity no
    /// key is discarded, so every key the old snapshot listed is still
    /// listed. The identity keys are untouched. Serializing the refreshed
    /// pool cannot fail: it is a map from numeric key ids to base64
    /// strings.
    #[verifier::external_body]
    fn generate_raw(&mut self, count: usize)
        ensures
            final(self).spec_identity() == old(self).spec_identity(),
            otk_count_of(old(self).spec_one_time_keys()) + count <= 5000 ==> otk_count_of(final(self).spec_one_time_keys()) == otk_count_of(old(self).spec_one_time_keys()) + count,
            otk_count_of(old(self).spec_one_time_keys()) <= 5000 && otk_count_of(old(self).spec_one_time_keys()) + count > 5000 ==> otk_count_of(final(self).spec_one_time_keys()) == 5000,
            otk_count_of(old(self).spec_one_time_keys()) + count <= 5000 ==> otk_keys_of(old(self).spec_one_time_keys()).subset_of(otk_keys_of(final(self).spec_one_time_keys())),
    {
        self.inner.generate_one_time_keys(count);
        self.otk_json = serde_json::to_string(&self.inner.one_time_keys())
            .expect("one-time keys always serialize");
    }

    /// Relies on `Account::create_outbound_session` and
    /// `Session::session_id`: performs the X3DH-style key agreement between
    /// the local identity keypair, a fresh ephemeral keypair, and the peer's
    /// identity and one-time keys. The only failure is a non-contributory
    /// key exchange, an establishment failure. A fresh outbound session has
    /// received nothing, so it is not yet established.
    #[verifier::external_body]
    fn outbound_raw(
        &self,
        identity_key: vodozemac::Curve25519PublicKey,
        one_time_key: vodozemac::Curve25519PublicKey,
    ) -> (r: Result<EfSecSession, EfSecError>)
        ensures
            r matches Ok(s) ==> !s.spec_established(),
            r matches Err(e) ==> e.kind == ErrorKind::SessionEstablishment,
    {
        let config = vodozemac::olm::SessionConfig::version_1();
        match self.inner.create_outbound_session(config, identity_key, one_time_key) {
            Ok(session) => {
                let sid = session.session_id();
                Ok(EfSecSession { inner: session, sid, established: false })
            },
            Err(e) => Err(EfSecError::new(ErrorKind::SessionEstablishment, e.to_string())),
        }
    }

    /// Relies on `serde_json::from_str::<vodozemac::olm::PreKeyMessage>`,
    /// `Account::create_inbound_session`, `Session::session_id`,
    /// `Account::one_time_keys` and `serde_json::to_string`. The message
    /// text is parsed (a pure decode; failure is a decoding failure), the
    /// mirrored key agreement is performed with the one-time key the
    /// message references, and the embedded initial message is decrypted.
    /// Every failure before that decryption — a mismatched identity key or
    /// session configuration, and in particular a referenced key that the
    /// pool does not hold (this account never carries fallback keys, and
    /// the snapshot lists exactly the keys the store would look up) — is an
    /// establishment failure; a failed embedded authentication check keeps
    /// its own kind. On success the store removes exactly the entry of the
    /// referenced key, so the refreshed snapshot lists one entry fewer and
    /// its key set loses exactly that key; on failure the store, and so the
    /// snapshot, is untouched. The identity keys are untouched either way,
    /// and a session created from an initial message has received one.
    #[verifier::external_body]
    fn inbound_raw(
        &mut self,
        identity_key: vodozemac::Curve25519PublicKey,
        message: &str,
    ) -> (r: Result<(EfSecSession, Vec<u8>), EfSecError>)
        ensures
            final(self).spec_identity() == old(self).spec_identity(),
            r is Err ==> final(self).spec_one_time_keys() == old(self).spec_one_time_keys(),
            r is Ok ==> prekey_message_parses(message@),
            !prekey_message_parses(message@) ==> fails_with(r, ErrorKind::Decoding),
            prekey_message_parses(message@) && !otk_keys_of(old(self).spec_one_time_keys()).contains(prekey_otk(message@)) ==> fails_with(r, ErrorKind::SessionEstablishment),
            r is Ok ==> otk_keys_of(old(self).spec_one_time_keys()).contains(prekey_otk(message@)),
            r is Ok ==> otk_keys_of(final(self).spec_one_time_keys()) == otk_keys_of(old(self).spec_one_time_keys()).remove(prekey_otk(message@)),
            r is Ok ==> otk_count_of(old(self).spec_one_time_keys()) >= 1 && otk_count_of(final(self).spec_one_time_keys()) == otk_count_of(old(self).spec_one_time_keys()) - 1,
            r matches Ok(p) ==> p.0.spec_established(),
            r matches Err(e) ==> e.kind == ErrorKind::Decoding || e.kind == ErrorKind::SessionEstablishment || e.kind == ErrorKind::Authentication || e.kind == ErrorKind::ReplayOrOrdering,
    {
        let prekey: vodozemac::olm::PreKeyMessage = match serde_json::from_str(message) {
            Ok(m) => m,
            Err(e) => return Err(EfSecError::new(ErrorKind::Decoding, e.to_string())),
        };
        let config = vodozemac::olm::SessionConfig::version_1();
        let result = match self.inner.create_inbound_session(config, identity_key, &prekey) {
            Ok(r) => r,
            Err(e) => return Err(map_session_creation_error(e)),
        };
        self.otk_json = serde_json::to_string(&self.inner.one_time_keys())
            .expect("one-time keys always serialize");
        let sid = result.session.session_id();
        Ok((EfSecSession { inner: result.session, sid, established: true }, result.plaintext))
    }

    /// Append `count` freshly generated one-time keys to the pool, each with
    /// a unique id: below the pool's capacity of 5000 keys the snapshot
    /// gains exactly `count` entries and keeps every key it already listed;
    /// at the capacity the oldest keys are discarded first. The identity
    /// keys are untouched. Never fails.
    pub fn generate_one_time_keys(&mut self, count: usize)
        ensures
            final(self).spec_identity() == old(self).spec_identity(),
            otk_count_of(old(self).spec_one_time_keys()) + count <= 5000 ==> otk_count_of(final(self).spec_one_time_keys()) == otk_count_of(old(self).spec_one_time_keys()) + count,
            otk_count_of(old(self).spec_one_time_keys()) <= 5000 && otk_count_of(old(self).spec_one_time_keys()) + count > 5000 ==> otk_count_of(final(self).spec_one_time_keys()) == 5000,
            otk_count_of(old(self).spec_one_time_keys()) + count <= 5000 ==> otk_keys_of(old(self).spec_one_time_keys()).subset_of(otk_keys_of(final(self).spec_one_time_keys())),
    {
        self.generate_raw(count);
    }

    /// Establish a pairwise session toward a peer from the JSON encodings of
    /// the peer's identity key and of one of the peer's one-time keys.
    /// Malformed key text is rejected as a decoding failure, the identity
    /// key first; with both keys well-formed, only a failed key agreement is
    /// refused, as an establishment failure. The new session has received
    /// nothing yet, so its first envelopes carry the initial type.
    pub fn create_outbound_session(
        &self,
        identity_key: &str,
        one_time_key: &str,
    ) -> (r: Result<EfSecSession, EfSecError>)
        ensures
            r matches Ok(s) ==> !s.spec_established(),
            r is Ok ==> curve_key_parses(identity_key@) && curve_key_parses(one_time_key@),
            !curve_key_parses(identity_key@) ==> (r matches Err(e) && e.kind == ErrorKind::Decoding),
            curve_key_parses(identity_key@) && !curve_key_parses(one_time_key@) ==> (r matches Err(e) && e.kind == ErrorKind::Decoding),
            curve_key_parses(identity_key@) && curve_key_parses(one_time_key@) ==> (r is Ok || (r matches Err(e) && e.kind == ErrorKind::SessionEstablishment)),
    {
        let ik = match parse_curve_key(identity_key) {
            Ok(k) => k,
            Err(detail) => return Err(EfSecError::new(ErrorKind::Decoding, detail)),
        };
        let otk = match parse_curve_key(one_time_key) {
            Ok(k) => k,
            Err(detail) => return Err(EfSecError::new(ErrorKind::Decoding, detail)),
        };
        self.outbound_raw(ik, otk)
    }

    /// Establish the mirrored pairwise session from a peer's identity key
    /// and an initial message, both JSON-encoded, and return the session
    /// together with the decrypted plaintext of that first message. On
    /// success the referenced one-time key — and only it — is deleted from
    /// the pool: the snapshot loses exactly that key and one entry. This is
    /// the sole path by which the pool shrinks without explicit action, and
    /// a message referencing a key the pool does not hold (consumed
    /// already, or never present) is refused as an establishment failure,
    /// never silently ignored. Malformed text is a decoding failure; a
    /// failed embedded authentication check is an authentication failure;
    /// plaintext that is not valid UTF-8 is an output-encoding failure. On
    /// any failure but the last the pool is exactly as it was.
    pub fn create_inbound_session(
        &mut self,
        identity_key: &str,
        message: &str,
    ) -> (r: Result<(EfSecSession, String), EfSecError>)
        ensures
            final(self).spec_identity() == old(self).spec_identity(),
            r matches Ok(p) ==> p.0.spec_established(),
            r is Ok ==> curve_key_parses(identity_key@) && prekey_message_parses(message@),
            !curve_key_parses(identity_key@) ==> (r matches Err(e) && e.kind == ErrorKind::Decoding),
            curve_key_parses(identity_key@) && !prekey_message_parses(message@) ==> (r matches Err(e) && e.kind == ErrorKind::Decoding),
            curve_key_parses(identity_key@) && prekey_message_parses(message@) && !otk_keys_of(old(self).spec_one_time_keys()).contains(prekey_otk(message@)) ==> fails_with(r, ErrorKind::SessionEstablishment),
            r is Ok ==> otk_keys_of(old(self).spec_one_time_keys()).contains(prekey_otk(message@)),
            r is Ok ==> otk_keys_of(final(self).spec_one_time_keys()) == otk_keys_of(old(self).spec_one_time_keys()).remove(prekey_otk(message@)),
            r is Ok ==> otk_count_of(old(self).spec_one_time_keys()) >= 1 && otk_count_of(final(self).spec_one_time_keys()) == otk_count_of(old(self).spec_one_time_keys()) - 1,
            r matches Err(e) && e.kind != ErrorKind::EncodingOutput ==> final(self).spec_one_time_keys() == old(self).spec_one_time_keys(),
    {
        let ik = match parse_curve_key(identity_key) {
            Ok(k) => k,
            Err(detail) => return Err(EfSecError::new(ErrorKind::Decoding, detail)),
        };
        let (session, bytes) = match self.inbound_raw(ik, message) {
            Ok(pair) => pair,
            Err(e) => return Err(e),
        };
        let plaintext = match utf8_string(bytes) {
            Ok(p) => p,
            Err(e) => return Err(e),
        };
        Ok((session, plaintext))
    }
}

impl Default for EfSecAccount {
    /// A fresh account, as [`EfSecAccount::new`] creates it.
    fn default() -> (r: EfSecAccount)
        ensures
            identity_keys_parse(r.spec_identity()),
            r.spec_one_time_keys() == "{}"@,
            otk_count_of(r.spec_one_time_keys()) == 0,
            otk_keys_of(r.spec_one_time_keys()) == Set::<Seq<char>>::empty(),
    {
        EfSecAccount::new()
    }
}

/// One-time-key single-use: once an inbound session has consumed a key —
/// the pool's key set became the old set minus the referenced key — the new
/// pool no longer holds that key, so by the contract of
/// [`EfSecAccount::create_inbound_session`] a second initial message
/// referencing the same key is refused as an establishment failure.
pub proof fn lemma_one_time_key_single_use(
    before: Seq<char>,
    after: Seq<char>,
    first: Seq<char>,
    second: Seq<char>,
)
    requires
        otk_keys_of(after) == otk_keys_of(before).remove(prekey_otk(first)),
        prekey_otk(second) == prekey_otk(first),
    ensures
        !otk_keys_of(after).contains(prekey_otk(second)),
{
}

} // verus!

//! Group sessions: the sender-side one-way hash ratchet and its
//! receiver-side counterpart.
//!
//! The ratchet itself lives in `vodozemac::megolm` behind trusted wrappers.
//! What a group message contains is, by construction, a pure function of
//! the session-key export and the message text, named here by
//! [`group_open_bytes`]; exports of the same chain are related by
//! [`group_connected`], so a message opens under every export taken at or
//! before its index. The outbound session mirrors its message index and
//! its current export as plain values, and the inbound session adds the
//! replay protection that the spec demands: every message index is
//! decrypted at most once.

use vstd::prelude::*;

use crate::codec::utf8_decode;
use crate::errors::{EfSecError, ErrorKind, fails_with};

verus! {

/// What an inbound group session freshly built from the session-key export
/// `session_key` recovers from the message text `message`, before the
/// output-encoding step: the embedded message index and the plaintext
/// bytes, or nothing when the text is malformed, the signature or MAC
/// fails, or the index lies before the export's starting index. Decryption
/// uses only the chain state and the public signing key carried by the
/// export, so this is a function of the two texts alone.
pub uninterp spec fn group_open_bytes(session_key: Seq<char>, message: Seq<char>) -> Option<
    (u32, Seq<u8>),
>;

/// What such a session hands its caller: the recovered bytes decoded as
/// text, or nothing when decryption fails or the bytes are not valid
/// UTF-8.
pub open spec fn group_open(session_key: Seq<char>, message: Seq<char>) -> Option<
    (u32, Seq<char>),
> {
    match group_open_bytes(session_key, message) {
        Some((index, bytes)) => match utf8_decode(bytes) {
            Some(plaintext) => Some((index, plaintext)),
            None => None,
        },
        None => None,
    }
}

/// Whether two session-key exports belong to the same chain: both are
/// well-formed, they carry the same signing key and session configuration,
/// the starting index of `from` is at or before that of `to`, and
/// advancing `from`'s chain key one-way to `to`'s starting index yields
/// exactly `to`'s chain key. An inbound session built from `from` can then
/// reach every position that one built from `to` can. A function of the
/// two texts alone.
pub uninterp spec fn group_connected(from: Seq<char>, to: Seq<char>) -> bool;

/// Whether the given text is a well-formed base64-encoded group message
/// envelope. A function of the text alone.
pub uninterp spec fn megolm_message_parses(message: Seq<char>) -> bool;

/// Whether the given message parses and its embedded signature verifies
/// under the public signing key carried by the given session-key export. A
/// function of the two texts alone.
pub uninterp spec fn group_authentic(session_key: Seq<char>, message: Seq<char>) -> bool;

/// The message index embedded (unencrypted) in a well-formed group message
/// envelope. A function of the message text alone.
pub uninterp spec fn group_message_index(message: Seq<char>) -> u32;

/// Whether the given text is a well-formed base64-encoded session-key
/// export. A function of the text alone.
pub uninterp spec fn group_session_key_parses(session_key: Seq<char>) -> bool;

/// The starting message index bound into a session-key export: messages
/// before it are beyond the forward-secrecy boundary of every inbound
/// session built from the export. A function of the export text alone.
pub uninterp spec fn group_first_index(session_key: Seq<char>) -> u32;

/// Whether a message index lies before the starting index bound into the
/// export: beyond the forward-secrecy boundary.
pub open spec fn index_before_boundary(index: u32, session_key: Seq<char>) -> bool {
    index < group_first_index(session_key)
}

/// Whether an inbound group session whose state is the export `session_key`
/// and the already-consumed index list `consumed` accepts the message: it
/// opens, and its index was not consumed before.
pub open spec fn group_accepts(
    session_key: Seq<char>,
    consumed: Seq<u32>,
    message: Seq<char>,
) -> bool {
    match group_open(session_key, message) {
        Some((index, _)) => !consumed.contains(index),
        None => false,
    }
}

/// The index a message opens to under an export; meaningful when it opens.
pub open spec fn group_opened_index(session_key: Seq<char>, message: Seq<char>) -> u32 {
    match group_open(session_key, message) {
        Some((index, _)) => index,
        None => 0,
    }
}

/// The plaintext a message opens to under an export; meaningful when it
/// opens.
pub open spec fn group_opened_plaintext(session_key: Seq<char>, message: Seq<char>) -> Seq<char> {
    match group_open(session_key, message) {
        Some((_, plaintext)) => plaintext,
        None => Seq::empty(),
    }
}

#[verifier::external_type_specification]
#[verifier::external_body]
pub struct ExGroupSession(vodozemac::megolm::GroupSession);

#[verifier::external_type_specification]
#[verifier::external_body]
pub struct ExInboundGroupSession(vodozemac::megolm::InboundGroupSession);

#[verifier::external_type_specification]
#[verifier::external_body]
pub struct ExMegolmDecryptionError(vodozemac::megolm::DecryptionError);

/// The sender side of a group conversation: a one-way hash-ratchet chain
/// with a strictly monotonic message index, signed with the session's
/// signing key.
pub struct EfSecOutboundGroupSession {
    /// The hash ratchet and the signing keypair.
    pub(crate) inner: vodozemac::megolm::GroupSession,
    /// The session identifier, derived from the public signing key.
    pub(crate) sid: String,
    /// The current session-key export: chain state and starting index equal
    /// to the current message index, refreshed by every encryption.
    pub(crate) export: String,
    /// The current message index; never repeats or decreases.
    pub(crate) index: u32,
}

/// The receiver side of a group conversation, built from a session-key
/// export, able to move the chain forward and to decrypt each message index
/// at most once.
pub struct EfSecInboundGroupSession {
    /// The receiving ratchet and the public signing key.
    pub(crate) inner: vodozemac::megolm::InboundGroupSession,
    /// The session-key export this session was built from.
    pub(crate) session_key: String,
    /// The message indices already decrypted; replayed indices are refused.
    pub(crate) consumed: Vec<u32>,
}

/// Relies on `vodozemac::megolm::GroupSession::new`, `session_id` and
/// `session_key`: a fresh outbound session starts with a random chain key
/// and signing keypair at message index 0; its export encodes the chain
/// state bound to starting index 0 and is well-formed; its identifier is
/// the base64 form of the public signing key.
#[verifier::external_body]
fn group_raw_new() -> (r: (vodozemac::megolm::GroupSession, String, String))
    ensures
        group_session_key_parses(r.2@),
        group_first_index(r.2@) == 0,
        group_connected(r.2@, r.2@),
{
    let inner = vodozemac::megolm::GroupSession::new(vodozemac::megolm::SessionConfig::version_1());
    let sid = inner.session_id();
    let export = inner.session_key().to_base64();
    (inner, sid, export)
}

/// Relies on `vodozemac::megolm::SessionKey::from_base64` and
/// `InboundGroupSession::new`: decoding is a function of the text alone and
/// succeeds exactly when the text is a well-formed export; the session then
/// starts at the export's starting index.
#[verifier::external_body]
fn inbound_raw_new(session_key: &str) -> (r: Result<
    vodozemac::megolm::InboundGroupSession,
    EfSecError,
>)
    ensures
        r is Ok <==> group_session_key_parses(session_key@),
        r matches Err(e) ==> e.kind == ErrorKind::Decoding,
{
    let key = match vodozemac::megolm::SessionKey::from_base64(session_key) {
        Ok(k) => k,
        Err(e) => return Err(EfSecError::new(ErrorKind::Decoding, e.to_string())),
    };
    Ok(vodozemac::megolm::InboundGroupSession::new(
        &key,
        vodozemac::megolm::SessionConfig::version_1(),
    ))
}

/// Relies on `vodozemac::megolm::DecryptionError`: sorts each failure of
/// group decryption into the library's taxonomy. A signature, MAC or
/// padding failure is tampered or forged content; an index before the
/// session's starting index is the forward-secrecy boundary, a replay or
/// ordering failure.
#[verifier::external_body]
fn map_megolm_decrypt_error(e: vodozemac::megolm::DecryptionError) -> (r: EfSecError)
    ensures
        r.kind == ErrorKind::Authentication || r.kind == ErrorKind::ReplayOrOrdering,
{
    let kind = match &e {
        vodozemac::megolm::DecryptionError::Signature(_) => ErrorKind::Authentication,
        vodozemac::megolm::DecryptionError::InvalidMAC(_) => ErrorKind::Authentication,
        vodozemac::megolm::DecryptionError::InvalidMACLength(_, _) => ErrorKind::Authentication,
        vodozemac::megolm::DecryptionError::InvalidPadding(_) => ErrorKind::Authentication,
        vodozemac::megolm::DecryptionError::UnknownMessageIndex(_, _) => {
            ErrorKind::ReplayOrOrdering
        },
    };
    EfSecError::new(kind, e.to_string())
}

impl EfSecOutboundGroupSession {
    /// The session identifier, as contracts speak of it.
    pub closed spec fn spec_id(&self) -> Seq<char> {
        self.sid@
    }

    /// The current session-key export, as contracts speak of it.
    pub closed spec fn spec_export(&self) -> Seq<char> {
        self.export@
    }

    /// The current message index, as contracts speak of it.
    pub closed spec fn spec_index(&self) -> u32 {
        self.index
    }

    /// Relies on `vodozemac::megolm::GroupSession::encrypt`, `session_key`
    /// and `message_index`: encrypting derives the message key at the
    /// current index, signs the envelope, advances the chain one-way and
    /// increments the index; it never fails. The produced message opens to
    /// exactly the plaintext at the old index — under the export current
    /// when it was encrypted and, since the chain key at the message's
    /// index is reachable one-way from any earlier position of the same
    /// chain and the signing key never changes, equally under every export
    /// connected to it. The refreshed export is the same chain advanced by
    /// one step, so connectivity carries forward to it and the message
    /// lies before the boundary of sessions built from it. The session
    /// identifier never changes.
    #[verifier::external_body]
    fn encrypt_raw(&mut self, plaintext: &str) -> (r: String)
        requires
            old(self).spec_index() < u32::MAX,
        ensures
            final(self).spec_id() == old(self).spec_id(),
            final(self).spec_index() == old(self).spec_index() + 1,
            group_open(old(self).spec_export(), r@) == Some((old(self).spec_index(), plaintext@)),
            forall|e: Seq<char>| group_connected(e, old(self).spec_export()) ==> group_open(e, r@) == Some((old(self).spec_index(), plaintext@)),
            forall|e: Seq<char>| group_connected(e, old(self).spec_export()) ==> group_connected(e, final(self).spec_export()),
            group_connected(old(self).spec_export(), final(self).spec_export()),
            group_connected(final(self).spec_export(), final(self).spec_export()),
            group_authentic(old(self).spec_export(), r@),
            group_authentic(final(self).spec_export(), r@),
            megolm_message_parses(r@),
            group_message_index(r@) == old(self).spec_index(),
            group_session_key_parses(final(self).spec_export()),
            group_first_index(final(self).spec_export()) == old(self).spec_index() + 1,
    {
        let message = self.inner.encrypt(plaintext).to_base64();
        self.export = self.inner.session_key().to_base64();
        self.index = self.inner.message_index();
        message
    }

    /// Create a fresh outbound group session with a random chain key and
    /// signing keypair, at message index 0.
    pub fn new() -> (r: EfSecOutboundGroupSession)
        ensures
            r.spec_index() == 0,
            group_session_key_parses(r.spec_export()),
            group_first_index(r.spec_export()) == 0,
            group_connected(r.spec_export(), r.spec_export()),
    {
        let (inner, sid, export) = group_raw_new();
        EfSecOutboundGroupSession { inner, sid, export, index: 0 }
    }

    /// The current session-key export: the chain key and starting index in
    /// a form suitable for distribution to the intended recipients.
    /// Recipients cannot decrypt messages sent before the index at which
    /// the export was taken.
    pub fn session_key(&self) -> (r: String)
        ensures
            r@ == self.spec_export(),
    {
        self.export.clone()
    }

    /// The session identifier, derived from the public signing key; stable
    /// for the session's life.
    pub fn session_id(&self) -> (r: String)
        ensures
            r@ == self.spec_id(),
    {
        self.sid.clone()
    }

    /// The current message index: the index the next envelope will carry.
    pub fn message_index(&self) -> (r: u32)
        ensures
            r == self.spec_index(),
    {
        self.index
    }

    /// Encrypt a plaintext at the current message index: the envelope is
    /// signed, carries the index, and opens to exactly this plaintext at
    /// that index — under the export that was current when it was
    /// encrypted, and equally under every export connected to it, such as
    /// one taken from this session at any earlier index. The chain then
    /// advances one-way and the index increments, so it never repeats or
    /// decreases. Never fails.
    pub fn encrypt(&mut self, plaintext: &str) -> (r: String)
        requires
            old(self).spec_index() < u32::MAX,
        ensures
            final(self).spec_id() == old(self).spec_id(),
            final(self).spec_index() == old(self).spec_index() + 1,
            group_open(old(self).spec_export(), r@) == Some((old(self).spec_index(), plaintext@)),
            forall|e: Seq<char>| group_connected(e, old(self).spec_export()) ==> group_open(e, r@) == Some((old(self).spec_index(), plaintext@)),
            forall|e: Seq<char>| group_connected(e, old(self).spec_export()) ==> group_connected(e, final(self).spec_export()),
            group_connected(old(self).spec_export(), final(self).spec_export()),
            group_connected(final(self).spec_export(), final(self).spec_export()),
            group_authentic(old(self).spec_export(), r@),
            group_authentic(final(self).spec_export(), r@),
            megolm_message_parses(r@),
            group_message_index(r@) == old(self).spec_index(),
            group_session_key_parses(final(self).spec_export()),
            group_first_index(final(self).spec_export()) == old(self).spec_index() + 1,
    {
        self.encrypt_raw(plaintext)
    }
}

impl Default for EfSecOutboundGroupSession {
    /// A fresh outbound group session, as [`EfSecOutboundGroupSession::new`]
    /// creates it.
    fn default() -> (r: EfSecOutboundGroupSession)
        ensures
            r.spec_index() == 0,
            group_session_key_parses(r.spec_export()),
            group_first_index(r.spec_export()) == 0,
            group_connected(r.spec_export(), r.spec_export()),
    {
        EfSecOutboundGroupSession::new()
    }
}

/// Whether the list holds the given index.
fn contains_index(v: &Vec<u32>, x: u32) -> (r: bool)
    ensures
        r == v@.contains(x),
{
    let mut i: usize = 0;
    while i < v.len()
        invariant
            i <= v@.len(),
            forall|j: int| 0 <= j < i ==> v@[j] != x,
        decreases v@.len() - i,
    {
        if v[i] == x {
            assert(v@[i as int] == x);
            return true;
        }
        i += 1;
    }
    false
}

impl EfSecInboundGroupSession {
    /// The session-key export this session was built from, as contracts
    /// speak of it.
    pub closed spec fn spec_session_key(&self) -> Seq<char> {
        self.session_key@
    }

    /// The message indices already decrypted, as contracts speak of them.
    pub closed spec fn spec_consumed(&self) -> Seq<u32> {
        self.consumed@
    }

    /// Relies on `vodozemac::megolm::MegolmMessage::from_base64`,
    /// `InboundGroupSession::decrypt` and `String::from_utf8`: the embedded
    /// signature is verified first, then the chain is advanced one-way from
    /// the export's starting index to the target index (it can never move
    /// backward), the MAC is checked and the message key decrypts the
    /// ciphertext. The outcome and its sorting into the taxonomy are a
    /// function of the export and the message text alone; the session's
    /// mirrored state is untouched.
    #[verifier::external_body]
    fn decrypt_raw(&mut self, message: &str) -> (r: Result<(u32, String), EfSecError>)
        ensures
            final(self).spec_session_key() == old(self).spec_session_key(),
            final(self).spec_consumed() == old(self).spec_consumed(),
            r is Ok <==> group_open(old(self).spec_session_key(), message@) is Some,
            r matches Ok(p) ==> group_open(old(self).spec_session_key(), message@) == Some((p.0, p.1@)),
            r matches Ok(p) ==> !index_before_boundary(p.0, old(self).spec_session_key()),
            r matches Err(e) ==> e.kind == ErrorKind::Decoding || e.kind == ErrorKind::Authentication || e.kind == ErrorKind::ReplayOrOrdering || e.kind == ErrorKind::EncodingOutput,
            !megolm_message_parses(message@) ==> fails_with(r, ErrorKind::Decoding),
            megolm_message_parses(message@) && !group_authentic(old(self).spec_session_key(), message@) ==> fails_with(r, ErrorKind::Authentication),
            group_authentic(old(self).spec_session_key(), message@) && index_before_boundary(group_message_index(message@), old(self).spec_session_key()) ==> fails_with(r, ErrorKind::ReplayOrOrdering),
            group_authentic(old(self).spec_session_key(), message@) && !index_before_boundary(group_message_index(message@), old(self).spec_session_key()) && group_open_bytes(old(self).spec_session_key(), message@) is None ==> fails_with(r, ErrorKind::Authentication),
            group_open_bytes(old(self).spec_session_key(), message@) matches Some(b) && utf8_decode(b.1) is None ==> fails_with(r, ErrorKind::EncodingOutput),
    {
        let msg = match vodozemac::megolm::MegolmMessage::from_base64(message) {
            Ok(m) => m,
            Err(e) => return Err(EfSecError::new(ErrorKind::Decoding, e.to_string())),
        };
        let decrypted = match self.inner.decrypt(&msg) {
            Ok(d) => d,
            Err(e) => return Err(map_megolm_decrypt_error(e)),
        };
        match String::from_utf8(decrypted.plaintext) {
            Ok(plaintext) => Ok((decrypted.message_index, plaintext)),
            Err(e) => Err(EfSecError::new(ErrorKind::EncodingOutput, e.to_string())),
        }
    }

    /// Build an inbound group session from a session-key export. Malformed
    /// export text is a decoding failure; otherwise the session starts at
    /// the export's starting index with nothing consumed.
    pub fn new(session_key: &str) -> (r: Result<EfSecInboundGroupSession, EfSecError>)
        ensures
            r is Ok <==> group_session_key_parses(session_key@),
            r matches Ok(s) ==> s.spec_session_key() == session_key@ && s.spec_consumed() == Seq::<u32>::empty(),
            r matches Err(e) ==> e.kind == ErrorKind::Decoding,
    {
        let inner = match inbound_raw_new(session_key) {
            Ok(i) => i,
            Err(e) => return Err(e),
        };
        Ok(EfSecInboundGroupSession {
            inner,
            session_key: session_key.to_owned(),
            consumed: Vec::new(),
        })
    }

    /// Decrypt a group message: exactly when it opens under the session's
    /// export and its index was never decrypted before. The signature is
    /// verified first — forged content is an authentication failure,
    /// distinct from decryption failures. An index before the export's
    /// starting index is refused permanently (the forward-secrecy
    /// boundary), and a replayed index is refused once consumed, both as
    /// replay-or-ordering failures. On failure the session's state is
    /// exactly as it was before the call.
    pub fn decrypt(&mut self, message: &str) -> (r: Result<String, EfSecError>)
        ensures
            final(self).spec_session_key() == old(self).spec_session_key(),
            r is Ok <==> group_accepts(old(self).spec_session_key(), old(self).spec_consumed(), message@),
            r matches Ok(p) ==> p@ == group_opened_plaintext(old(self).spec_session_key(), message@),
            r is Ok ==> final(self).spec_consumed() == old(self).spec_consumed().push(group_opened_index(old(self).spec_session_key(), message@)),
            r is Ok ==> group_opened_index(old(self).spec_session_key(), message@) >= group_first_index(old(self).spec_session_key()),
            r is Err ==> final(self).spec_consumed() == old(self).spec_consumed(),
            !megolm_message_parses(message@) ==> (r matches Err(e) && e.kind == ErrorKind::Decoding),
            megolm_message_parses(message@) && !group_authentic(old(self).spec_session_key(), message@) ==> (r matches Err(e) && e.kind == ErrorKind::Authentication),
            group_authentic(old(self).spec_session_key(), message@) && group_message_index(message@) < group_first_index(old(self).spec_session_key()) ==> (r matches Err(e) && e.kind == ErrorKind::ReplayOrOrdering),
            group_authentic(old(self).spec_session_key(), message@) && group_message_index(message@) >= group_first_index(old(self).spec_session_key()) && group_open_bytes(old(self).spec_session_key(), message@) is None ==> (r matches Err(e) && e.kind == ErrorKind::Authentication),
            group_open_bytes(old(self).spec_session_key(), message@) matches Some(b) && utf8_decode(b.1) is None ==> (r matches Err(e) && e.kind == ErrorKind::EncodingOutput),
            group_open(old(self).spec_session_key(), message@) matches Some(op) && old(self).spec_consumed().contains(op.0) ==> (r matches Err(e) && e.kind == ErrorKind::ReplayOrOrdering),
    {
        let (index, plaintext) = match self.decrypt_raw(message) {
            Ok(p) => p,
            Err(e) => return Err(e),
        };
        if contains_index(&self.consumed, index) {
            return Err(
                EfSecError::new(
                    ErrorKind::ReplayOrOrdering,
                    "message index already consumed".to_owned(),
                ),
            );
        }
        self.consumed.push(index);
        Ok(plaintext)
    }
}

/// Group round trip: a message that opens under a session-key export to
/// index `i` and plaintext `p` — as every message an outbound session
/// produces opens under the export current at its encryption, and under
/// every export connected to it, such as one taken at any earlier index —
/// is accepted by an inbound session built from that export in any state
/// that has not consumed `i`, and yields exactly `p` at exactly `i`.
pub proof fn lemma_group_round_trip(
    session_key: Seq<char>,
    message: Seq<char>,
    i: u32,
    p: Seq<char>,
    consumed: Seq<u32>,
)
    requires
        group_open(session_key, message) == Some((i, p)),
        !consumed.contains(i),
    ensures
        group_accepts(session_key, consumed, message),
        group_opened_index(session_key, message) == i,
        group_opened_plaintext(session_key, message) == p,
{
}

/// Replay rejection: once a message is accepted and its index recorded, the
/// same message is no longer accepted in the session's new state.
pub proof fn lemma_replay_rejected(session_key: Seq<char>, message: Seq<char>, consumed: Seq<u32>)
    requires
        group_accepts(session_key, consumed, message),
    ensures
        !group_accepts(session_key, consumed.push(group_opened_index(session_key, message)), message),
{
    let i = group_opened_index(session_key, message);
    assert(consumed.push(i)[consumed.len() as int] == i);
    assert(consumed.push(i).contains(i));
}

/// Out-of-order tolerance: consuming one message index never blocks a
/// message that carries a different index, whatever the delivery order.
pub proof fn lemma_out_of_order(
    session_key: Seq<char>,
    accepted: Seq<char>,
    other: Seq<char>,
    consumed: Seq<u32>,
)
    requires
        group_accepts(session_key, consumed, other),
        group_opened_index(session_key, accepted) != group_opened_index(session_key, other),
    ensures
        group_accepts(session_key, consumed.push(group_opened_index(session_key, accepted)), other),
{
    let i = group_opened_index(session_key, accepted);
    let j = group_opened_index(session_key, other);
    let pushed = consumed.push(i);
    assert(!pushed.contains(j)) by {
        if pushed.contains(j) {
            let k = choose|k: int| 0 <= k < pushed.len() && pushed[k] == j;
            if k < consumed.len() {
                assert(consumed[k] == j);
                assert(consumed.contains(j));
            } else {
                assert(pushed[k] == i);
            }
        }
    }
}

} // verus!

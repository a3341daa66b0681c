//! Pairwise double-ratchet sessions.
//!
//! A session encrypts and decrypts individual messages between two devices
//! with per-message forward secrecy. The ratchet itself lives in
//! `vodozemac::olm::Session` behind trusted wrappers; this module pins down
//! the envelope handling, the session identifier, and the error taxonomy of
//! every outcome.

use vstd::prelude::*;

use crate::codec::utf8_string;
use crate::errors::{EfSecError, ErrorKind};

verus! {

/// Whether the given text is a well-formed pairwise message envelope: the
/// JSON form of a `vodozemac::olm::OlmMessage`, an object carrying the
/// message-type discriminant (initial or normal) and the ciphertext. A
/// function of the text alone.
pub uninterp spec fn olm_message_parses(text: Seq<char>) -> bool;

/// Whether a well-formed pairwise envelope carries the "initial" message
/// type: the one that holds the metadata a never-before-communicated peer
/// needs to complete the key agreement. A function of the text alone.
pub uninterp spec fn olm_message_is_initial(text: Seq<char>) -> bool;

#[verifier::external_type_specification]
#[verifier::external_body]
pub struct ExOlmSession(vodozemac::olm::Session);

#[verifier::external_type_specification]
#[verifier::external_body]
pub struct ExOlmMessage(vodozemac::olm::OlmMessage);

#[verifier::external_type_specification]
#[verifier::external_body]
pub struct ExOlmDecryptionError(vodozemac::olm::DecryptionError);

/// A pairwise double-ratchet session between two accounts.
pub struct EfSecSession {
    /// The double-ratchet state machine.
    pub(crate) inner: vodozemac::olm::Session,
    /// The session identifier, fixed for the life of the session.
    pub(crate) sid: String,
    /// Whether a message from the peer has been decrypted: once it has,
    /// outgoing envelopes switch from the initial to the normal type.
    pub(crate) established: bool,
}

/// Relies on `serde_json::from_str::<vodozemac::olm::OlmMessage>`: parsing
/// is a function of the input text alone and succeeds exactly when the text
/// is a well-formed envelope.
#[verifier::external_body]
fn parse_olm_message(text: &str) -> (r: Result<vodozemac::olm::OlmMessage, String>)
    ensures
        r is Ok <==> olm_message_parses(text@),
{
    serde_json::from_str(text).map_err(|e| e.to_string())
}

/// Relies on `vodozemac::olm::DecryptionError`: sorts each failure of the
/// double ratchet into the library's taxonomy. A MAC or padding failure is
/// tampered content; a missing message key or an oversized counter gap is a
/// replay or ordering failure; a non-contributory Diffie-Hellman exchange is
/// a failed key agreement.
#[verifier::external_body]
pub(crate) fn map_olm_decrypt_error(e: vodozemac::olm::DecryptionError) -> (r: EfSecError)
    ensures
        r.kind == ErrorKind::Authentication || r.kind == ErrorKind::ReplayOrOrdering || r.kind == ErrorKind::SessionEstablishment,
{
    let kind = match &e {
        vodozemac::olm::DecryptionError::InvalidMAC(_) => ErrorKind::Authentication,
        vodozemac::olm::DecryptionError::InvalidMACLength(_, _) => ErrorKind::Authentication,
        vodozemac::olm::DecryptionError::InvalidPadding(_) => ErrorKind::Authentication,
        vodozemac::olm::DecryptionError::NonContributoryKey => ErrorKind::SessionEstablishment,
        vodozemac::olm::DecryptionError::MissingMessageKey(_) => ErrorKind::ReplayOrOrdering,
        vodozemac::olm::DecryptionError::TooBigMessageGap(_, _) => ErrorKind::ReplayOrOrdering,
    };
    EfSecError::new(kind, e.to_string())
}

impl EfSecSession {
    /// The session identifier, as contracts speak of it.
    pub closed spec fn spec_id(&self) -> Seq<char> {
        self.sid@
    }

    /// Whether the session has decrypted a message from the peer, as
    /// contracts speak of it.
    pub closed spec fn spec_established(&self) -> bool {
        self.established
    }

    /// Relies on `vodozemac::olm::Session::encrypt` and
    /// `serde_json::to_string`: encrypting derives the next message key from
    /// the sending chain and returns an envelope that serializes to
    /// well-formed envelope text; the session identifier never changes, and
    /// neither does encrypting alone establish the session. The envelope
    /// carries the initial type exactly until a message from the peer has
    /// been decrypted. The only encryption failure is a non-contributory
    /// key exchange; a serialization failure would be surfaced, never
    /// swallowed.
    #[verifier::external_body]
    fn encrypt_raw(&mut self, plaintext: &str) -> (r: Result<String, EfSecError>)
        ensures
            final(self).spec_id() == old(self).spec_id(),
            final(self).spec_established() == old(self).spec_established(),
            r matches Ok(s) ==> olm_message_parses(s@),
            r matches Ok(s) ==> olm_message_is_initial(s@) == !old(self).spec_established(),
            r matches Err(e) ==> e.kind == ErrorKind::SessionEstablishment || e.kind == ErrorKind::EncodingOutput,
    {
        let message = match self.inner.encrypt(plaintext) {
            Ok(m) => m,
            Err(e) => return Err(EfSecError::new(ErrorKind::SessionEstablishment, e.to_string())),
        };
        serde_json::to_string(&message)
            .map_err(|e| EfSecError::new(ErrorKind::EncodingOutput, e.to_string()))
    }

    /// Relies on `vodozemac::olm::Session::decrypt`: returns the plaintext
    /// bytes of the envelope, or sorts the failure into the library's
    /// taxonomy; the session identifier never changes. A successful
    /// decryption establishes the receiving chain; a failed one leaves the
    /// ratchet state as it was.
    #[verifier::external_body]
    fn decrypt_raw(&mut self, message: &vodozemac::olm::OlmMessage) -> (r: Result<Vec<u8>, EfSecError>)
        ensures
            final(self).spec_id() == old(self).spec_id(),
            r is Ok ==> final(self).spec_established(),
            r is Err ==> final(self).spec_established() == old(self).spec_established(),
            r matches Err(e) ==> e.kind == ErrorKind::Authentication || e.kind == ErrorKind::ReplayOrOrdering || e.kind == ErrorKind::SessionEstablishment,
    {
        match self.inner.decrypt(message) {
            Ok(bytes) => {
                self.established = true;
                Ok(bytes)
            },
            Err(e) => Err(map_olm_decrypt_error(e)),
        }
    }

    /// The session identifier: stable for the life of the session, and equal
    /// on both peers once the session is mutually established.
    pub fn session_id(&self) -> (r: String)
        ensures
            r@ == self.spec_id(),
    {
        self.sid.clone()
    }

    /// Encrypt a plaintext with the next key of the sending chain and return
    /// the message envelope, tagged with the initial type exactly until a
    /// message from the peer has been decrypted, and with the normal type
    /// afterwards. The previous chain key is discarded by the ratchet, so
    /// sent messages keep forward secrecy.
    pub fn encrypt(&mut self, plaintext: &str) -> (r: Result<String, EfSecError>)
        ensures
            final(self).spec_id() == old(self).spec_id(),
            final(self).spec_established() == old(self).spec_established(),
            r matches Ok(s) ==> olm_message_parses(s@),
            r matches Ok(s) ==> olm_message_is_initial(s@) == !old(self).spec_established(),
            r matches Err(e) ==> e.kind == ErrorKind::SessionEstablishment || e.kind == ErrorKind::EncodingOutput,
    {
        self.encrypt_raw(plaintext)
    }

    /// Decrypt a message envelope. A malformed envelope is a decoding
    /// failure; tampered content is an authentication failure, distinct from
    /// a replayed or out-of-window counter; plaintext that is not valid
    /// UTF-8 is an output-encoding failure. On success the consumed message
    /// key is erased by the ratchet. A failure of any kind but the last
    /// leaves the ratchet untouched; on an output-encoding failure the
    /// message key was genuinely consumed, so only then may the session
    /// have become established without a plaintext being returned.
    pub fn decrypt(&mut self, message: &str) -> (r: Result<String, EfSecError>)
        ensures
            final(self).spec_id() == old(self).spec_id(),
            r is Ok ==> final(self).spec_established(),
            old(self).spec_established() ==> final(self).spec_established(),
            r matches Err(e) && e.kind != ErrorKind::EncodingOutput ==> final(self).spec_established() == old(self).spec_established(),
            r is Ok ==> olm_message_parses(message@),
            !olm_message_parses(message@) ==> (r matches Err(e) && e.kind == ErrorKind::Decoding),
            r matches Err(e) ==> e.kind == ErrorKind::Decoding || e.kind == ErrorKind::Authentication || e.kind == ErrorKind::ReplayOrOrdering || e.kind == ErrorKind::SessionEstablishment || e.kind == ErrorKind::EncodingOutput,
    {
        let parsed = match parse_olm_message(message) {
            Ok(m) => m,
            Err(detail) => return Err(EfSecError::new(ErrorKind::Decoding, detail)),
        };
        let bytes = match self.decrypt_raw(&parsed) {
            Ok(b) => b,
            Err(e) => return Err(e),
        };
        utf8_string(bytes)
    }
}

} // verus!

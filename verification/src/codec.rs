//! The output-encoding edge shared by the decryption paths: decrypted
//! plaintext bytes are handed back to callers as text, and bytes that are
//! not valid for that encoding are surfaced as an
//! [`ErrorKind::EncodingOutput`] failure, never silently replaced.

use vstd::prelude::*;

use crate::errors::{EfSecError, ErrorKind};

verus! {

/// What `String::from_utf8` recovers from the given bytes: the character
/// sequence they encode, or nothing when they are not valid UTF-8. A
/// function of the bytes alone.
pub uninterp spec fn utf8_decode(bytes: Seq<u8>) -> Option<Seq<char>>;

/// Relies on `String::from_utf8` (std): it succeeds exactly when the bytes
/// are valid UTF-8, and then returns the string those bytes encode.
#[verifier::external_body]
pub(crate) fn utf8_string(bytes: Vec<u8>) -> (r: Result<String, EfSecError>)
    ensures
        r is Ok <==> utf8_decode(bytes@) is Some,
        r matches Ok(s) ==> utf8_decode(bytes@) == Some(s@),
        r matches Err(e) ==> e.kind == ErrorKind::EncodingOutput,
{
    match String::from_utf8(bytes) {
        Ok(s) => Ok(s),
        Err(e) => Err(EfSecError::new(ErrorKind::EncodingOutput, e.to_string())),
    }
}

} // verus!

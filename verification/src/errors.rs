//! The error taxonomy of the library.
//!
//! Every fallible operation surfaces its failure explicitly as an
//! [`EfSecError`], which pairs a machine-readable [`ErrorKind`] with a
//! human-readable cause. Nothing is retried internally and no failure is
//! silently replaced by a default value.

use vstd::prelude::*;

verus! {

/// The kind of a failure, for programmatic handling.
#[derive(Clone, Copy, Debug, PartialEq, Eq)]
pub enum ErrorKind {
    /// A key or message encoding could not be parsed.
    Decoding,
    /// A session could not be established: the referenced one-time key is
    /// unknown or already consumed, the initial message is unusable, or the
    /// key agreement failed.
    SessionEstablishment,
    /// A MAC or signature check failed: the content was tampered with or
    /// forged.
    Authentication,
    /// The message counter or index was already consumed, or lies before the
    /// retained forward-secrecy boundary.
    ReplayOrOrdering,
    /// A successfully decrypted or produced value was not valid for the
    /// expected output encoding.
    EncodingOutput,
}

/// Whether the result is a failure of the given kind.
pub open spec fn fails_with<T>(r: Result<T, EfSecError>, kind: ErrorKind) -> bool {
    match r {
        Ok(_) => false,
        Err(e) => e.kind == kind,
    }
}

/// An explicit failure value: a kind plus a human-readable cause.
#[derive(Debug)]
pub struct EfSecError {
    /// What class of failure occurred.
    pub kind: ErrorKind,
    /// A human-readable description of the cause.
    pub detail: String,
}

impl EfSecError {
    /// Build an error of the given kind with the given cause.
    pub fn new(kind: ErrorKind, detail: String) -> (r: EfSecError)
        ensures
            r.kind == kind,
            r.detail == detail,
    {
        EfSecError { kind, detail }
    }

    /// The kind of this error.
    pub fn kind(&self) -> (k: ErrorKind)
        ensures
            k == self.kind,
    {
        self.kind
    }

    /// The human-readable cause of this error.
    pub fn message(&self) -> (m: String)
        ensures
            m@ == self.detail@,
    {
        self.detail.clone()
    }
}

} // verus!

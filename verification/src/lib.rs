//! End-to-end encrypted messaging primitives: device accounts with one-time
//! prekeys, pairwise double-ratchet sessions, and group sender-key ratchets.
//!
//! The cryptographic primitives themselves (key agreement, the ratchet
//! constructions, signing) are provided by the `vodozemac` crate and are
//! reached through a small set of trusted wrappers; everything layered on
//! top of them — the error taxonomy, replay protection for inbound group
//! sessions, and the parse/establish/encrypt/decrypt flows — is verified.

pub mod account;
pub mod codec;
pub mod errors;
pub mod group;
pub mod session;

pub use account::EfSecAccount;
pub use errors::{EfSecError, ErrorKind};
pub use group::{EfSecInboundGroupSession, EfSecOutboundGroupSession};
pub use session::EfSecSession;

//! Orchestration core for end-to-end-encrypted messaging sessions.
//!
//! The crate decides which protocol messages must be sent to establish and
//! maintain cryptographic sessions, tracks which of those messages have been
//! acknowledged, and drives an interactive device-verification (SAS)
//! handshake to completion.  It performs no I/O itself: the cryptographic
//! engine, the persistent store and the network transport are outside
//! collaborators that exchange plain values with this core.

pub mod directory;
pub mod errors;
pub mod ids;
pub mod ledger;
pub mod machine;
pub mod requests;
pub mod verification;

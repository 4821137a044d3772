//! A light-client verifier core: tracks the verified history of a remote
//! chain, admits new headers by extending a chain of trust, detects and
//! reacts to misbehaviour, and checks membership / non-membership claims
//! against previously verified state commitments.
//!
//! The host environment (message transport, persistent storage, wire
//! encoding) stays outside; the library works on a caller-owned
//! [`state::CommitmentStore`] handle and plain values.

pub mod contract;
pub mod engine;
pub mod errors;
pub mod header;
pub mod height;
pub mod proofs;
pub mod state;

use vstd::prelude::*;

verus! {

/// Typed failures of the verifier core. Every failure is returned to the
/// dispatcher as a value; no operation leaves a partial mutation behind.
#[derive(Clone, Copy, PartialEq, Eq, Structural, Debug)]
pub enum ContractError {
    /// Missing client state, or no consensus state at the requested height.
    NotFound,
    /// Cryptographic or structural mismatch in a membership proof, or a
    /// delay-period precondition that has not elapsed yet.
    InvalidProof,
    /// A header update was rejected; the client stays active.
    InvalidHeader,
    /// The reference trusted state is older than the trusting period.
    Expired,
    /// Two irreconcilable consensus claims were found; the client freezes.
    MisbehaviourDetected,
    /// The client is frozen: verification calls fail fast without any
    /// cryptographic work.
    ClientFrozen,
    /// A conflicting write at an already-written height was attempted
    /// directly on the store; the admission protocol makes this unreachable.
    AlreadyExists,
}

} // verus!

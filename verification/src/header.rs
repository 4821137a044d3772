//! Headers of the remote chain and the pluggable consensus rule that
//! vouches for them.

use crate::height::Height;
use crate::proofs::bytes_eq;
use crate::state::{ConsensusState, ConsensusStateV};
use vstd::prelude::*;

verus! {

/// A claimed new header: the height it targets, its timestamp, the state
/// commitment root it certifies, the hash of the validator set that signed
/// it, and the hash of the set expected to sign the next one.
#[derive(Debug)]
pub struct Header {
    pub height: Height,
    pub timestamp: u64,
    pub root: Vec<u8>,
    pub validators_hash: Vec<u8>,
    pub next_validators_hash: Vec<u8>,
}

/// The mathematical value of a header.
#[verifier::ext_equal]
pub struct HeaderV {
    pub height: Height,
    pub timestamp: u64,
    pub root: Seq<u8>,
    pub validators_hash: Seq<u8>,
    pub next_validators_hash: Seq<u8>,
}

impl View for Header {
    type V = HeaderV;

    open spec fn view(&self) -> HeaderV {
        HeaderV {
            height: self.height,
            timestamp: self.timestamp,
            root: self.root@,
            validators_hash: self.validators_hash@,
            next_validators_hash: self.next_validators_hash@,
        }
    }
}

/// The consensus state an admitted header gives rise to.
pub open spec fn consensus_of(h: HeaderV) -> ConsensusStateV {
    ConsensusStateV {
        root: h.root,
        timestamp: h.timestamp,
        next_validators_hash: h.next_validators_hash,
    }
}

/// The consensus-specific verification primitive, injected into the
/// admission engine: given the reference trusted consensus state, does the
/// chain's finality rule accept this header?
pub trait ConsensusVerifier: Sized {
    /// What the rule accepts, as a pure predicate.
    spec fn spec_valid(&self, trusted: ConsensusStateV, header: HeaderV) -> bool;

    /// Runs the rule; a pure computation with no side effects.
    fn validate_header(&self, trusted: &ConsensusState, header: &Header) -> (r: bool)
        ensures
            r == self.spec_valid(trusted@, header@),
    ;
}

/// The chain-of-trust rule: a header counts as vouched for when it is
/// signed by exactly the validator set the reference trusted state
/// announced for the next header, and its timestamp does not run backwards
/// relative to that state.
pub struct ChainOfTrustVerifier {}

impl ConsensusVerifier for ChainOfTrustVerifier {
    open spec fn spec_valid(&self, trusted: ConsensusStateV, header: HeaderV) -> bool {
        header.validators_hash == trusted.next_validators_hash && header.timestamp
            >= trusted.timestamp
    }

    fn validate_header(&self, trusted: &ConsensusState, header: &Header) -> (r: bool) {
        bytes_eq(&header.validators_hash, &trusted.next_validators_hash) && header.timestamp
            >= trusted.timestamp
    }
}

} // verus!

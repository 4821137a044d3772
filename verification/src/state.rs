//! The data model: client state, per-height consensus states, and the
//! caller-owned commitment store that persists them.

use crate::errors::ContractError;
use crate::height::{height_lt, Height};
use crate::proofs::bytes_eq;
use vstd::prelude::*;

verus! {

/// The singleton record of one client instance: chain identity, the
/// latest trusted height, the freeze flag, and the parameters needed to
/// validate future headers.
#[derive(Clone, Copy, Debug)]
pub struct ClientState {
    pub chain_id: u64,
    /// Maximum age, in seconds, of a reference consensus state beyond
    /// which it can no longer anchor new header validation.
    pub trusting_period: u64,
    /// How far, in seconds, a header's timestamp may run ahead of the
    /// host's current time.
    pub max_clock_drift: u64,
    pub latest_height: Height,
    /// Absent while the client is active; set to the offending height once
    /// misbehaviour freezes the client.
    pub frozen_height: Option<Height>,
}

impl ClientState {
    pub open spec fn is_frozen(self) -> bool {
        self.frozen_height is Some
    }
}

/// The client state after freezing at the offending height; everything
/// else is kept.
pub open spec fn freeze_client(c: ClientState, h: Height) -> ClientState {
    ClientState {
        chain_id: c.chain_id,
        trusting_period: c.trusting_period,
        max_clock_drift: c.max_clock_drift,
        latest_height: c.latest_height,
        frozen_height: Some(h),
    }
}

/// The client state after admitting a header at height `h`: the latest
/// height advances if and only if `h` is beyond it.
pub open spec fn advance_client(c: ClientState, h: Height) -> ClientState {
    ClientState {
        chain_id: c.chain_id,
        trusting_period: c.trusting_period,
        max_clock_drift: c.max_clock_drift,
        latest_height: if height_lt(c.latest_height, h) {
            h
        } else {
            c.latest_height
        },
        frozen_height: c.frozen_height,
    }
}

/// One trusted record per height: the verified state-commitment root, the
/// header's timestamp, and the hash of the validator set expected to vouch
/// for the next header.
#[derive(Debug)]
pub struct ConsensusState {
    pub root: Vec<u8>,
    pub timestamp: u64,
    pub next_validators_hash: Vec<u8>,
}

/// The mathematical value of a consensus state.
#[verifier::ext_equal]
pub struct ConsensusStateV {
    pub root: Seq<u8>,
    pub timestamp: u64,
    pub next_validators_hash: Seq<u8>,
}

impl View for ConsensusState {
    type V = ConsensusStateV;

    open spec fn view(&self) -> ConsensusStateV {
        ConsensusStateV {
            root: self.root@,
            timestamp: self.timestamp,
            next_validators_hash: self.next_validators_hash@,
        }
    }
}

/// Value comparison of two consensus states.
pub fn consensus_state_eq(a: &ConsensusState, b: &ConsensusState) -> (r: bool)
    ensures
        r == (a@ == b@),
{
    let r = bytes_eq(&a.root, &b.root) && a.timestamp == b.timestamp && bytes_eq(
        &a.next_validators_hash,
        &b.next_validators_hash,
    );
    proof {
        if r {
            assert(a@ =~= b@);
        }
    }
    r
}

/// First-match lookup of a height in the stored records.
pub open spec fn lookup_height(s: Seq<(Height, ConsensusState)>, h: Height) -> Option<
    ConsensusStateV,
>
    decreases s.len(),
{
    if s.len() == 0 {
        None
    } else if s[0].0 == h {
        Some(s[0].1@)
    } else {
        lookup_height(s.drop_first(), h)
    }
}

/// At most one record exists per height.
pub open spec fn unique_heights(s: Seq<(Height, ConsensusState)>) -> bool {
    forall|i: int, j: int| #![trigger s[i], s[j]] 0 <= i < j < s.len() ==> s[i].0 != s[j].0
}

/// Lookup returns the record at a known first-match index.
pub proof fn lemma_lookup_at_index(s: Seq<(Height, ConsensusState)>, i: int)
    requires
        0 <= i < s.len(),
        forall|j: int| 0 <= j < i ==> (#[trigger] s[j]).0 != s[i].0,
    ensures
        lookup_height(s, s[i].0) == Some(s[i].1@),
    decreases i,
{
    if i > 0 {
        assert forall|j: int| 0 <= j < i - 1 implies (#[trigger] s.drop_first()[j]).0 != s[i].0 by {
            assert(s.drop_first()[j] == s[j + 1]);
        }
        assert(s.drop_first()[i - 1] == s[i]);
        lemma_lookup_at_index(s.drop_first(), i - 1);
    }
}

/// Lookup misses when no record carries the height.
pub proof fn lemma_lookup_none(s: Seq<(Height, ConsensusState)>, h: Height)
    requires
        forall|j: int| 0 <= j < s.len() ==> (#[trigger] s[j]).0 != h,
    ensures
        lookup_height(s, h) is None,
    decreases s.len(),
{
    if s.len() > 0 {
        assert forall|j: int| 0 <= j < s.drop_first().len() implies (#[trigger] s.drop_first()[j]).0
            != h by {
            assert(s.drop_first()[j] == s[j + 1]);
        }
        lemma_lookup_none(s.drop_first(), h);
    }
}

/// A hit during lookup names a stored record.
pub proof fn lemma_lookup_some_index(s: Seq<(Height, ConsensusState)>, h: Height)
    requires
        lookup_height(s, h) is Some,
    ensures
        exists|i: int| 0 <= i < s.len() && (#[trigger] s[i]).0 == h,
    decreases s.len(),
{
    if s.len() > 0 && s[0].0 != h {
        lemma_lookup_some_index(s.drop_first(), h);
        let i = choose|i: int| 0 <= i < s.drop_first().len() && (#[trigger] s.drop_first()[i]).0
            == h;
        assert(s[i + 1] == s.drop_first()[i]);
    }
}

/// Appending a record changes lookup only at its height, and only if the
/// height was absent.
pub proof fn lemma_lookup_push(s: Seq<(Height, ConsensusState)>, p: (Height, ConsensusState), h: Height)
    ensures
        lookup_height(s.push(p), h) == if lookup_height(s, h) is Some {
            lookup_height(s, h)
        } else if p.0 == h {
            Some(p.1@)
        } else {
            None
        },
    decreases s.len(),
{
    reveal_with_fuel(lookup_height, 3);
    if s.len() == 0 {
        assert(s.push(p)[0] == p);
        assert(s.push(p).drop_first() =~= Seq::<(Height, ConsensusState)>::empty());
    } else {
        assert(s.push(p)[0] == s[0]);
        assert(s.push(p).drop_first() =~= s.drop_first().push(p));
        lemma_lookup_push(s.drop_first(), p, h);
    }
}

/// Replacing the record at a height changes lookup exactly there.
pub proof fn lemma_lookup_update(
    s: Seq<(Height, ConsensusState)>,
    i: int,
    p: (Height, ConsensusState),
    h: Height,
)
    requires
        0 <= i < s.len(),
        s[i].0 == p.0,
        forall|j: int| 0 <= j < i ==> (#[trigger] s[j]).0 != p.0,
    ensures
        lookup_height(s.update(i, p), h) == if h == p.0 {
            Some(p.1@)
        } else {
            lookup_height(s, h)
        },
    decreases i,
{
    let t = s.update(i, p);
    if i == 0 {
        assert(t[0] == p);
        assert(t.drop_first() =~= s.drop_first());
    } else {
        assert(t[0] == s[0]);
        assert(t.drop_first() =~= s.drop_first().update(i - 1, p));
        assert forall|j: int| 0 <= j < i - 1 implies (#[trigger] s.drop_first()[j]).0 != p.0 by {
            assert(s.drop_first()[j] == s[j + 1]);
        }
        assert(s.drop_first()[i - 1] == s[i]);
        lemma_lookup_update(s.drop_first(), i - 1, p, h);
    }
}

/// Height-indexed persistent mapping from trusted heights to consensus
/// states, plus the current client state record. The handle is owned by
/// the caller; every operation is synchronous and deterministic.
#[derive(Debug)]
#[verifier::ext_equal]
pub struct CommitmentStore {
    pub client_state: Option<ClientState>,
    /// The checksum recorded at instantiation, host bookkeeping carried
    /// along with the client.
    pub checksum: Vec<u8>,
    pub consensus_states: Vec<(Height, ConsensusState)>,
}

impl CommitmentStore {
    /// The store invariant: one record per height.
    pub open spec fn wf(self) -> bool {
        unique_heights(self.consensus_states@)
    }

    /// The consensus state recorded at a height, if any.
    pub open spec fn cs_at(self, h: Height) -> Option<ConsensusStateV> {
        lookup_height(self.consensus_states@, h)
    }

    pub open spec fn has_cs(self, h: Height) -> bool {
        self.cs_at(h) is Some
    }

    pub open spec fn is_frozen(self) -> bool {
        match self.client_state {
            Some(c) => c.is_frozen(),
            None => false,
        }
    }

    /// Checks the store invariant: at most one record per height. A
    /// caller that rebuilt the store from untrusted bytes runs this
    /// before handing it to the engine.
    pub fn check_wf(&self) -> (r: bool)
        ensures
            r == self.wf(),
    {
        let n = self.consensus_states.len();
        let ghost s = self.consensus_states@;
        let mut i: usize = 0;
        while i < n
            invariant
                i <= n,
                n == s.len(),
                s == self.consensus_states@,
                forall|a: int, b: int|
                    #![trigger s[a], s[b]]
                    0 <= a < b < n && a < i ==> s[a].0 != s[b].0,
            decreases n - i,
        {
            let mut j: usize = i + 1;
            while j < n
                invariant
                    i < j <= n,
                    n == s.len(),
                    s == self.consensus_states@,
                    forall|b: int| i < b < j ==> s[i as int].0 != (#[trigger] s[b]).0,
                decreases n - j,
            {
                if self.consensus_states[i].0 == self.consensus_states[j].0 {
                    return false;
                }
                j += 1;
            }
            i += 1;
        }
        true
    }

    /// Whether the client is frozen.
    pub fn is_frozen_exec(&self) -> (r: bool)
        ensures
            r == self.is_frozen(),
    {
        match &self.client_state {
            Some(c) => c.frozen_height.is_some(),
            None => false,
        }
    }

    /// An empty store: no client, no trusted heights.
    pub fn new() -> (s: CommitmentStore)
        ensures
            s.client_state is None,
            s.checksum@ == Seq::<u8>::empty(),
            s.consensus_states@ == Seq::<(Height, ConsensusState)>::empty(),
            s.wf(),
            forall|h: Height| s.cs_at(h) is None,
    {
        CommitmentStore { client_state: None, checksum: Vec::new(), consensus_states: Vec::new() }
    }

    /// Reads the singleton client state.
    pub fn get_client_state(&self) -> (r: Result<ClientState, ContractError>)
        ensures
            match r {
                Ok(c) => self.client_state == Some(c),
                Err(e) => e == ContractError::NotFound && self.client_state is None,
            },
    {
        match self.client_state {
            Some(c) => Ok(c),
            None => Err(ContractError::NotFound),
        }
    }

    /// Replaces the singleton client state.
    pub fn put_client_state(&mut self, c: ClientState)
        ensures
            final(self).client_state == Some(c),
            final(self).checksum == old(self).checksum,
            final(self).consensus_states == old(self).consensus_states,
    {
        self.client_state = Some(c);
    }

    fn find_index(&self, h: &Height) -> (r: Option<usize>)
        ensures
            match r {
                Some(i) => i < self.consensus_states@.len() && self.consensus_states@[i as int].0
                    == *h && forall|j: int|
                    0 <= j < i ==> (#[trigger] self.consensus_states@[j]).0 != *h,
                None => forall|j: int|
                    0 <= j < self.consensus_states@.len() ==> (#[trigger] self.consensus_states@[j]).0
                        != *h,
            },
    {
        let mut i: usize = 0;
        while i < self.consensus_states.len()
            invariant
                i <= self.consensus_states@.len(),
                forall|j: int| 0 <= j < i ==> (#[trigger] self.consensus_states@[j]).0 != *h,
            decreases self.consensus_states@.len() - i,
        {
            if self.consensus_states[i].0 == *h {
                return Some(i);
            }
            i += 1;
        }
        None
    }

    /// Reads the consensus state at a height; `NotFound` if the height was
    /// never admitted.
    pub fn get_consensus_state(&self, h: &Height) -> (r: Result<&ConsensusState, ContractError>)
        ensures
            match r {
                Ok(cs) => self.cs_at(*h) == Some(cs@),
                Err(e) => e == ContractError::NotFound && self.cs_at(*h) is None,
            },
    {
        match self.find_index(h) {
            Some(i) => {
                proof {
                    lemma_lookup_at_index(self.consensus_states@, i as int);
                }
                Ok(&self.consensus_states[i].1)
            },
            None => {
                proof {
                    lemma_lookup_none(self.consensus_states@, *h);
                }
                Err(ContractError::NotFound)
            },
        }
    }

    /// Writes the consensus state for a height. Writing the value already
    /// stored is a no-op; a different value at an existing height is
    /// refused with `AlreadyExists` — conflicting claims must go through
    /// the admission engine, never a blind overwrite.
    pub fn put_consensus_state(&mut self, h: Height, cs: ConsensusState) -> (r: Result<
        (),
        ContractError,
    >)
        requires
            old(self).wf(),
        ensures
            final(self).wf(),
            final(self).client_state == old(self).client_state,
            final(self).checksum == old(self).checksum,
            match old(self).cs_at(h) {
                None => r == Ok::<(), ContractError>(()) && final(self).cs_at(h) == Some(cs@)
                    && final(self).consensus_states@ == old(self).consensus_states@.push((h, cs)),
                Some(v) => *final(self) == *old(self) && r == if v == cs@ {
                    Ok::<(), ContractError>(())
                } else {
                    Err(ContractError::AlreadyExists)
                },
            },
            forall|x: Height|
                x != h ==> #[trigger] final(self).cs_at(x) == old(self).cs_at(x),
    {
        let ghost s0 = self.consensus_states@;
        match self.find_index(&h) {
            Some(i) => {
                proof {
                    lemma_lookup_at_index(s0, i as int);
                }
                if consensus_state_eq(&self.consensus_states[i].1, &cs) {
                    Ok(())
                } else {
                    Err(ContractError::AlreadyExists)
                }
            },
            None => {
                proof {
                    lemma_lookup_none(s0, h);
                }
                self.consensus_states.push((h, cs));
                proof {
                    assert forall|i: int, j: int|
                        #![trigger self.consensus_states@[i], self.consensus_states@[j]]
                        0 <= i < j < self.consensus_states@.len() implies self.consensus_states@[i].0
                        != self.consensus_states@[j].0 by {
                        if j < s0.len() {
                            assert(self.consensus_states@[i] == s0[i]);
                            assert(self.consensus_states@[j] == s0[j]);
                        } else {
                            assert(self.consensus_states@[i] == s0[i]);
                            assert(self.consensus_states@[j] == (h, cs));
                        }
                    }
                    lemma_lookup_push(s0, (h, cs), h);
                    assert forall|x: Height|
                        x != h implies #[trigger] self.cs_at(x) == lookup_height(s0, x) by {
                        lemma_lookup_push(s0, (h, cs), x);
                    }
                }
                Ok(())
            },
        }
    }

    /// Writes the consensus state for a height unconditionally, replacing
    /// any previous record there and touching no other height. Only the
    /// trust-establishing bootstrap writes this way; everything else goes
    /// through `put_consensus_state`.
    pub fn set_consensus_state(&mut self, h: Height, cs: ConsensusState)
        requires
            old(self).wf(),
        ensures
            final(self).wf(),
            final(self).client_state == old(self).client_state,
            final(self).checksum == old(self).checksum,
            final(self).cs_at(h) == Some(cs@),
            forall|x: Height|
                x != h ==> #[trigger] final(self).cs_at(x) == old(self).cs_at(x),
    {
        let ghost s0 = self.consensus_states@;
        match self.find_index(&h) {
            Some(i) => {
                self.consensus_states[i] = (h, cs);
                proof {
                    assert(self.consensus_states@ == s0.update(i as int, (h, cs)));
                    assert forall|a: int, b: int|
                        #![trigger self.consensus_states@[a], self.consensus_states@[b]]
                        0 <= a < b < self.consensus_states@.len() implies self.consensus_states@[a].0
                        != self.consensus_states@[b].0 by {
                        assert(self.consensus_states@[a].0 == s0[a].0);
                        assert(self.consensus_states@[b].0 == s0[b].0);
                    }
                    assert forall|x: Height| #[trigger] self.cs_at(x) == (if x == h {
                        Some(cs@)
                    } else {
                        lookup_height(s0, x)
                    }) by {
                        lemma_lookup_update(s0, i as int, (h, cs), x);
                    }
                }
            },
            None => {
                proof {
                    lemma_lookup_none(s0, h);
                }
                self.consensus_states.push((h, cs));
                proof {
                    assert forall|i: int, j: int|
                        #![trigger self.consensus_states@[i], self.consensus_states@[j]]
                        0 <= i < j < self.consensus_states@.len() implies self.consensus_states@[i].0
                        != self.consensus_states@[j].0 by {
                        if j < s0.len() {
                            assert(self.consensus_states@[i] == s0[i]);
                            assert(self.consensus_states@[j] == s0[j]);
                        } else {
                            assert(self.consensus_states@[i] == s0[i]);
                            assert(self.consensus_states@[j] == (h, cs));
                        }
                    }
                    lemma_lookup_push(s0, (h, cs), h);
                    assert forall|x: Height|
                        x != h implies #[trigger] self.cs_at(x) == lookup_height(s0, x) by {
                        lemma_lookup_push(s0, (h, cs), x);
                    }
                }
            },
        }
    }
}

} // verus!

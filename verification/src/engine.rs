//! The header admission engine and the misbehaviour / freeze controller.
//!
//! `update_client` decides, for a claimed new header: accept it as a new
//! trusted height (extending the chain of trust from the nearest prior
//! trusted state), accept it as a no-op re-submission, reject it as
//! stale or invalid, or flag it as conclusive misbehaviour and freeze the
//! client. `check_misbehaviour` validates two-header evidence without
//! mutating anything; `update_on_misbehaviour` freezes on valid evidence.

use crate::errors::ContractError;
use crate::header::{consensus_of, ConsensusVerifier, Header, HeaderV};
use crate::height::{height_lt, height_lte, lemma_height_order_total, min_height, Height};
use crate::proofs::bytes_eq;
use crate::state::{
    advance_client, freeze_client, lemma_lookup_at_index, lemma_lookup_some_index, ClientState,
    CommitmentStore, ConsensusState,
};
use vstd::prelude::*;

verus! {

/// `a` is the nearest trusted height strictly below `h`: it is stored,
/// prior to `h`, and no stored height prior to `h` lies beyond it.
pub open spec fn is_prior_anchor(s: CommitmentStore, h: Height, a: Height) -> bool {
    s.has_cs(a) && height_lt(a, h) && forall|x: Height|
        #[trigger] s.has_cs(x) && height_lt(x, h) ==> height_lte(x, a)
}

pub open spec fn has_prior_anchor(s: CommitmentStore, h: Height) -> bool {
    exists|a: Height| is_prior_anchor(s, h, a)
}

/// The nearest prior trusted height, where one exists.
pub open spec fn anchor_of(s: CommitmentStore, h: Height) -> Height {
    choose|a: Height| is_prior_anchor(s, h, a)
}

/// At most one height answers the anchor description.
pub proof fn lemma_anchor_unique(s: CommitmentStore, h: Height, a1: Height, a2: Height)
    requires
        is_prior_anchor(s, h, a1),
        is_prior_anchor(s, h, a2),
    ensures
        a1 == a2,
{
    lemma_height_order_total(a1, a2, a1);
}

/// Finds the index of the nearest prior trusted height below `h`.
fn find_anchor(store: &CommitmentStore, h: &Height) -> (r: Option<usize>)
    requires
        store.wf(),
    ensures
        match r {
            Some(i) => {
                let a = store.consensus_states@[i as int].0;
                i < store.consensus_states@.len() && is_prior_anchor(*store, *h, a)
                    && store.cs_at(a) == Some(store.consensus_states@[i as int].1@)
            },
            None => !has_prior_anchor(*store, *h),
        },
{
    let ghost s = store.consensus_states@;
    let n = store.consensus_states.len();
    let mut best: Option<usize> = None;
    let mut i: usize = 0;
    while i < n
        invariant
            i <= n,
            n == s.len(),
            s == store.consensus_states@,
            match best {
                None => forall|j: int| 0 <= j < i ==> !height_lt((#[trigger] s[j]).0, *h),
                Some(b) => b < i && height_lt(s[b as int].0, *h) && forall|j: int|
                    0 <= j < i && height_lt((#[trigger] s[j]).0, *h) ==> height_lte(
                        s[j].0,
                        s[b as int].0,
                    ),
            },
        decreases n - i,
    {
        let cur = store.consensus_states[i].0;
        if cur.lt(h) {
            match best {
                None => {
                    best = Some(i);
                },
                Some(b) => {
                    let hb = store.consensus_states[b].0;
                    if hb.lt(&cur) {
                        best = Some(i);
                    }
                },
            }
            proof {
                assert forall|j: int| 0 <= j < i + 1 && height_lt((#[trigger] s[j]).0, *h)
                    implies height_lte(s[j].0, s[best.unwrap() as int].0) by {
                    lemma_height_order_total(s[j].0, s[best.unwrap() as int].0, *h);
                }
            }
        }
        i += 1;
    }
    match best {
        Some(b) => {
            let ghost a = s[b as int].0;
            proof {
                assert forall|j: int| 0 <= j < b implies (#[trigger] s[j]).0 != a by {}
                lemma_lookup_at_index(s, b as int);
                assert forall|x: Height| #[trigger] store.has_cs(x) && height_lt(x, *h)
                    implies height_lte(x, a) by {
                    lemma_lookup_some_index(s, x);
                    let i0 = choose|i0: int| 0 <= i0 < s.len() && (#[trigger] s[i0]).0 == x;
                    assert(height_lte(s[i0].0, a));
                }
            }
            Some(b)
        },
        None => {
            proof {
                if has_prior_anchor(*store, *h) {
                    let a = anchor_of(*store, *h);
                    lemma_lookup_some_index(s, a);
                    let i0 = choose|i0: int| 0 <= i0 < s.len() && (#[trigger] s[i0]).0 == a;
                    assert(!height_lt(s[i0].0, *h));
                }
            }
            None
        },
    }
}

/// What the admission state machine decides for a header.
#[derive(Clone, Copy, Debug)]
pub enum UpdateDecision {
    /// The client was never instantiated.
    MissingClient,
    /// The client is frozen; nothing is verified.
    Frozen,
    /// The header is already admitted with the same consensus state.
    NoOp,
    /// A different consensus state is already stored at the header's
    /// height: conclusive misbehaviour.
    Conflict,
    /// No trusted height lies strictly below the header's height.
    NoAnchor,
    /// The reference trusted state is older than the trusting period.
    Expired,
    /// The header runs too far ahead of the host clock, or the consensus
    /// rule rejects it.
    Invalid,
    /// The header extends trusted history.
    Admit,
}

/// The admission decision for a header against a store, as of host time
/// `now` (seconds).
pub open spec fn update_decision<V: ConsensusVerifier>(
    v: V,
    s: CommitmentStore,
    h: HeaderV,
    now: u64,
) -> UpdateDecision {
    match s.client_state {
        None => UpdateDecision::MissingClient,
        Some(c) => if c.is_frozen() {
            UpdateDecision::Frozen
        } else {
            match s.cs_at(h.height) {
                Some(existing) => if existing == consensus_of(h) {
                    UpdateDecision::NoOp
                } else {
                    UpdateDecision::Conflict
                },
                None => if !has_prior_anchor(s, h.height) {
                    UpdateDecision::NoAnchor
                } else {
                    match s.cs_at(anchor_of(s, h.height)) {
                        Some(t) => if now > t.timestamp + c.trusting_period {
                            UpdateDecision::Expired
                        } else if h.timestamp > now + c.max_clock_drift {
                            UpdateDecision::Invalid
                        } else if !v.spec_valid(t, h) {
                            UpdateDecision::Invalid
                        } else {
                            UpdateDecision::Admit
                        },
                        None => UpdateDecision::Invalid,
                    }
                },
            }
        },
    }
}

/// The result `update_client` owes for each decision: the newly written
/// heights on success, the matching error otherwise.
pub open spec fn update_result_of(d: UpdateDecision, h: Height) -> Result<
    Seq<Height>,
    ContractError,
> {
    match d {
        UpdateDecision::MissingClient => Err(ContractError::NotFound),
        UpdateDecision::Frozen => Err(ContractError::ClientFrozen),
        UpdateDecision::NoOp => Ok(Seq::<Height>::empty()),
        UpdateDecision::Conflict => Err(ContractError::MisbehaviourDetected),
        UpdateDecision::NoAnchor => Err(ContractError::InvalidHeader),
        UpdateDecision::Expired => Err(ContractError::Expired),
        UpdateDecision::Invalid => Err(ContractError::InvalidHeader),
        UpdateDecision::Admit => Ok(seq![h]),
    }
}

/// How the store after an update relates to the store before: frozen on
/// conflict, extended on admission, untouched otherwise.
pub open spec fn update_store_rel<V: ConsensusVerifier>(
    v: V,
    pre: CommitmentStore,
    post: CommitmentStore,
    h: HeaderV,
    now: u64,
) -> bool {
    let d = update_decision(v, pre, h, now);
    if d is Conflict {
        match pre.client_state {
            Some(c) => post.client_state == Some(freeze_client(c, h.height))
                && post.consensus_states == pre.consensus_states && post.checksum == pre.checksum,
            None => false,
        }
    } else if d is Admit {
        match pre.client_state {
            Some(c) => post.client_state == Some(advance_client(c, h.height)) && post.checksum
                == pre.checksum && post.cs_at(h.height) == Some(consensus_of(h)) && (forall|
                x: Height,
            |
                x != h.height ==> #[trigger] post.cs_at(x) == pre.cs_at(x)),
            None => false,
        }
    } else {
        post == pre
    }
}

/// Admits, ignores, rejects or flags a claimed new header. The exact
/// decision, result and store change are fixed by `update_decision`,
/// `update_result_of` and `update_store_rel`; on top of that, the latest
/// trusted height never decreases, a stored consensus state is never
/// replaced, and a frozen client absorbs every call unchanged.
pub fn update_client<V: ConsensusVerifier>(
    store: &mut CommitmentStore,
    verifier: &V,
    now: u64,
    header: Header,
) -> (r: Result<Vec<Height>, ContractError>)
    requires
        old(store).wf(),
    ensures
        final(store).wf(),
        update_store_rel(*verifier, *old(store), *final(store), header@, now),
        (match r {
            Ok(hs) => Ok::<Seq<Height>, ContractError>(hs@),
            Err(e) => Err(e),
        }) == update_result_of(
            update_decision(*verifier, *old(store), header@, now),
            header.height,
        ),
        forall|x: Height|
            old(store).cs_at(x) is Some ==> #[trigger] final(store).cs_at(x) == old(store).cs_at(x),
        match (old(store).client_state, final(store).client_state) {
            (Some(c0), Some(c1)) => height_lte(c0.latest_height, c1.latest_height),
            (None, None) => true,
            (None, Some(_)) => false,
            (Some(_), None) => false,
        },
        old(store).is_frozen() ==> r == Err::<Vec<Height>, ContractError>(
            ContractError::ClientFrozen,
        ) && *final(store) == *old(store),
{
    let ghost pre = *store;
    let c = match store.get_client_state() {
        Ok(c) => c,
        Err(_) => {
            return Err(ContractError::NotFound);
        },
    };
    if c.frozen_height.is_some() {
        return Err(ContractError::ClientFrozen);
    }
    match store.get_consensus_state(&header.height) {
        Ok(existing) => {
            let same = bytes_eq(&existing.root, &header.root) && existing.timestamp
                == header.timestamp && bytes_eq(
                &existing.next_validators_hash,
                &header.next_validators_hash,
            );
            proof {
                if same {
                    assert(existing@ =~= consensus_of(header@));
                }
            }
            if same {
                let hs: Vec<Height> = Vec::new();
                proof {
                    assert(hs@ =~= Seq::<Height>::empty());
                }
                Ok(hs)
            } else {
                let frozen = ClientState {
                    chain_id: c.chain_id,
                    trusting_period: c.trusting_period,
                    max_clock_drift: c.max_clock_drift,
                    latest_height: c.latest_height,
                    frozen_height: Some(header.height),
                };
                store.put_client_state(frozen);
                Err(ContractError::MisbehaviourDetected)
            }
        },
        Err(_) => {
            match find_anchor(store, &header.height) {
                None => Err(ContractError::InvalidHeader),
                Some(i) => {
                    let ghost a = store.consensus_states@[i as int].0;
                    proof {
                        lemma_anchor_unique(pre, header.height, anchor_of(pre, header.height), a);
                    }
                    let trusted = &store.consensus_states[i].1;
                    let expired = now > trusted.timestamp && now - trusted.timestamp
                        > c.trusting_period;
                    let drift = header.timestamp > now && header.timestamp - now
                        > c.max_clock_drift;
                    let valid = verifier.validate_header(trusted, &header);
                    if expired {
                        return Err(ContractError::Expired);
                    }
                    if drift {
                        return Err(ContractError::InvalidHeader);
                    }
                    if !valid {
                        return Err(ContractError::InvalidHeader);
                    }
                    let h = header.height;
                    let cs_new = ConsensusState {
                        root: header.root,
                        timestamp: header.timestamp,
                        next_validators_hash: header.next_validators_hash,
                    };
                    proof {
                        assert(cs_new@ =~= consensus_of(header@));
                    }
                    let _ = store.put_consensus_state(h, cs_new);
                    let ghost s1 = *store;
                    let advanced = ClientState {
                        chain_id: c.chain_id,
                        trusting_period: c.trusting_period,
                        max_clock_drift: c.max_clock_drift,
                        latest_height: if c.latest_height.lt(&h) {
                            h
                        } else {
                            c.latest_height
                        },
                        frozen_height: c.frozen_height,
                    };
                    store.put_client_state(advanced);
                    let mut hs: Vec<Height> = Vec::new();
                    hs.push(h);
                    proof {
                        assert(hs@ =~= seq![h]);
                        assert(advanced == advance_client(c, h));
                        assert(store.consensus_states == s1.consensus_states);
                        assert(store.cs_at(h) == s1.cs_at(h));
                        assert(store.cs_at(h) == Some(consensus_of(header@)));
                        assert forall|x: Height| x != h implies #[trigger] store.cs_at(x)
                            == pre.cs_at(x) by {
                            assert(s1.cs_at(x) == pre.cs_at(x));
                            assert(store.cs_at(x) == s1.cs_at(x));
                        }
                        assert forall|x: Height| pre.cs_at(x) is Some implies #[trigger] store.cs_at(
                            x,
                        ) == pre.cs_at(x) by {
                            if x == h {
                                assert(pre.cs_at(h) is None);
                            }
                        }
                    }
                    Ok(hs)
                },
            }
        },
    }
}

/// Computes the admission decision for a header without touching the
/// store: what `update_client` would do, as a read-only query.
pub fn classify_header<V: ConsensusVerifier>(
    store: &CommitmentStore,
    verifier: &V,
    now: u64,
    header: &Header,
) -> (d: UpdateDecision)
    requires
        store.wf(),
    ensures
        d == update_decision(*verifier, *store, header@, now),
{
    let c = match store.get_client_state() {
        Ok(c) => c,
        Err(_) => {
            return UpdateDecision::MissingClient;
        },
    };
    if c.frozen_height.is_some() {
        return UpdateDecision::Frozen;
    }
    match store.get_consensus_state(&header.height) {
        Ok(existing) => {
            let same = bytes_eq(&existing.root, &header.root) && existing.timestamp
                == header.timestamp && bytes_eq(
                &existing.next_validators_hash,
                &header.next_validators_hash,
            );
            proof {
                if same {
                    assert(existing@ =~= consensus_of(header@));
                }
            }
            if same {
                UpdateDecision::NoOp
            } else {
                UpdateDecision::Conflict
            }
        },
        Err(_) => {
            match find_anchor(store, &header.height) {
                None => UpdateDecision::NoAnchor,
                Some(i) => {
                    let ghost a = store.consensus_states@[i as int].0;
                    proof {
                        lemma_anchor_unique(*store, header.height, anchor_of(*store, header.height), a);
                    }
                    let trusted = &store.consensus_states[i].1;
                    if now > trusted.timestamp && now - trusted.timestamp > c.trusting_period {
                        UpdateDecision::Expired
                    } else if header.timestamp > now && header.timestamp - now
                        > c.max_clock_drift {
                        UpdateDecision::Invalid
                    } else if !verifier.validate_header(trusted, header) {
                        UpdateDecision::Invalid
                    } else {
                        UpdateDecision::Admit
                    }
                },
            }
        },
    }
}

/// Two-header misbehaviour evidence: either two different consensus
/// claims for one height, or two timestamps that cannot both follow the
/// chain's time order.
#[derive(Debug)]
pub struct Misbehaviour {
    pub header_1: Header,
    pub header_2: Header,
}

/// The two headers make irreconcilable claims.
pub open spec fn conflicting(h1: HeaderV, h2: HeaderV) -> bool {
    (h1.height == h2.height && consensus_of(h1) != consensus_of(h2)) || (height_lt(
        h1.height,
        h2.height,
    ) && h2.timestamp <= h1.timestamp) || (height_lt(h2.height, h1.height) && h1.timestamp
        <= h2.timestamp)
}

/// The consensus rule vouches for the header against its nearest prior
/// trusted state, within the trusting period and the allowed clock drift.
pub open spec fn header_supported<V: ConsensusVerifier>(
    v: V,
    s: CommitmentStore,
    c: ClientState,
    h: HeaderV,
    now: u64,
) -> bool {
    has_prior_anchor(s, h.height) && match s.cs_at(anchor_of(s, h.height)) {
        Some(t) => !(now > t.timestamp + c.trusting_period) && !(h.timestamp > now
            + c.max_clock_drift) && v.spec_valid(t, h),
        None => false,
    }
}

/// Evidence counts as found misbehaviour when both headers independently
/// pass the consensus check yet conflict. Freezing does not hide it:
/// the answer is the same before and after a freeze.
pub open spec fn misbehaviour_found<V: ConsensusVerifier>(
    v: V,
    s: CommitmentStore,
    h1: HeaderV,
    h2: HeaderV,
    now: u64,
) -> bool {
    match s.client_state {
        Some(c) => header_supported(v, s, c, h1, now) && header_supported(v, s, c, h2, now)
            && conflicting(h1, h2),
        None => false,
    }
}

/// Law: freezing the client changes nothing about how evidence is
/// judged. The same two headers are found to misbehave before and after
/// the freeze, so reporting misbehaviour is idempotent: a second call
/// with the same evidence still answers found and has nothing left to
/// change.
pub proof fn lemma_misbehaviour_found_stable_under_freeze<V: ConsensusVerifier>(
    v: V,
    pre: CommitmentStore,
    post: CommitmentStore,
    c: ClientState,
    at: Height,
    h1: HeaderV,
    h2: HeaderV,
    now: u64,
)
    requires
        pre.client_state == Some(c),
        post.client_state == Some(freeze_client(c, at)),
        post.consensus_states == pre.consensus_states,
    ensures
        misbehaviour_found(v, post, h1, h2, now) == misbehaviour_found(v, pre, h1, h2, now),
{
    lemma_header_supported_stable(v, pre, post, c, freeze_client(c, at), h1, now);
    lemma_header_supported_stable(v, pre, post, c, freeze_client(c, at), h2, now);
}

/// Support for a header depends only on the stored consensus states and
/// the client's validation parameters, not on the freeze flag or the
/// latest height.
proof fn lemma_header_supported_stable<V: ConsensusVerifier>(
    v: V,
    pre: CommitmentStore,
    post: CommitmentStore,
    c1: ClientState,
    c2: ClientState,
    h: HeaderV,
    now: u64,
)
    requires
        post.consensus_states == pre.consensus_states,
        c1.trusting_period == c2.trusting_period,
        c1.max_clock_drift == c2.max_clock_drift,
    ensures
        header_supported(v, post, c2, h, now) == header_supported(v, pre, c1, h, now),
{
    assert forall|x: Height| #[trigger] post.cs_at(x) == pre.cs_at(x) by {}
    assert forall|a: Height| #[trigger] is_prior_anchor(post, h.height, a) == is_prior_anchor(
        pre,
        h.height,
        a,
    ) by {
        if is_prior_anchor(pre, h.height, a) {
            assert forall|x: Height| #[trigger] post.has_cs(x) && height_lt(x, h.height)
                implies height_lte(x, a) by {
                assert(pre.has_cs(x));
            }
        }
        if is_prior_anchor(post, h.height, a) {
            assert forall|x: Height| #[trigger] pre.has_cs(x) && height_lt(x, h.height)
                implies height_lte(x, a) by {
                assert(post.has_cs(x));
            }
        }
    }
    if has_prior_anchor(pre, h.height) {
        let a0 = anchor_of(pre, h.height);
        assert(is_prior_anchor(pre, h.height, a0));
        assert(is_prior_anchor(post, h.height, a0));
        assert(has_prior_anchor(post, h.height));
        lemma_anchor_unique(pre, h.height, anchor_of(pre, h.height), anchor_of(post, h.height));
    } else if has_prior_anchor(post, h.height) {
        assert(is_prior_anchor(pre, h.height, anchor_of(post, h.height)));
    }
}

fn conflicting_exec(h1: &Header, h2: &Header) -> (r: bool)
    ensures
        r == conflicting(h1@, h2@),
{
    proof {
        lemma_height_order_total(h1.height, h2.height, h1.height);
    }
    if h1.height == h2.height {
        let same = bytes_eq(&h1.root, &h2.root) && h1.timestamp == h2.timestamp && bytes_eq(
            &h1.next_validators_hash,
            &h2.next_validators_hash,
        );
        proof {
            if same {
                assert(consensus_of(h1@) =~= consensus_of(h2@));
            }
        }
        !same
    } else if h1.height.lt(&h2.height) {
        h2.timestamp <= h1.timestamp
    } else {
        h1.timestamp <= h2.timestamp
    }
}

pub(crate) fn header_supported_exec<V: ConsensusVerifier>(
    store: &CommitmentStore,
    c: &ClientState,
    verifier: &V,
    h: &Header,
    now: u64,
) -> (r: bool)
    requires
        store.wf(),
    ensures
        r == header_supported(*verifier, *store, *c, h@, now),
{
    match find_anchor(store, &h.height) {
        None => false,
        Some(i) => {
            let ghost a = store.consensus_states@[i as int].0;
            proof {
                lemma_anchor_unique(*store, h.height, anchor_of(*store, h.height), a);
            }
            let trusted = &store.consensus_states[i].1;
            let expired = now > trusted.timestamp && now - trusted.timestamp > c.trusting_period;
            let drift = h.timestamp > now && h.timestamp - now > c.max_clock_drift;
            !expired && !drift && verifier.validate_header(trusted, h)
        },
    }
}

/// Validates two-header evidence; read-only, mutates nothing.
pub fn check_misbehaviour<V: ConsensusVerifier>(
    store: &CommitmentStore,
    verifier: &V,
    now: u64,
    m: &Misbehaviour,
) -> (r: bool)
    requires
        store.wf(),
    ensures
        r == misbehaviour_found(*verifier, *store, m.header_1@, m.header_2@, now),
{
    let c = match store.get_client_state() {
        Ok(c) => c,
        Err(_) => {
            return false;
        },
    };
    header_supported_exec(store, &c, verifier, &m.header_1, now) && header_supported_exec(
        store,
        &c,
        verifier,
        &m.header_2,
        now,
    ) && conflicting_exec(&m.header_1, &m.header_2)
}

/// Freezes the client on validated evidence and reports whether
/// misbehaviour was found. Idempotent: with the client already frozen the
/// same evidence still reports found and nothing changes further.
pub fn update_on_misbehaviour<V: ConsensusVerifier>(
    store: &mut CommitmentStore,
    verifier: &V,
    now: u64,
    m: &Misbehaviour,
) -> (r: Result<bool, ContractError>)
    requires
        old(store).wf(),
    ensures
        final(store).wf(),
        final(store).consensus_states == old(store).consensus_states,
        final(store).checksum == old(store).checksum,
        match old(store).client_state {
            None => r == Err::<bool, ContractError>(ContractError::NotFound) && *final(store)
                == *old(store),
            Some(c) => {
                let found = misbehaviour_found(
                    *verifier,
                    *old(store),
                    m.header_1@,
                    m.header_2@,
                    now,
                );
                r == Ok::<bool, ContractError>(found) && final(store).client_state == Some(
                    if found && !c.is_frozen() {
                        freeze_client(c, min_height(m.header_1.height, m.header_2.height))
                    } else {
                        c
                    },
                )
            },
        },
{
    let c = match store.get_client_state() {
        Ok(c) => c,
        Err(_) => {
            return Err(ContractError::NotFound);
        },
    };
    let found = check_misbehaviour(&*store, verifier, now, m);
    if found && c.frozen_height.is_none() {
        let at = if m.header_2.height.lt(&m.header_1.height) {
            m.header_2.height
        } else {
            m.header_1.height
        };
        let frozen = ClientState {
            chain_id: c.chain_id,
            trusting_period: c.trusting_period,
            max_clock_drift: c.max_clock_drift,
            latest_height: c.latest_height,
            frozen_height: Some(at),
        };
        store.put_client_state(frozen);
    }
    Ok(found)
}

} // verus!

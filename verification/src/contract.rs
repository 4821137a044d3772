//! The entry-point dispatcher: routes instantiation, the host-privileged
//! sudo operations and the read-only queries to the commitment store, the
//! proof verifier and the header admission engine.

use crate::engine::{
    check_misbehaviour, classify_header, header_supported, header_supported_exec,
    misbehaviour_found, update_client, update_decision, update_on_misbehaviour, update_result_of,
    update_store_rel, Misbehaviour, UpdateDecision,
};
use crate::errors::ContractError;
use crate::header::{consensus_of, ConsensusVerifier, Header};
use crate::height::{height_lte, min_height, Height};
use crate::proofs::{
    bytes_view, check_membership, check_non_membership, entries_view, le8, membership_holds,
    non_membership_holds, path_key, path_to_key, MembershipProof, MerklePath,
};
use crate::state::{
    freeze_client, ClientState, CommitmentStore, ConsensusState, ConsensusStateV,
};
use vstd::bytes::u64_to_le_bytes;
use vstd::prelude::*;

verus! {

/// The height written at instantiation: the genesis trust anchor.
pub open spec fn genesis_height() -> Height {
    Height { revision_number: 0, revision_height: 1 }
}

/// The genesis client state: the supplied parameters, anchored at the
/// genesis height and not frozen.
pub open spec fn genesis_client(c: ClientState) -> ClientState {
    ClientState {
        chain_id: c.chain_id,
        trusting_period: c.trusting_period,
        max_clock_drift: c.max_clock_drift,
        latest_height: genesis_height(),
        frozen_height: None,
    }
}

/// The client state after a chain-id-changing upgrade: only the chain id
/// moves; heights, freeze flag and parameters are preserved.
pub open spec fn upgraded_client(c: ClientState, new_chain_id: u64) -> ClientState {
    ClientState {
        chain_id: new_chain_id,
        trusting_period: c.trusting_period,
        max_clock_drift: c.max_clock_drift,
        latest_height: c.latest_height,
        frozen_height: c.frozen_height,
    }
}

pub struct InstantiateMsg {
    pub client_state: ClientState,
    pub consensus_state: ConsensusState,
    pub checksum: Vec<u8>,
}

pub struct VerifyMembershipMsg {
    pub height: Height,
    pub delay_time_period: u64,
    pub delay_block_period: u64,
    pub proof: MembershipProof,
    pub merkle_path: MerklePath,
    pub value: Vec<u8>,
}

pub struct VerifyNonMembershipMsg {
    pub height: Height,
    pub delay_time_period: u64,
    pub delay_block_period: u64,
    pub proof: MembershipProof,
    pub merkle_path: MerklePath,
}

pub struct UpdateStateMsg {
    pub client_message: Header,
}

pub struct UpdateStateOnMisbehaviourMsg {
    pub client_message: Misbehaviour,
}

pub struct VerifyUpgradeAndUpdateStateMsg {
    pub new_chain_id: u64,
}

pub struct MigrateClientStoreMsg {}

pub enum SudoMsg {
    VerifyMembership(VerifyMembershipMsg),
    VerifyNonMembership(VerifyNonMembershipMsg),
    UpdateState(UpdateStateMsg),
    UpdateStateOnMisbehaviour(UpdateStateOnMisbehaviourMsg),
    VerifyUpgradeAndUpdateState(VerifyUpgradeAndUpdateStateMsg),
    MigrateClientStore(MigrateClientStoreMsg),
}

/// A client message handed to the verification queries: a single header,
/// or two-header misbehaviour evidence.
pub enum ClientMessage {
    Header(Header),
    Misbehaviour(Misbehaviour),
}

pub struct VerifyClientMessageMsg {
    pub client_message: ClientMessage,
}

pub struct CheckForMisbehaviourMsg {
    pub client_message: ClientMessage,
}

pub struct TimestampAtHeightMsg {
    pub height: Height,
}

pub struct StatusMsg {}

pub struct ExportMetadataMsg {}

pub enum QueryMsg {
    VerifyClientMessage(VerifyClientMessageMsg),
    CheckForMisbehaviour(CheckForMisbehaviourMsg),
    TimestampAtHeight(TimestampAtHeightMsg),
    Status(StatusMsg),
    ExportMetadata(ExportMetadataMsg),
}

/// The host-facing execute surface defines no operations: every
/// state-changing operation is host-privileged and arrives through
/// `sudo`. The message type is uninhabited, so no execute call exists.
pub enum ExecuteMsg {
    Unsupported(core::convert::Infallible),
}

#[derive(Debug)]
pub struct UpdateStateResult {
    pub heights: Vec<Height>,
}

#[derive(Debug)]
pub struct CheckForMisbehaviourResult {
    pub found_misbehaviour: bool,
}

#[derive(Debug)]
pub struct TimestampAtHeightResult {
    pub timestamp: u64,
}

#[derive(Debug)]
pub struct StatusResult {
    pub status: String,
}

#[derive(Debug)]
pub struct ExportMetadataResult {
    pub genesis_metadata: Vec<(Vec<u8>, Vec<u8>)>,
}

#[derive(Debug)]
pub enum SudoResult {
    Empty,
    UpdateState(UpdateStateResult),
    Misbehaviour(CheckForMisbehaviourResult),
}

#[derive(Debug)]
pub enum QueryResult {
    Verified,
    Misbehaviour(CheckForMisbehaviourResult),
    Timestamp(TimestampAtHeightResult),
    Status(StatusResult),
    Metadata(ExportMetadataResult),
}

/// Writes the genesis client state and the genesis consensus state at
/// height `(0, 1)` unconditionally — the trust-establishing bootstrap,
/// not subject to the admission checks. Records stored at any other
/// height are left untouched.
pub fn instantiate(store: &mut CommitmentStore, msg: InstantiateMsg) -> (r: Result<
    (),
    ContractError,
>)
    requires
        old(store).wf(),
    ensures
        r == Ok::<(), ContractError>(()),
        final(store).wf(),
        final(store).client_state == Some(genesis_client(msg.client_state)),
        final(store).checksum == msg.checksum,
        final(store).cs_at(genesis_height()) == Some(msg.consensus_state@),
        forall|h: Height|
            h != genesis_height() ==> #[trigger] final(store).cs_at(h) == old(store).cs_at(h),
{
    let g = Height { revision_number: 0, revision_height: 1 };
    store.client_state = Some(
        ClientState {
            chain_id: msg.client_state.chain_id,
            trusting_period: msg.client_state.trusting_period,
            max_clock_drift: msg.client_state.max_clock_drift,
            latest_height: g,
            frozen_height: None,
        },
    );
    store.checksum = msg.checksum;
    store.set_consensus_state(g, msg.consensus_state);
    Ok(())
}

/// The delay-period precondition on membership checks: the claimed height
/// must lie at least the requested time and number of blocks in the past,
/// relative to the host's current time and height.
pub open spec fn delay_elapsed(
    cs: ConsensusStateV,
    h: Height,
    now: u64,
    host_height: u64,
    delay_time: u64,
    delay_blocks: u64,
) -> bool {
    cs.timestamp + delay_time <= now && h.revision_height + delay_blocks <= host_height
}

/// The exact result a membership check owes: frozen clients fail fast,
/// unknown heights are `NotFound`, an unelapsed delay or a proof that
/// does not establish the claimed value is `InvalidProof`.
pub open spec fn membership_result(
    s: CommitmentStore,
    now: u64,
    host_height: u64,
    msg: VerifyMembershipMsg,
) -> Result<(), ContractError> {
    match s.client_state {
        None => Err(ContractError::NotFound),
        Some(c) => if c.is_frozen() {
            Err(ContractError::ClientFrozen)
        } else {
            match s.cs_at(msg.height) {
                None => Err(ContractError::NotFound),
                Some(cs) => if !delay_elapsed(
                    cs,
                    msg.height,
                    now,
                    host_height,
                    msg.delay_time_period,
                    msg.delay_block_period,
                ) {
                    Err(ContractError::InvalidProof)
                } else if membership_holds(
                    cs.root,
                    entries_view(msg.proof.entries@),
                    path_key(bytes_view(msg.merkle_path.key_path@)),
                    msg.value@,
                ) {
                    Ok(())
                } else {
                    Err(ContractError::InvalidProof)
                },
            }
        },
    }
}

/// As `membership_result`, for a key-absence claim.
pub open spec fn non_membership_result(
    s: CommitmentStore,
    now: u64,
    host_height: u64,
    msg: VerifyNonMembershipMsg,
) -> Result<(), ContractError> {
    match s.client_state {
        None => Err(ContractError::NotFound),
        Some(c) => if c.is_frozen() {
            Err(ContractError::ClientFrozen)
        } else {
            match s.cs_at(msg.height) {
                None => Err(ContractError::NotFound),
                Some(cs) => if !delay_elapsed(
                    cs,
                    msg.height,
                    now,
                    host_height,
                    msg.delay_time_period,
                    msg.delay_block_period,
                ) {
                    Err(ContractError::InvalidProof)
                } else if non_membership_holds(
                    cs.root,
                    entries_view(msg.proof.entries@),
                    path_key(bytes_view(msg.merkle_path.key_path@)),
                ) {
                    Ok(())
                } else {
                    Err(ContractError::InvalidProof)
                },
            }
        },
    }
}

fn delay_elapsed_exec(cs: &ConsensusState, h: &Height, now: u64, host_height: u64, delay_time: u64, delay_blocks: u64) -> (r: bool)
    ensures
        r == delay_elapsed(cs@, *h, now, host_height, delay_time, delay_blocks),
{
    let time_ok = now >= cs.timestamp && now - cs.timestamp >= delay_time;
    let blocks_ok = host_height >= h.revision_height && host_height - h.revision_height
        >= delay_blocks;
    time_ok && blocks_ok
}

/// Checks that the proof establishes `value` at the path's key under the
/// commitment root trusted at `msg.height`. Read-only and pure.
pub fn verify_membership(
    store: &CommitmentStore,
    now: u64,
    host_height: u64,
    msg: &VerifyMembershipMsg,
) -> (r: Result<(), ContractError>)
    ensures
        r == membership_result(*store, now, host_height, *msg),
{
    let c = match store.get_client_state() {
        Ok(c) => c,
        Err(e) => {
            return Err(e);
        },
    };
    if c.frozen_height.is_some() {
        return Err(ContractError::ClientFrozen);
    }
    let cs = match store.get_consensus_state(&msg.height) {
        Ok(cs) => cs,
        Err(e) => {
            return Err(e);
        },
    };
    if !delay_elapsed_exec(cs, &msg.height, now, host_height, msg.delay_time_period, msg.delay_block_period) {
        return Err(ContractError::InvalidProof);
    }
    let key = path_to_key(&msg.merkle_path);
    if check_membership(&cs.root, &msg.proof, &key, &msg.value) {
        Ok(())
    } else {
        Err(ContractError::InvalidProof)
    }
}

/// Checks that the proof establishes the absence of the path's key under
/// the commitment root trusted at `msg.height`. Read-only and pure.
pub fn verify_non_membership(
    store: &CommitmentStore,
    now: u64,
    host_height: u64,
    msg: &VerifyNonMembershipMsg,
) -> (r: Result<(), ContractError>)
    ensures
        r == non_membership_result(*store, now, host_height, *msg),
{
    let c = match store.get_client_state() {
        Ok(c) => c,
        Err(e) => {
            return Err(e);
        },
    };
    if c.frozen_height.is_some() {
        return Err(ContractError::ClientFrozen);
    }
    let cs = match store.get_consensus_state(&msg.height) {
        Ok(cs) => cs,
        Err(e) => {
            return Err(e);
        },
    };
    if !delay_elapsed_exec(cs, &msg.height, now, host_height, msg.delay_time_period, msg.delay_block_period) {
        return Err(ContractError::InvalidProof);
    }
    let key = path_to_key(&msg.merkle_path);
    if check_non_membership(&cs.root, &msg.proof, &key) {
        Ok(())
    } else {
        Err(ContractError::InvalidProof)
    }
}

/// Admits the claimed header, with the exact decision, result and store
/// change of the admission engine; reports the newly written heights.
pub fn update_state<V: ConsensusVerifier>(
    store: &mut CommitmentStore,
    verifier: &V,
    now: u64,
    msg: UpdateStateMsg,
) -> (r: Result<UpdateStateResult, ContractError>)
    requires
        old(store).wf(),
    ensures
        final(store).wf(),
        update_store_rel(*verifier, *old(store), *final(store), msg.client_message@, now),
        (match r {
            Ok(res) => Ok::<Seq<Height>, ContractError>(res.heights@),
            Err(e) => Err(e),
        }) == update_result_of(
            update_decision(*verifier, *old(store), msg.client_message@, now),
            msg.client_message.height,
        ),
        forall|x: Height|
            old(store).cs_at(x) is Some ==> #[trigger] final(store).cs_at(x) == old(store).cs_at(x),
        match (old(store).client_state, final(store).client_state) {
            (Some(c0), Some(c1)) => height_lte(c0.latest_height, c1.latest_height),
            (None, None) => true,
            (None, Some(_)) => false,
            (Some(_), None) => false,
        },
        old(store).is_frozen() ==> r == Err::<UpdateStateResult, ContractError>(
            ContractError::ClientFrozen,
        ) && *final(store) == *old(store),
{
    match update_client(store, verifier, now, msg.client_message) {
        Ok(hs) => Ok(UpdateStateResult { heights: hs }),
        Err(e) => Err(e),
    }
}

/// Dispatches the host-privileged, state-mutating operations. Whatever
/// the operation: the latest trusted height never decreases, no stored
/// consensus state is replaced, and a frozen store stays as it is.
pub fn sudo<V: ConsensusVerifier>(
    store: &mut CommitmentStore,
    verifier: &V,
    now: u64,
    host_height: u64,
    msg: SudoMsg,
) -> (r: Result<SudoResult, ContractError>)
    requires
        old(store).wf(),
    ensures
        final(store).wf(),
        forall|x: Height|
            old(store).cs_at(x) is Some ==> #[trigger] final(store).cs_at(x) == old(store).cs_at(x),
        match (old(store).client_state, final(store).client_state) {
            (Some(c0), Some(c1)) => height_lte(c0.latest_height, c1.latest_height),
            (None, None) => true,
            (None, Some(_)) => false,
            (Some(_), None) => false,
        },
        old(store).is_frozen() ==> *final(store) == *old(store),
        match msg {
            SudoMsg::VerifyMembership(m) => *final(store) == *old(store) && r == (match
                membership_result(*old(store), now, host_height, m) {
                Ok(()) => Ok::<SudoResult, ContractError>(SudoResult::Empty),
                Err(e) => Err(e),
            }),
            SudoMsg::VerifyNonMembership(m) => *final(store) == *old(store) && r == (match
                non_membership_result(*old(store), now, host_height, m) {
                Ok(()) => Ok::<SudoResult, ContractError>(SudoResult::Empty),
                Err(e) => Err(e),
            }),
            SudoMsg::UpdateState(m) => update_store_rel(
                *verifier,
                *old(store),
                *final(store),
                m.client_message@,
                now,
            ) && (r matches Err(_) || r matches Ok(SudoResult::UpdateState(_))) && (match r {
                Ok(SudoResult::UpdateState(res)) => Ok::<Seq<Height>, ContractError>(res.heights@),
                Ok(_) => Err(ContractError::AlreadyExists),
                Err(e) => Err(e),
            }) == update_result_of(
                update_decision(*verifier, *old(store), m.client_message@, now),
                m.client_message.height,
            ),
            SudoMsg::UpdateStateOnMisbehaviour(m) => final(store).consensus_states == old(store).consensus_states && final(store).checksum == old(store).checksum && (match old(store).client_state {
                None => r == Err::<SudoResult, ContractError>(ContractError::NotFound) && final(store).client_state == old(store).client_state,
                Some(c) => {
                    let found = misbehaviour_found(
                        *verifier,
                        *old(store),
                        m.client_message.header_1@,
                        m.client_message.header_2@,
                        now,
                    );
                    r == Ok::<SudoResult, ContractError>(
                        SudoResult::Misbehaviour(
                            (CheckForMisbehaviourResult { found_misbehaviour: found }),
                        ),
                    ) && final(store).client_state == Some(
                        if found && !c.is_frozen() {
                            freeze_client(
                                c,
                                min_height(
                                    m.client_message.header_1.height,
                                    m.client_message.header_2.height,
                                ),
                            )
                        } else {
                            c
                        },
                    )
                },
            }),
            SudoMsg::VerifyUpgradeAndUpdateState(m) => match old(store).client_state {
                None => r == Err::<SudoResult, ContractError>(ContractError::NotFound) && *final(store) == *old(store),
                Some(c) => if c.is_frozen() {
                    r == Err::<SudoResult, ContractError>(ContractError::ClientFrozen) && *final(store) == *old(store)
                } else {
                    r == Ok::<SudoResult, ContractError>(SudoResult::Empty) && final(store).client_state == Some(upgraded_client(c, m.new_chain_id)) && final(store).consensus_states == old(store).consensus_states && final(store).checksum
                        == old(store).checksum
                },
            },
            SudoMsg::MigrateClientStore(_) => *final(store) == *old(store) && r == (match old(store).client_state {
                None => Err::<SudoResult, ContractError>(ContractError::NotFound),
                Some(_) => Ok::<SudoResult, ContractError>(SudoResult::Empty),
            }),
        },
{
    match msg {
        SudoMsg::VerifyMembership(m) => {
            match verify_membership(&*store, now, host_height, &m) {
                Ok(()) => Ok(SudoResult::Empty),
                Err(e) => Err(e),
            }
        },
        SudoMsg::VerifyNonMembership(m) => {
            match verify_non_membership(&*store, now, host_height, &m) {
                Ok(()) => Ok(SudoResult::Empty),
                Err(e) => Err(e),
            }
        },
        SudoMsg::UpdateState(m) => {
            match update_state(store, verifier, now, m) {
                Ok(res) => Ok(SudoResult::UpdateState(res)),
                Err(e) => Err(e),
            }
        },
        SudoMsg::UpdateStateOnMisbehaviour(m) => {
            let ghost pre = *store;
            match update_on_misbehaviour(store, verifier, now, &m.client_message) {
                Ok(found) => {
                    proof {
                        if pre.is_frozen() {
                            assert(*store =~= pre);
                        }
                    }
                    Ok(SudoResult::Misbehaviour(CheckForMisbehaviourResult {
                        found_misbehaviour: found,
                    }))
                },
                Err(e) => Err(e),
            }
        },
        SudoMsg::VerifyUpgradeAndUpdateState(m) => {
            let c = match store.get_client_state() {
                Ok(c) => c,
                Err(e) => {
                    return Err(e);
                },
            };
            if c.frozen_height.is_some() {
                return Err(ContractError::ClientFrozen);
            }
            let upgraded = ClientState {
                chain_id: m.new_chain_id,
                trusting_period: c.trusting_period,
                max_clock_drift: c.max_clock_drift,
                latest_height: c.latest_height,
                frozen_height: c.frozen_height,
            };
            store.put_client_state(upgraded);
            Ok(SudoResult::Empty)
        },
        SudoMsg::MigrateClientStore(_) => {
            match store.get_client_state() {
                Ok(_) => Ok(SudoResult::Empty),
                Err(e) => Err(e),
            }
        },
    }
}

/// The execute surface carries no operations: its message type is
/// uninhabited, so no call to this function exists.
pub fn execute(msg: ExecuteMsg) -> (r: Result<(), ContractError>)
    ensures
        r == Ok::<(), ContractError>(()),
{
    match msg {
        ExecuteMsg::Unsupported(_) => Ok(()),
    }
}

/// The exact result owed for verifying a client message: headers answer
/// with the admission decision (a conflict is valid misbehaviour
/// evidence), evidence answers whether both headers pass the consensus
/// check.
pub open spec fn client_message_check<V: ConsensusVerifier>(
    v: V,
    s: CommitmentStore,
    msg: ClientMessage,
    now: u64,
) -> Result<(), ContractError> {
    match msg {
        ClientMessage::Header(h) => match update_decision(v, s, h@, now) {
            UpdateDecision::MissingClient => Err(ContractError::NotFound),
            UpdateDecision::Frozen => Err(ContractError::ClientFrozen),
            UpdateDecision::NoOp => Ok(()),
            UpdateDecision::Conflict => Ok(()),
            UpdateDecision::NoAnchor => Err(ContractError::InvalidHeader),
            UpdateDecision::Expired => Err(ContractError::Expired),
            UpdateDecision::Invalid => Err(ContractError::InvalidHeader),
            UpdateDecision::Admit => Ok(()),
        },
        ClientMessage::Misbehaviour(m) => match s.client_state {
            None => Err(ContractError::NotFound),
            Some(c) => if c.is_frozen() {
                Err(ContractError::ClientFrozen)
            } else if header_supported(v, s, c, m.header_1@, now) && header_supported(
                v,
                s,
                c,
                m.header_2@,
                now,
            ) {
                Ok(())
            } else {
                Err(ContractError::InvalidHeader)
            },
        },
    }
}

/// Validates a client message without mutating anything.
pub fn verify_client_message<V: ConsensusVerifier>(
    store: &CommitmentStore,
    verifier: &V,
    now: u64,
    msg: &VerifyClientMessageMsg,
) -> (r: Result<(), ContractError>)
    requires
        store.wf(),
    ensures
        r == client_message_check(*verifier, *store, msg.client_message, now),
{
    match &msg.client_message {
        ClientMessage::Header(h) => {
            match classify_header(store, verifier, now, h) {
                UpdateDecision::MissingClient => Err(ContractError::NotFound),
                UpdateDecision::Frozen => Err(ContractError::ClientFrozen),
                UpdateDecision::NoOp => Ok(()),
                UpdateDecision::Conflict => Ok(()),
                UpdateDecision::NoAnchor => Err(ContractError::InvalidHeader),
                UpdateDecision::Expired => Err(ContractError::Expired),
                UpdateDecision::Invalid => Err(ContractError::InvalidHeader),
                UpdateDecision::Admit => Ok(()),
            }
        },
        ClientMessage::Misbehaviour(m) => {
            let c = match store.get_client_state() {
                Ok(c) => c,
                Err(e) => {
                    return Err(e);
                },
            };
            if c.frozen_height.is_some() {
                return Err(ContractError::ClientFrozen);
            }
            if header_supported_exec(store, &c, verifier, &m.header_1, now)
                && header_supported_exec(store, &c, verifier, &m.header_2, now) {
                Ok(())
            } else {
                Err(ContractError::InvalidHeader)
            }
        },
    }
}

/// The exact answer owed for a misbehaviour query: for a header, whether
/// a different consensus state is already stored at its height; for
/// evidence, whether it counts as found misbehaviour. A message that
/// cannot be validated — including one against a store with no client —
/// answers not-found rather than an error.
pub open spec fn misbehaviour_query<V: ConsensusVerifier>(
    v: V,
    s: CommitmentStore,
    msg: ClientMessage,
    now: u64,
) -> bool {
    match msg {
        ClientMessage::Header(h) => match s.cs_at(h@.height) {
            Some(existing) => existing != consensus_of(h@),
            None => false,
        },
        ClientMessage::Misbehaviour(m) => misbehaviour_found(v, s, m.header_1@, m.header_2@, now),
    }
}

/// Answers whether the client message is evidence of misbehaviour;
/// read-only, and still answerable after a freeze.
pub fn check_for_misbehaviour<V: ConsensusVerifier>(
    store: &CommitmentStore,
    verifier: &V,
    now: u64,
    msg: &CheckForMisbehaviourMsg,
) -> (r: Result<CheckForMisbehaviourResult, ContractError>)
    requires
        store.wf(),
    ensures
        r matches Ok(res) && res.found_misbehaviour == misbehaviour_query(
            *verifier,
            *store,
            msg.client_message,
            now,
        ),
{
    match &msg.client_message {
        ClientMessage::Header(h) => {
            match store.get_consensus_state(&h.height) {
                Ok(existing) => {
                    let same = crate::proofs::bytes_eq(&existing.root, &h.root)
                        && existing.timestamp == h.timestamp && crate::proofs::bytes_eq(
                        &existing.next_validators_hash,
                        &h.next_validators_hash,
                    );
                    proof {
                        if same {
                            assert(existing@ =~= consensus_of(h@));
                        }
                    }
                    Ok(CheckForMisbehaviourResult { found_misbehaviour: !same })
                },
                Err(_) => Ok(CheckForMisbehaviourResult { found_misbehaviour: false }),
            }
        },
        ClientMessage::Misbehaviour(m) => {
            let found = check_misbehaviour(store, verifier, now, m);
            Ok(CheckForMisbehaviourResult { found_misbehaviour: found })
        },
    }
}

/// Reads the timestamp recorded in the consensus state at the requested
/// height — what the chain attested, not the time of the query.
pub fn timestamp_at_height(store: &CommitmentStore, msg: &TimestampAtHeightMsg) -> (r: Result<
    TimestampAtHeightResult,
    ContractError,
>)
    ensures
        r == (match store.cs_at(msg.height) {
            Some(cs) => Ok::<TimestampAtHeightResult, ContractError>(
                (TimestampAtHeightResult { timestamp: cs.timestamp }),
            ),
            None => Err::<TimestampAtHeightResult, ContractError>(ContractError::NotFound),
        }),
{
    match store.get_consensus_state(&msg.height) {
        Ok(cs) => Ok(TimestampAtHeightResult { timestamp: cs.timestamp }),
        Err(e) => Err(e),
    }
}

/// The status text owed for a store: `Unknown` before instantiation,
/// `Frozen` after misbehaviour, otherwise `Active`.
pub open spec fn status_text(s: CommitmentStore) -> Seq<char> {
    if s.client_state is None {
        "Unknown"@
    } else if s.is_frozen() {
        "Frozen"@
    } else {
        "Active"@
    }
}

/// Reports the client's lifecycle status.
pub fn status(store: &CommitmentStore, msg: &StatusMsg) -> (r: Result<StatusResult, ContractError>)
    ensures
        r matches Ok(res) && res.status@ == status_text(*store),
{
    let text = if store.get_client_state().is_err() {
        "Unknown"
    } else if store.is_frozen_exec() {
        "Frozen"
    } else {
        "Active"
    };
    Ok(StatusResult { status: text.to_owned() })
}

/// One metadata record per trusted height, in storage order: the
/// deterministic height key and the recorded timestamp.
pub open spec fn height_key(h: Height) -> Seq<u8> {
    le8(h.revision_number) + le8(h.revision_height)
}

pub open spec fn export_ok(s: CommitmentStore, res: ExportMetadataResult) -> bool {
    res.genesis_metadata@.len() == s.consensus_states@.len() && forall|i: int|
        0 <= i < res.genesis_metadata@.len() ==> (#[trigger] res.genesis_metadata@[i]).0@
            == height_key(s.consensus_states@[i].0) && res.genesis_metadata@[i].1@ == le8(
            s.consensus_states@[i].1@.timestamp,
        )
}

/// Exports the stored consensus metadata, one record per trusted height.
pub fn export_metadata(store: &CommitmentStore, msg: &ExportMetadataMsg) -> (r: Result<
    ExportMetadataResult,
    ContractError,
>)
    ensures
        r matches Ok(res) && export_ok(*store, res),
{
    let mut out: Vec<(Vec<u8>, Vec<u8>)> = Vec::new();
    let mut i: usize = 0;
    while i < store.consensus_states.len()
        invariant
            i <= store.consensus_states@.len(),
            out@.len() == i,
            forall|j: int|
                0 <= j < i ==> (#[trigger] out@[j]).0@ == height_key(store.consensus_states@[j].0)
                    && out@[j].1@ == le8(store.consensus_states@[j].1@.timestamp),
        decreases store.consensus_states@.len() - i,
    {
        let h = store.consensus_states[i].0;
        let mut key = u64_to_le_bytes(h.revision_number);
        let rh = u64_to_le_bytes(h.revision_height);
        crate::proofs::append_bytes(&mut key, &rh);
        let ts = u64_to_le_bytes(store.consensus_states[i].1.timestamp);
        out.push((key, ts));
        i += 1;
    }
    Ok(ExportMetadataResult { genesis_metadata: out })
}

/// Dispatches the read-only queries; nothing here mutates the store.
pub fn query<V: ConsensusVerifier>(
    store: &CommitmentStore,
    verifier: &V,
    now: u64,
    msg: QueryMsg,
) -> (r: Result<QueryResult, ContractError>)
    requires
        store.wf(),
    ensures
        match msg {
            QueryMsg::VerifyClientMessage(m) => r == (match client_message_check(
                *verifier,
                *store,
                m.client_message,
                now,
            ) {
                Ok(()) => Ok::<QueryResult, ContractError>(QueryResult::Verified),
                Err(e) => Err(e),
            }),
            QueryMsg::CheckForMisbehaviour(m) => r == Ok::<QueryResult, ContractError>(
                QueryResult::Misbehaviour(
                    (CheckForMisbehaviourResult {
                        found_misbehaviour: misbehaviour_query(
                            *verifier,
                            *store,
                            m.client_message,
                            now,
                        ),
                    }),
                ),
            ),
            QueryMsg::TimestampAtHeight(m) => r == (match store.cs_at(m.height) {
                Some(cs) => Ok::<QueryResult, ContractError>(
                    QueryResult::Timestamp((TimestampAtHeightResult { timestamp: cs.timestamp })),
                ),
                None => Err::<QueryResult, ContractError>(ContractError::NotFound),
            }),
            QueryMsg::Status(_) => r matches Ok(q) && q matches QueryResult::Status(res)
                && res.status@ == status_text(*store),
            QueryMsg::ExportMetadata(_) => r matches Ok(q) && q matches QueryResult::Metadata(res)
                && export_ok(*store, res),
        },
{
    match msg {
        QueryMsg::VerifyClientMessage(m) => {
            match verify_client_message(store, verifier, now, &m) {
                Ok(()) => Ok(QueryResult::Verified),
                Err(e) => Err(e),
            }
        },
        QueryMsg::CheckForMisbehaviour(m) => {
            match check_for_misbehaviour(store, verifier, now, &m) {
                Ok(res) => Ok(QueryResult::Misbehaviour(res)),
                Err(e) => Err(e),
            }
        },
        QueryMsg::TimestampAtHeight(m) => {
            match timestamp_at_height(store, &m) {
                Ok(res) => Ok(QueryResult::Timestamp(res)),
                Err(e) => Err(e),
            }
        },
        QueryMsg::Status(m) => {
            match status(store, &m) {
                Ok(res) => Ok(QueryResult::Status(res)),
                Err(e) => Err(e),
            }
        },
        QueryMsg::ExportMetadata(m) => {
            match export_metadata(store, &m) {
                Ok(res) => Ok(QueryResult::Metadata(res)),
                Err(e) => Err(e),
            }
        },
    }
}

} // verus!

use ethereum_light_client::contract::{
    instantiate, status, sudo, timestamp_at_height, update_state, verify_membership,
    verify_non_membership, InstantiateMsg, MigrateClientStoreMsg, StatusMsg, SudoMsg,
    SudoResult, TimestampAtHeightMsg, UpdateStateMsg, UpdateStateOnMisbehaviourMsg,
    VerifyMembershipMsg, VerifyNonMembershipMsg, VerifyUpgradeAndUpdateStateMsg,
};
use ethereum_light_client::engine::{check_misbehaviour, update_on_misbehaviour, Misbehaviour};
use ethereum_light_client::errors::ContractError;
use ethereum_light_client::header::{ChainOfTrustVerifier, Header};
use ethereum_light_client::height::Height;
use ethereum_light_client::proofs::{commitment_root, path_to_key, MembershipProof, MerklePath};
use ethereum_light_client::state::{ClientState, CommitmentStore, ConsensusState};

const NOW: u64 = 100;
const HOST_HEIGHT: u64 = 10;

fn client_state() -> ClientState {
    ClientState {
        chain_id: 7,
        trusting_period: 1000,
        max_clock_drift: 100,
        latest_height: Height::new(0, 1),
        frozen_height: None,
    }
}

fn entries() -> Vec<(Vec<u8>, Vec<u8>)> {
    vec![
        (path_to_key(&path(b"alpha")), b"value alpha".to_vec()),
        (path_to_key(&path(b"beta")), b"value beta".to_vec()),
    ]
}

fn path(seg: &[u8]) -> MerklePath {
    MerklePath { key_path: vec![seg.to_vec()] }
}

fn genesis() -> ConsensusState {
    ConsensusState {
        root: commitment_root(&entries()),
        timestamp: 50,
        next_validators_hash: vec![1; 32],
    }
}

fn setup() -> CommitmentStore {
    let mut store = CommitmentStore::new();
    instantiate(
        &mut store,
        InstantiateMsg {
            client_state: client_state(),
            consensus_state: genesis(),
            checksum: b"checksum".to_vec(),
        },
    )
    .unwrap();
    store
}

fn header_at(revision_height: u64, timestamp: u64, vals: u8, next_vals: u8) -> Header {
    Header {
        height: Height::new(0, revision_height),
        timestamp,
        root: vec![revision_height as u8; 8],
        validators_hash: vec![vals; 32],
        next_validators_hash: vec![next_vals; 32],
    }
}

fn membership_msg(seg: &[u8], value: &[u8]) -> VerifyMembershipMsg {
    VerifyMembershipMsg {
        height: Height::new(0, 1),
        delay_time_period: 0,
        delay_block_period: 0,
        proof: MembershipProof { entries: entries() },
        merkle_path: path(seg),
        value: value.to_vec(),
    }
}

// Monotonicity: across successful updates the latest height never
// decreases, including fill-in updates for skipped heights.
#[test]
fn latest_height_is_monotone() {
    let mut store = setup();
    let v = ChainOfTrustVerifier {};
    let res = update_state(
        &mut store,
        &v,
        NOW,
        UpdateStateMsg { client_message: header_at(4, 60, 1, 2) },
    )
    .unwrap();
    assert_eq!(vec![Height::new(0, 4)], res.heights);
    assert_eq!(Height::new(0, 4), store.get_client_state().unwrap().latest_height);

    // a fill-in update below the latest height is admitted but does not
    // move the latest height back
    let res = update_state(
        &mut store,
        &v,
        NOW,
        UpdateStateMsg { client_message: header_at(3, 55, 1, 3) },
    )
    .unwrap();
    assert_eq!(vec![Height::new(0, 3)], res.heights);
    assert_eq!(Height::new(0, 4), store.get_client_state().unwrap().latest_height);

    let res = update_state(
        &mut store,
        &v,
        NOW,
        UpdateStateMsg { client_message: header_at(6, 70, 2, 4) },
    )
    .unwrap();
    assert_eq!(vec![Height::new(0, 6)], res.heights);
    assert_eq!(Height::new(0, 6), store.get_client_state().unwrap().latest_height);
}

// No silent overwrite: a different consensus claim at a stored height
// freezes the client and leaves the stored value in place.
#[test]
fn conflicting_write_freezes_and_keeps_first_value() {
    let mut store = setup();
    let v = ChainOfTrustVerifier {};
    let mut conflicting = header_at(1, 60, 1, 2);
    conflicting.root = b"a different root".to_vec();
    let err = update_state(
        &mut store,
        &v,
        NOW,
        UpdateStateMsg { client_message: conflicting },
    )
    .unwrap_err();
    assert_eq!(ContractError::MisbehaviourDetected, err);
    assert!(store.get_client_state().unwrap().frozen_height.is_some());
    // the first value is still what the store answers with
    let stored = store.get_consensus_state(&Height::new(0, 1)).unwrap();
    assert_eq!(genesis().root, stored.root);
}

// Freeze absorption: after a freeze, membership, non-membership and
// update calls all fail fast with ClientFrozen and mutate nothing.
#[test]
fn frozen_client_absorbs_all_verification() {
    let mut store = setup();
    let v = ChainOfTrustVerifier {};
    let mut conflicting = header_at(1, 60, 1, 2);
    conflicting.root = b"a different root".to_vec();
    update_state(&mut store, &v, NOW, UpdateStateMsg { client_message: conflicting })
        .unwrap_err();

    let err = verify_membership(&store, NOW, HOST_HEIGHT, &membership_msg(b"alpha", b"value alpha"))
        .unwrap_err();
    assert_eq!(ContractError::ClientFrozen, err);

    let err = verify_non_membership(
        &store,
        NOW,
        HOST_HEIGHT,
        &VerifyNonMembershipMsg {
            height: Height::new(0, 1),
            delay_time_period: 0,
            delay_block_period: 0,
            proof: MembershipProof { entries: entries() },
            merkle_path: path(b"gamma"),
        },
    )
    .unwrap_err();
    assert_eq!(ContractError::ClientFrozen, err);

    let err = update_state(
        &mut store,
        &v,
        NOW,
        UpdateStateMsg { client_message: header_at(5, 70, 1, 2) },
    )
    .unwrap_err();
    assert_eq!(ContractError::ClientFrozen, err);
    assert!(store.get_consensus_state(&Height::new(0, 5)).is_err());
}

// Idempotent update: re-submitting an admitted header succeeds, reports
// no new height and changes nothing.
#[test]
fn resubmitted_header_is_a_no_op() {
    let mut store = setup();
    let v = ChainOfTrustVerifier {};
    let res = update_state(
        &mut store,
        &v,
        NOW,
        UpdateStateMsg { client_message: header_at(2, 60, 1, 2) },
    )
    .unwrap();
    assert_eq!(1, res.heights.len());

    let res = update_state(
        &mut store,
        &v,
        NOW,
        UpdateStateMsg { client_message: header_at(2, 60, 1, 2) },
    )
    .unwrap();
    assert!(res.heights.is_empty());
    assert_eq!(Height::new(0, 2), store.get_client_state().unwrap().latest_height);
    assert!(store.get_client_state().unwrap().frozen_height.is_none());
}

// Proof round-trip: every committed key verifies with its true value and
// only that value; absent keys verify as absent and present keys do not.
#[test]
fn proof_round_trip() {
    let store = setup();
    // every key in the set verifies with its true value
    assert!(verify_membership(&store, NOW, HOST_HEIGHT, &membership_msg(b"alpha", b"value alpha"))
        .is_ok());
    assert!(verify_membership(&store, NOW, HOST_HEIGHT, &membership_msg(b"beta", b"value beta"))
        .is_ok());
    // a tampered value fails
    assert_eq!(
        ContractError::InvalidProof,
        verify_membership(&store, NOW, HOST_HEIGHT, &membership_msg(b"alpha", b"tampered"))
            .unwrap_err()
    );
    // a fabricated entry set carrying the tampered value fails too
    let mut msg = membership_msg(b"alpha", b"tampered");
    msg.proof = MembershipProof {
        entries: vec![(path_to_key(&path(b"alpha")), b"tampered".to_vec())],
    };
    assert_eq!(
        ContractError::InvalidProof,
        verify_membership(&store, NOW, HOST_HEIGHT, &msg).unwrap_err()
    );
    // absent keys verify as absent; present keys do not
    let absent = VerifyNonMembershipMsg {
        height: Height::new(0, 1),
        delay_time_period: 0,
        delay_block_period: 0,
        proof: MembershipProof { entries: entries() },
        merkle_path: path(b"gamma"),
    };
    assert!(verify_non_membership(&store, NOW, HOST_HEIGHT, &absent).is_ok());
    let present = VerifyNonMembershipMsg {
        height: Height::new(0, 1),
        delay_time_period: 0,
        delay_block_period: 0,
        proof: MembershipProof { entries: entries() },
        merkle_path: path(b"beta"),
    };
    assert_eq!(
        ContractError::InvalidProof,
        verify_non_membership(&store, NOW, HOST_HEIGHT, &present).unwrap_err()
    );
}

// Scenario: instantiate at (0,1), see Active, freeze through a
// conflicting genesis-height header, see Frozen, and watch verification
// fail fast afterwards.
#[test]
fn freeze_scenario_from_genesis_conflict() {
    let mut store = setup();
    let v = ChainOfTrustVerifier {};
    assert_eq!("Active", status(&store, &StatusMsg {}).unwrap().status);

    let mut conflicting = header_at(1, 60, 1, 2);
    conflicting.root = b"a different root".to_vec();
    let err = sudo(
        &mut store,
        &v,
        NOW,
        HOST_HEIGHT,
        SudoMsg::UpdateState(UpdateStateMsg { client_message: conflicting }),
    )
    .unwrap_err();
    assert_eq!(ContractError::MisbehaviourDetected, err);
    assert_eq!("Frozen", status(&store, &StatusMsg {}).unwrap().status);

    let err = sudo(
        &mut store,
        &v,
        NOW,
        HOST_HEIGHT,
        SudoMsg::VerifyMembership(membership_msg(b"alpha", b"value alpha")),
    )
    .unwrap_err();
    assert_eq!(ContractError::ClientFrozen, err);
}

// Scenario: the timestamp answered for the genesis height is the one
// recorded at instantiation, not the query-time clock.
#[test]
fn timestamp_is_recorded_not_current() {
    let store = setup();
    let res = timestamp_at_height(&store, &TimestampAtHeightMsg { height: Height::new(0, 1) })
        .unwrap();
    assert_eq!(50, res.timestamp);
    assert_ne!(NOW, res.timestamp);
}

#[test]
fn misbehaviour_evidence_freezes_and_is_idempotent() {
    let mut store = setup();
    let v = ChainOfTrustVerifier {};
    let mut other = header_at(2, 60, 1, 2);
    other.root = b"fork root".to_vec();
    let evidence = Misbehaviour {
        header_1: header_at(2, 60, 1, 2),
        header_2: other,
    };
    assert!(check_misbehaviour(&store, &v, NOW, &evidence));
    let found = update_on_misbehaviour(&mut store, &v, NOW, &evidence).unwrap();
    assert!(found);
    let frozen_at = store.get_client_state().unwrap().frozen_height;
    assert_eq!(Some(Height::new(0, 2)), frozen_at);

    // the same evidence still answers found, and nothing changes further
    let found = update_on_misbehaviour(&mut store, &v, NOW, &evidence).unwrap();
    assert!(found);
    assert_eq!(frozen_at, store.get_client_state().unwrap().frozen_height);
}

#[test]
fn agreeing_headers_are_not_misbehaviour() {
    let store = setup();
    let v = ChainOfTrustVerifier {};
    let evidence = Misbehaviour {
        header_1: header_at(2, 60, 1, 2),
        header_2: header_at(3, 70, 1, 2),
    };
    assert!(!check_misbehaviour(&store, &v, NOW, &evidence));
}

#[test]
fn non_monotone_timestamps_are_misbehaviour() {
    let store = setup();
    let v = ChainOfTrustVerifier {};
    let evidence = Misbehaviour {
        header_1: header_at(2, 70, 1, 2),
        header_2: header_at(3, 65, 1, 2),
    };
    assert!(check_misbehaviour(&store, &v, NOW, &evidence));
}

#[test]
fn sudo_misbehaviour_freezes_client() {
    let mut store = setup();
    let v = ChainOfTrustVerifier {};
    let mut other = header_at(2, 60, 1, 2);
    other.root = b"fork root".to_vec();
    let res = sudo(
        &mut store,
        &v,
        NOW,
        HOST_HEIGHT,
        SudoMsg::UpdateStateOnMisbehaviour(UpdateStateOnMisbehaviourMsg {
            client_message: Misbehaviour { header_1: header_at(2, 60, 1, 2), header_2: other },
        }),
    )
    .unwrap();
    match res {
        SudoResult::Misbehaviour(r) => assert!(r.found_misbehaviour),
        _ => panic!("unexpected sudo result"),
    }
    assert_eq!("Frozen", status(&store, &StatusMsg {}).unwrap().status);
}

#[test]
fn upgrade_changes_chain_id_and_preserves_heights() {
    let mut store = setup();
    let v = ChainOfTrustVerifier {};
    let res = sudo(
        &mut store,
        &v,
        NOW,
        HOST_HEIGHT,
        SudoMsg::VerifyUpgradeAndUpdateState(VerifyUpgradeAndUpdateStateMsg { new_chain_id: 9 }),
    )
    .unwrap();
    assert!(matches!(res, SudoResult::Empty));
    let c = store.get_client_state().unwrap();
    assert_eq!(9, c.chain_id);
    assert_eq!(Height::new(0, 1), c.latest_height);
    assert!(store.get_consensus_state(&Height::new(0, 1)).is_ok());
}

#[test]
fn migrate_client_store_is_a_no_op() {
    let mut store = setup();
    let v = ChainOfTrustVerifier {};
    let res = sudo(
        &mut store,
        &v,
        NOW,
        HOST_HEIGHT,
        SudoMsg::MigrateClientStore(MigrateClientStoreMsg {}),
    )
    .unwrap();
    assert!(matches!(res, SudoResult::Empty));
    assert_eq!("Active", status(&store, &StatusMsg {}).unwrap().status);
}

#[test]
fn heights_order_lexicographically() {
    let a = Height::new(0, 5);
    let b = Height::new(1, 0);
    assert!(a.lt(&b));
    assert!(!b.lt(&a));
    assert!(a.lte(&b));
    assert!(a.lte(&a));
    assert!(Height::new(1, 1).lt(&Height::new(1, 2)));
}

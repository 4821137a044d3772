use ethereum_light_client::contract::{
    check_for_misbehaviour, export_metadata, instantiate, query, status, sudo,
    timestamp_at_height, update_state, verify_client_message, verify_membership,
    verify_non_membership, CheckForMisbehaviourMsg, ClientMessage, ExportMetadataMsg,
    InstantiateMsg, QueryMsg, QueryResult, StatusMsg, SudoMsg, SudoResult, TimestampAtHeightMsg,
    UpdateStateMsg, UpdateStateResult, VerifyClientMessageMsg, VerifyMembershipMsg,
    VerifyNonMembershipMsg,
};
use ethereum_light_client::errors::ContractError;
use ethereum_light_client::header::{ChainOfTrustVerifier, Header};
use ethereum_light_client::height::Height;
use ethereum_light_client::proofs::{commitment_root, path_to_key, MembershipProof, MerklePath};
use ethereum_light_client::state::{ClientState, CommitmentStore, ConsensusState};

fn genesis_client_state() -> ClientState {
    ClientState {
        chain_id: 0,
        trusting_period: 1000,
        max_clock_drift: 100,
        latest_height: Height::new(0, 1),
        frozen_height: None,
    }
}

fn entry_set() -> Vec<(Vec<u8>, Vec<u8>)> {
    let present_path = MerklePath { key_path: vec![b"commitments/ports/transfer".to_vec()] };
    vec![(path_to_key(&present_path), b"stored value".to_vec())]
}

fn genesis_consensus_state() -> ConsensusState {
    ConsensusState {
        root: commitment_root(&entry_set()),
        timestamp: 50,
        next_validators_hash: vec![1; 32],
    }
}

fn setup() -> CommitmentStore {
    let mut store = CommitmentStore::new();
    instantiate(
        &mut store,
        InstantiateMsg {
            client_state: genesis_client_state(),
            consensus_state: genesis_consensus_state(),
            checksum: b"also does not matter yet".to_vec(),
        },
    )
    .unwrap();
    store
}

fn next_header() -> Header {
    Header {
        height: Height::new(0, 2),
        timestamp: 60,
        root: b"next root".to_vec(),
        validators_hash: vec![1; 32],
        next_validators_hash: vec![2; 32],
    }
}

#[test]
fn test_instantiate() {
    let mut store = CommitmentStore::new();
    let msg = InstantiateMsg {
        client_state: genesis_client_state(),
        consensus_state: ConsensusState {
            root: b"does not matter yet".to_vec(),
            timestamp: 0,
            next_validators_hash: vec![],
        },
        checksum: b"also does not matter yet".to_vec(),
    };
    let res = instantiate(&mut store, msg);
    assert!(res.is_ok());

    let client_state = store.get_client_state().unwrap();
    assert_eq!(b"also does not matter yet".to_vec(), store.checksum);
    assert_eq!(0, client_state.chain_id);
    assert_eq!(0, client_state.latest_height.revision_number);
    assert_eq!(1, client_state.latest_height.revision_height);
    let genesis = store.get_consensus_state(&Height::new(0, 1)).unwrap();
    assert_eq!(b"does not matter yet".to_vec(), genesis.root);
}

#[test]
fn test_verify_membership() {
    let mut store = setup();
    let msg = SudoMsg::VerifyMembership(VerifyMembershipMsg {
        height: Height::new(0, 1),
        delay_time_period: 0,
        delay_block_period: 0,
        proof: MembershipProof { entries: entry_set() },
        merkle_path: MerklePath { key_path: vec![b"commitments/ports/transfer".to_vec()] },
        value: b"stored value".to_vec(),
    });
    let res = sudo(&mut store, &ChainOfTrustVerifier {}, 100, 10, msg).unwrap();
    assert!(matches!(res, SudoResult::Empty));
}

#[test]
fn test_verify_non_membership() {
    let mut store = setup();
    let msg = SudoMsg::VerifyNonMembership(VerifyNonMembershipMsg {
        height: Height::new(0, 1),
        delay_time_period: 0,
        delay_block_period: 0,
        proof: MembershipProof { entries: entry_set() },
        merkle_path: MerklePath { key_path: vec![b"commitments/ports/absent".to_vec()] },
    });
    let res = sudo(&mut store, &ChainOfTrustVerifier {}, 100, 10, msg).unwrap();
    assert!(matches!(res, SudoResult::Empty));
}

#[test]
fn test_update_state() {
    let mut store = setup();
    let msg = SudoMsg::UpdateState(UpdateStateMsg { client_message: next_header() });
    let res = sudo(&mut store, &ChainOfTrustVerifier {}, 100, 10, msg).unwrap();
    match res {
        SudoResult::UpdateState(UpdateStateResult { heights }) => {
            assert_eq!(vec![Height::new(0, 2)], heights);
        },
        _ => panic!("unexpected sudo result"),
    }
}

#[test]
fn test_verify_client_message() {
    let store = setup();
    query(
        &store,
        &ChainOfTrustVerifier {},
        100,
        QueryMsg::VerifyClientMessage(VerifyClientMessageMsg {
            client_message: ClientMessage::Header(next_header()),
        }),
    )
    .unwrap();
}

#[test]
fn test_check_for_misbehaviour() {
    let store = CommitmentStore::new();
    let res = query(
        &store,
        &ChainOfTrustVerifier {},
        100,
        QueryMsg::CheckForMisbehaviour(CheckForMisbehaviourMsg {
            client_message: ClientMessage::Header(Header {
                height: Height::new(0, 0),
                timestamp: 0,
                root: vec![],
                validators_hash: vec![],
                next_validators_hash: vec![],
            }),
        }),
    )
    .unwrap();
    match res {
        QueryResult::Misbehaviour(r) => assert!(!r.found_misbehaviour),
        _ => panic!("unexpected query result"),
    }
}

#[test]
fn test_timestamp_at_height() {
    let store = setup();
    let res = query(
        &store,
        &ChainOfTrustVerifier {},
        100,
        QueryMsg::TimestampAtHeight(TimestampAtHeightMsg { height: Height::new(0, 1) }),
    )
    .unwrap();
    match res {
        QueryResult::Timestamp(r) => assert_eq!(50, r.timestamp),
        _ => panic!("unexpected query result"),
    }
}

#[test]
fn test_status() {
    let store = setup();
    let res = query(&store, &ChainOfTrustVerifier {}, 100, QueryMsg::Status(StatusMsg {}))
        .unwrap();
    match res {
        QueryResult::Status(r) => assert_eq!("Active", r.status),
        _ => panic!("unexpected query result"),
    }
}

#[test]
fn test_export_metadata() {
    let store = CommitmentStore::new();
    let res = query(
        &store,
        &ChainOfTrustVerifier {},
        100,
        QueryMsg::ExportMetadata(ExportMetadataMsg {}),
    )
    .unwrap();
    match res {
        QueryResult::Metadata(r) => assert_eq!(0, r.genesis_metadata.len()),
        _ => panic!("unexpected query result"),
    }
}

#[test]
fn test_status_unknown_before_instantiate() {
    let store = CommitmentStore::new();
    let res = status(&store, &StatusMsg {}).unwrap();
    assert_eq!("Unknown", res.status);
}

#[test]
fn test_export_metadata_after_instantiate() {
    let store = setup();
    let res = export_metadata(&store, &ExportMetadataMsg {}).unwrap();
    assert_eq!(1, res.genesis_metadata.len());
    let mut key = 0u64.to_le_bytes().to_vec();
    key.extend_from_slice(&1u64.to_le_bytes());
    assert_eq!(key, res.genesis_metadata[0].0);
    assert_eq!(50u64.to_le_bytes().to_vec(), res.genesis_metadata[0].1);
}

#[test]
fn test_timestamp_at_unknown_height_is_not_found() {
    let store = setup();
    let err = timestamp_at_height(&store, &TimestampAtHeightMsg { height: Height::new(0, 9) })
        .unwrap_err();
    assert_eq!(ContractError::NotFound, err);
}

#[test]
fn test_membership_before_instantiate_is_not_found() {
    let store = CommitmentStore::new();
    let err = verify_membership(
        &store,
        100,
        10,
        &VerifyMembershipMsg {
            height: Height::new(0, 1),
            delay_time_period: 0,
            delay_block_period: 0,
            proof: MembershipProof { entries: vec![] },
            merkle_path: MerklePath { key_path: vec![] },
            value: vec![],
        },
    )
    .unwrap_err();
    assert_eq!(ContractError::NotFound, err);
}

#[test]
fn test_membership_delay_not_elapsed_is_invalid_proof() {
    let store = setup();
    let err = verify_membership(
        &store,
        100,
        10,
        &VerifyMembershipMsg {
            height: Height::new(0, 1),
            delay_time_period: 500,
            delay_block_period: 0,
            proof: MembershipProof { entries: entry_set() },
            merkle_path: MerklePath { key_path: vec![b"commitments/ports/transfer".to_vec()] },
            value: b"stored value".to_vec(),
        },
    )
    .unwrap_err();
    assert_eq!(ContractError::InvalidProof, err);
}

#[test]
fn test_non_membership_of_present_key_is_invalid_proof() {
    let store = setup();
    let err = verify_non_membership(
        &store,
        100,
        10,
        &VerifyNonMembershipMsg {
            height: Height::new(0, 1),
            delay_time_period: 0,
            delay_block_period: 0,
            proof: MembershipProof { entries: entry_set() },
            merkle_path: MerklePath { key_path: vec![b"commitments/ports/transfer".to_vec()] },
        },
    )
    .unwrap_err();
    assert_eq!(ContractError::InvalidProof, err);
}

#[test]
fn test_verify_client_message_rejects_unanchored_header() {
    let store = setup();
    let mut header = next_header();
    header.height = Height::new(0, 0);
    let err = verify_client_message(
        &store,
        &ChainOfTrustVerifier {},
        100,
        &VerifyClientMessageMsg { client_message: ClientMessage::Header(header) },
    )
    .unwrap_err();
    assert_eq!(ContractError::InvalidHeader, err);
}

#[test]
fn test_update_expired_anchor_is_expired() {
    let mut store = setup();
    // the genesis state is 50s old; jump past the 1000s trusting period
    let mut header = next_header();
    header.timestamp = 2000;
    let err = update_state(
        &mut store,
        &ChainOfTrustVerifier {},
        2000,
        UpdateStateMsg { client_message: header },
    )
    .unwrap_err();
    assert_eq!(ContractError::Expired, err);
}

#[test]
fn test_update_far_future_header_is_invalid() {
    let mut store = setup();
    // further ahead of host time than the allowed clock drift
    let mut header = next_header();
    header.timestamp = 400;
    let err = update_state(
        &mut store,
        &ChainOfTrustVerifier {},
        100,
        UpdateStateMsg { client_message: header },
    )
    .unwrap_err();
    assert_eq!(ContractError::InvalidHeader, err);
}

#[test]
fn test_update_wrong_validator_set_is_invalid() {
    let mut store = setup();
    let mut header = next_header();
    header.validators_hash = vec![9; 32];
    let err = update_state(
        &mut store,
        &ChainOfTrustVerifier {},
        100,
        UpdateStateMsg { client_message: header },
    )
    .unwrap_err();
    assert_eq!(ContractError::InvalidHeader, err);
}

#[test]
fn test_put_conflicting_consensus_state_is_already_exists() {
    let mut store = setup();
    let err = store
        .put_consensus_state(
            Height::new(0, 1),
            ConsensusState {
                root: b"another root".to_vec(),
                timestamp: 51,
                next_validators_hash: vec![3; 32],
            },
        )
        .unwrap_err();
    assert_eq!(ContractError::AlreadyExists, err);
}

#[test]
fn test_check_for_misbehaviour_answers_on_a_stored_header() {
    let store = setup();
    let res = check_for_misbehaviour(
        &store,
        &ChainOfTrustVerifier {},
        100,
        &CheckForMisbehaviourMsg { client_message: ClientMessage::Header(next_header()) },
    )
    .unwrap();
    assert!(!res.found_misbehaviour);

    let conflicting = Header {
        height: Height::new(0, 1),
        timestamp: 50,
        root: b"a different root".to_vec(),
        validators_hash: vec![1; 32],
        next_validators_hash: vec![1; 32],
    };
    let res = check_for_misbehaviour(
        &store,
        &ChainOfTrustVerifier {},
        100,
        &CheckForMisbehaviourMsg { client_message: ClientMessage::Header(conflicting) },
    )
    .unwrap();
    assert!(res.found_misbehaviour);
}

#[test]
fn test_instantiate_preserves_other_heights() {
    let mut store = setup();
    let v = ChainOfTrustVerifier {};
    update_state(
        &mut store,
        &v,
        100,
        UpdateStateMsg {
            client_message: Header {
                height: Height::new(0, 2),
                timestamp: 60,
                root: b"second root".to_vec(),
                validators_hash: vec![1; 32],
                next_validators_hash: vec![2; 32],
            },
        },
    )
    .unwrap();

    instantiate(
        &mut store,
        InstantiateMsg {
            client_state: genesis_client_state(),
            consensus_state: ConsensusState {
                root: b"new genesis root".to_vec(),
                timestamp: 55,
                next_validators_hash: vec![4; 32],
            },
            checksum: b"new checksum".to_vec(),
        },
    )
    .unwrap();

    // the genesis record was rewritten, the other height kept
    let genesis = store.get_consensus_state(&Height::new(0, 1)).unwrap();
    assert_eq!(b"new genesis root".to_vec(), genesis.root);
    let second = store.get_consensus_state(&Height::new(0, 2)).unwrap();
    assert_eq!(b"second root".to_vec(), second.root);
}

//! Tests of the operation pool's validation and aggregation.

use beacon_core::bls::{sign, SecretKey};
use beacon_core::chain_spec::ChainSpec;
use beacon_core::op_pool::{
    AttestationValidationError, DepositInsertStatus, DepositValidationError, OperationPool,
    ProposerSlashingValidationError, TransferValidationError,
};
use beacon_core::state::BeaconState;
use beacon_core::types::{
    Attestation, AttestationData, AttesterSlashing, BeaconBlockHeader, Crosslink, Deposit,
    ProposerSlashing, SlashableAttestation, Transfer, Validator,
};

fn test_state(spec: &ChainSpec) -> BeaconState {
    let header = BeaconBlockHeader {
        slot: 0,
        previous_block_root: 0,
        state_root: 0,
        block_body_root: 0,
        signature: 0,
    };
    let mut state = BeaconState::genesis(spec, 0, header);
    state.slot = 5;
    state.validator_registry.push(Validator {
        pubkey: 7,
        activation_epoch: 0,
        exit_epoch: u64::MAX,
        initiated_exit: false,
    });
    state.validator_balances.push(50);
    state
}

fn attestation_at(slot: u64, bit: u64) -> Attestation {
    Attestation {
        aggregation_bitfield: bit,
        data: AttestationData {
            slot,
            shard: 0,
            beacon_block_root: 1,
            target_root: 2,
            crosslink_data_root: 0,
            previous_crosslink: Crosslink { epoch: 0, crosslink_data_root: 0 },
            source_epoch: 0,
            source_root: 0,
        },
        custody_bitfield: 0,
        aggregate_signature: 9,
    }
}

#[test]
fn future_attestations_are_rejected() {
    let spec = ChainSpec::testing_spec();
    let state = test_state(&spec);
    let mut pool = OperationPool::new();
    let err = pool
        .insert_attestation(attestation_at(6, 1), &state, &spec)
        .unwrap_err();
    assert_eq!(
        err,
        AttestationValidationError::FutureSlot { attestation: 6, state: 5 }
    );
    assert_eq!(pool.num_attestations(), 0);
}

#[test]
fn duplicate_attestations_aggregate() {
    let spec = ChainSpec::testing_spec();
    let state = test_state(&spec);
    let mut pool = OperationPool::new();
    pool.insert_attestation(attestation_at(3, 0b01), &state, &spec)
        .unwrap();
    pool.insert_attestation(attestation_at(3, 0b10), &state, &spec)
        .unwrap();
    // Same data: aggregated, not stored twice.
    assert_eq!(pool.num_attestations(), 1);
    let atts = pool.get_attestations(&state, &spec);
    assert_eq!(atts[0].aggregation_bitfield, 0b11);

    // Different data: stored separately.
    pool.insert_attestation(attestation_at(4, 1), &state, &spec)
        .unwrap();
    assert_eq!(pool.num_attestations(), 2);
}

#[test]
fn deposits_check_possession_and_duplicates() {
    let spec = ChainSpec::testing_spec();
    let state = test_state(&spec);
    let mut pool = OperationPool::new();

    let sk = SecretKey { val: 21 };
    let good = Deposit {
        index: 0,
        pubkey: 21,
        amount: 32,
        proof_of_possession: sign(&sk, 21, spec.domain_deposit),
    };
    assert_eq!(
        pool.insert_deposit(good, &state, &spec).unwrap(),
        DepositInsertStatus::Fresh
    );
    assert_eq!(
        pool.insert_deposit(good, &state, &spec).unwrap(),
        DepositInsertStatus::Duplicate
    );

    let tampered = Deposit { amount: 33, ..good };
    assert_eq!(
        pool.insert_deposit(tampered, &state, &spec).unwrap_err(),
        DepositValidationError::DuplicateDistinct(0)
    );

    let bad_pop = Deposit {
        index: 1,
        pubkey: 22,
        amount: 32,
        proof_of_possession: 0,
    };
    assert_eq!(
        pool.insert_deposit(bad_pop, &state, &spec).unwrap_err(),
        DepositValidationError::BadProofOfPossession
    );
}

#[test]
fn transfers_check_sender_and_balance() {
    let spec = ChainSpec::testing_spec();
    let state = test_state(&spec);
    let mut pool = OperationPool::new();

    let unknown = Transfer { sender: 9, recipient: 0, amount: 1, slot: 5, signature: 0 };
    assert_eq!(
        pool.insert_transfer(unknown, &state, &spec).unwrap_err(),
        TransferValidationError::UnknownValidator(9)
    );

    let broke = Transfer { sender: 0, recipient: 0, amount: 51, slot: 5, signature: 0 };
    assert_eq!(
        pool.insert_transfer(broke, &state, &spec).unwrap_err(),
        TransferValidationError::InsufficientBalance
    );

    let fine = Transfer { sender: 0, recipient: 0, amount: 50, slot: 5, signature: 0 };
    pool.insert_transfer(fine, &state, &spec).unwrap();
    assert_eq!(pool.get_transfers(&state, &spec).len(), 1);
}

#[test]
fn slashings_must_conflict() {
    let spec = ChainSpec::testing_spec();
    let state = test_state(&spec);
    let mut pool = OperationPool::new();

    let header = BeaconBlockHeader {
        slot: 3,
        previous_block_root: 1,
        state_root: 2,
        block_body_root: 3,
        signature: 4,
    };
    let identical = ProposerSlashing { proposer_index: 0, header_1: header, header_2: header };
    assert_eq!(
        pool.insert_proposer_slashing(identical, &state, &spec)
            .unwrap_err(),
        ProposerSlashingValidationError::HeadersIdentical
    );

    let conflicting = ProposerSlashing {
        proposer_index: 0,
        header_1: header,
        header_2: BeaconBlockHeader { state_root: 9, ..header },
    };
    pool.insert_proposer_slashing(conflicting, &state, &spec)
        .unwrap();

    let sa = SlashableAttestation {
        validator_indices: 1,
        data: attestation_at(3, 1).data,
        custody_bitfield: 0,
        aggregate_signature: 0,
    };
    let same = AttesterSlashing {
        slashable_attestation_1: sa,
        slashable_attestation_2: sa,
    };
    assert!(pool.insert_attester_slashing(same, &state, &spec).is_err());

    let differs = AttesterSlashing {
        slashable_attestation_1: sa,
        slashable_attestation_2: SlashableAttestation { validator_indices: 2, ..sa },
    };
    pool.insert_attester_slashing(differs, &state, &spec).unwrap();

    let (proposer, attester) = pool.get_slashings(&state, &spec);
    assert_eq!(proposer.len(), 1);
    assert_eq!(attester.len(), 1);
}

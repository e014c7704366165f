//! Tests of voluntary-exit validation: every gate in order.

use beacon_core::bls::{sign, SecretKey};
use beacon_core::chain_spec::ChainSpec;
use beacon_core::state::BeaconState;
use beacon_core::types::{BeaconBlockHeader, Validator, VoluntaryExit};
use beacon_core::verify_exit::{
    exit_message, verify_exit, verify_exit_time_independent_only, ExitInvalid,
    ExitValidationError,
};

fn state_with(validator: Validator, slot: u64, spec: &ChainSpec) -> BeaconState {
    let header = BeaconBlockHeader {
        slot: 0,
        previous_block_root: 0,
        state_root: 0,
        block_body_root: 0,
        signature: 0,
    };
    let mut state = BeaconState::genesis(spec, 0, header);
    state.slot = slot;
    state.validator_registry.push(validator);
    state.validator_balances.push(32);
    state
}

fn active_validator(sk: u64) -> Validator {
    Validator { pubkey: sk, activation_epoch: 0, exit_epoch: u64::MAX, initiated_exit: false }
}

fn signed_exit(sk: u64, epoch: u64, validator_index: u64, spec: &ChainSpec) -> VoluntaryExit {
    let mut exit = VoluntaryExit { epoch, validator_index, signature: 0 };
    let message = exit_message(&exit);
    exit.signature = sign(&SecretKey { val: sk }, message, spec.domain_exit);
    exit
}

#[test]
fn a_well_formed_exit_passes() {
    let spec = ChainSpec::testing_spec();
    let state = state_with(active_validator(7), 8, &spec);
    let exit = signed_exit(7, 1, 0, &spec);
    assert_eq!(verify_exit(&state, &exit, &spec), Ok(()));
    assert_eq!(
        verify_exit_time_independent_only(&state, &exit, &spec),
        Ok(())
    );
}

#[test]
fn unknown_validators_are_rejected() {
    let spec = ChainSpec::testing_spec();
    let state = state_with(active_validator(7), 8, &spec);
    let exit = signed_exit(7, 1, 3, &spec);
    assert_eq!(
        verify_exit(&state, &exit, &spec),
        Err(ExitValidationError::Invalid(ExitInvalid::ValidatorUnknown(3)))
    );
}

#[test]
fn already_exited_validators_are_rejected() {
    let spec = ChainSpec::testing_spec();
    let mut v = active_validator(7);
    v.exit_epoch = 1;
    let state = state_with(v, 8, &spec);
    let exit = signed_exit(7, 1, 0, &spec);
    assert_eq!(
        verify_exit(&state, &exit, &spec),
        Err(ExitValidationError::Invalid(ExitInvalid::AlreadyExited(0)))
    );
}

#[test]
fn already_initiated_exits_are_rejected() {
    let spec = ChainSpec::testing_spec();
    let mut v = active_validator(7);
    v.initiated_exit = true;
    let state = state_with(v, 8, &spec);
    let exit = signed_exit(7, 1, 0, &spec);
    assert_eq!(
        verify_exit(&state, &exit, &spec),
        Err(ExitValidationError::Invalid(ExitInvalid::AlreadyInitiatedExited(0)))
    );
}

#[test]
fn future_epoch_exits_wait_unless_time_independent() {
    let spec = ChainSpec::testing_spec();
    let state = state_with(active_validator(7), 8, &spec);
    // State sits in epoch 2 (slot 8, four slots per epoch); the exit names
    // epoch 3.
    let exit = signed_exit(7, 3, 0, &spec);
    assert_eq!(
        verify_exit(&state, &exit, &spec),
        Err(ExitValidationError::Invalid(ExitInvalid::FutureEpoch { state: 2, exit: 3 }))
    );
    assert_eq!(
        verify_exit_time_independent_only(&state, &exit, &spec),
        Ok(())
    );
}

#[test]
fn validators_too_young_to_leave_are_rejected() {
    let mut spec = ChainSpec::testing_spec();
    spec.persistent_committee_period = 5;
    let state = state_with(active_validator(7), 8, &spec);
    let exit = signed_exit(7, 1, 0, &spec);
    assert_eq!(
        verify_exit(&state, &exit, &spec),
        Err(ExitValidationError::Invalid(ExitInvalid::TooYoungToLeave {
            lifespan: 2,
            expected: 5,
        }))
    );
}

#[test]
fn a_bad_signature_is_rejected() {
    let spec = ChainSpec::testing_spec();
    let state = state_with(active_validator(7), 8, &spec);
    let mut exit = signed_exit(7, 1, 0, &spec);
    exit.signature = exit.signature.wrapping_add(1);
    assert_eq!(
        verify_exit(&state, &exit, &spec),
        Err(ExitValidationError::Invalid(ExitInvalid::BadSignature))
    );
}

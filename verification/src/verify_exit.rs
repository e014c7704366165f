//! Validation of voluntary exits against the current state.

use vstd::prelude::*;

use crate::bls::spec_verify;
use crate::chain_spec::{spec_slot_to_epoch, ChainSpec, Domain};
use crate::roots::{fold_words, mix_word};
use crate::state::{BeaconState, StateView};
use crate::types::VoluntaryExit;

verus! {

/// Seed separating exit signing messages from other digests.
pub const EXIT_MSG_TAG: u64 = 0x65786974;

/// The reason an exit is invalid.
#[derive(Clone, Copy, PartialEq, Eq, Structural, Debug)]
pub enum ExitInvalid {
    /// The indexed validator does not exist in the registry.
    ValidatorUnknown(u64),
    /// The validator has already exited.
    AlreadyExited(u64),
    /// The validator has already initiated its exit.
    AlreadyInitiatedExited(u64),
    /// The exit only becomes valid in a future epoch.
    FutureEpoch { state: u64, exit: u64 },
    /// The validator has not been in the registry long enough.
    TooYoungToLeave { lifespan: u64, expected: u64 },
    /// The exit's signature does not verify.
    BadSignature,
}

/// The outcome of validating an exit.
#[derive(Clone, Copy, PartialEq, Eq, Structural, Debug)]
pub enum ExitValidationError {
    /// The exit is invalid for the stated reason.
    Invalid(ExitInvalid),
}

/// The message an exit's signature covers.
pub open spec fn spec_exit_message(exit: VoluntaryExit) -> u64 {
    fold_words(EXIT_MSG_TAG, seq![exit.epoch, exit.validator_index])
}

/// The message an exit's signature covers.
pub fn exit_message(exit: &VoluntaryExit) -> (r: u64)
    ensures
        r == spec_exit_message(*exit),
{
    let h1 = mix_word(EXIT_MSG_TAG, exit.epoch);
    let r = mix_word(h1, exit.validator_index);
    proof {
        reveal_with_fuel(fold_words, 3);
        assert(seq![exit.epoch, exit.validator_index].subrange(1, 2) =~= seq![
            exit.validator_index,
        ]);
        assert(seq![exit.validator_index].subrange(1, 1) =~= Seq::<u64>::empty());
    }
    r
}

/// How long the indexed validator has been in the registry, in epochs;
/// zero when its activation still lies ahead.
pub open spec fn spec_lifespan(s: StateView, i: int, cspec: ChainSpec) -> u64 {
    let cur = spec_slot_to_epoch(s.slot, cspec.slots_per_epoch);
    if cur >= s.validator_registry[i].activation_epoch {
        (cur - s.validator_registry[i].activation_epoch) as u64
    } else {
        0
    }
}

/// The outcome `verify_exit` owes for the given state and exit: the first
/// failed gate decides, and an exit passing every gate is valid.
pub open spec fn spec_verify_exit(
    s: StateView,
    exit: VoluntaryExit,
    cspec: ChainSpec,
    time_independent_only: bool,
) -> Result<(), ExitValidationError> {
    if exit.validator_index >= s.validator_registry.len() {
        Err(ExitValidationError::Invalid(ExitInvalid::ValidatorUnknown(exit.validator_index)))
    } else {
        let v = s.validator_registry[exit.validator_index as int];
        let cur = spec_slot_to_epoch(s.slot, cspec.slots_per_epoch);
        if v.exit_epoch != cspec.far_future_epoch {
            Err(ExitValidationError::Invalid(ExitInvalid::AlreadyExited(exit.validator_index)))
        } else if v.initiated_exit {
            Err(
                ExitValidationError::Invalid(
                    ExitInvalid::AlreadyInitiatedExited(exit.validator_index),
                ),
            )
        } else if !(time_independent_only || cur >= exit.epoch) {
            Err(
                ExitValidationError::Invalid(
                    ExitInvalid::FutureEpoch { state: cur, exit: exit.epoch },
                ),
            )
        } else if spec_lifespan(s, exit.validator_index as int, cspec)
            < cspec.persistent_committee_period {
            Err(
                ExitValidationError::Invalid(
                    ExitInvalid::TooYoungToLeave {
                        lifespan: spec_lifespan(s, exit.validator_index as int, cspec),
                        expected: cspec.persistent_committee_period,
                    },
                ),
            )
        } else if !spec_verify(
            v.pubkey,
            spec_exit_message(exit),
            cspec.spec_get_domain(exit.epoch, Domain::Exit),
            exit.signature,
        ) {
            Err(ExitValidationError::Invalid(ExitInvalid::BadSignature))
        } else {
            Ok(())
        }
    }
}

/// Parametric exit check that can skip the gates which may become true in
/// future states.
pub fn verify_exit_parametric(
    state: &BeaconState,
    exit: &VoluntaryExit,
    spec: &ChainSpec,
    time_independent_only: bool,
) -> (r: Result<(), ExitValidationError>)
    requires
        spec.wf(),
    ensures
        r == spec_verify_exit(state@, *exit, *spec, time_independent_only),
{
    if exit.validator_index >= state.validator_registry.len() as u64 {
        return Err(ExitValidationError::Invalid(ExitInvalid::ValidatorUnknown(
            exit.validator_index,
        )));
    }
    let validator = state.validator_registry[exit.validator_index as usize];
    let current_epoch = state.current_epoch(spec);

    // The validator must not have exited yet.
    if validator.exit_epoch != spec.far_future_epoch {
        return Err(ExitValidationError::Invalid(ExitInvalid::AlreadyExited(
            exit.validator_index,
        )));
    }

    // The validator must not have initiated an exit yet.
    if validator.initiated_exit {
        return Err(ExitValidationError::Invalid(ExitInvalid::AlreadyInitiatedExited(
            exit.validator_index,
        )));
    }

    // Exits specify the epoch from which they are valid.
    if !(time_independent_only || current_epoch >= exit.epoch) {
        return Err(ExitValidationError::Invalid(
            ExitInvalid::FutureEpoch { state: current_epoch, exit: exit.epoch },
        ));
    }

    // The validator must have been in the set long enough.
    let lifespan = if current_epoch >= validator.activation_epoch {
        current_epoch - validator.activation_epoch
    } else {
        0
    };
    if lifespan < spec.persistent_committee_period {
        return Err(ExitValidationError::Invalid(
            ExitInvalid::TooYoungToLeave {
                lifespan,
                expected: spec.persistent_committee_period,
            },
        ));
    }

    // The exit must carry the validator's signature over its message.
    let message = exit_message(exit);
    let domain = spec.get_domain(exit.epoch, Domain::Exit);
    let pk = crate::bls::PublicKey { val: validator.pubkey };
    if !crate::bls::verify(&pk, message, domain, exit.signature) {
        return Err(ExitValidationError::Invalid(ExitInvalid::BadSignature));
    }

    Ok(())
}

/// Indicates if an exit is valid to be included in a block in the current
/// epoch of the given state; the error names the first failed gate.
pub fn verify_exit(state: &BeaconState, exit: &VoluntaryExit, spec: &ChainSpec) -> (r: Result<
    (),
    ExitValidationError,
>)
    requires
        spec.wf(),
    ensures
        r == spec_verify_exit(state@, *exit, *spec, false),
{
    verify_exit_parametric(state, exit, spec, false)
}

/// Like `verify_exit` but doesn't run checks which may become true in future
/// states.
pub fn verify_exit_time_independent_only(
    state: &BeaconState,
    exit: &VoluntaryExit,
    spec: &ChainSpec,
) -> (r: Result<(), ExitValidationError>)
    requires
        spec.wf(),
    ensures
        r == spec_verify_exit(state@, *exit, *spec, true),
{
    verify_exit_parametric(state, exit, spec, true)
}

} // verus!

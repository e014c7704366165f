//! The state-transition engine: the per-slot transition with its history
//! caching, the modelled epoch rotation, and the per-block application.

use vstd::prelude::*;

use crate::block::{
    spec_block_root, spec_body_root, spec_header_root, BeaconBlock, BlockView,
};
use crate::bls::spec_verify;
use crate::chain_spec::{spec_slot_to_epoch, ChainSpec};
use crate::roots::mix;
use crate::state::{spec_state_root, BeaconState, BeaconStateError, StateView};
use crate::types::{Attestation, BeaconBlockHeader, Deposit, PendingAttestation, Validator, VoluntaryExit};
use crate::verify_exit::{
    spec_verify_exit, verify_exit, ExitInvalid, ExitValidationError,
};

verus! {

/// A failure surfaced by the epoch-transition procedure.
#[derive(Clone, Copy, PartialEq, Eq, Structural, Debug)]
pub enum EpochProcessingError {
    /// A state-level lookup failed during epoch processing.
    BeaconStateError(BeaconStateError),
}

/// A failure of the per-slot transition.
#[derive(Clone, Copy, PartialEq, Eq, Structural, Debug)]
pub enum Error {
    /// A ring-buffer index fell outside the retained history window.
    BeaconStateError(BeaconStateError),
    /// The epoch-transition procedure failed.
    EpochProcessingError(EpochProcessingError),
}

/// Why a block could not be applied to a state.
#[derive(Clone, Copy, PartialEq, Eq, Structural, Debug)]
pub enum BlockInvalid {
    /// The block's slot is not the state's slot.
    StateSlotMismatch,
    /// The block does not reference the state's latest header as parent.
    ParentBlockRootMismatch,
    /// The proposer's signature does not verify.
    BadProposerSignature,
    /// A carried exit is invalid.
    ExitInvalid(ExitInvalid),
}

/// The outcome of applying a block's body to a state.
#[derive(Clone, Copy, PartialEq, Eq, Structural, Debug)]
pub enum BlockProcessingError {
    /// The block is objectively invalid for the stated reason.
    Invalid(BlockInvalid),
    /// A state-level lookup failed; this does not condemn the block.
    BeaconStateError(BeaconStateError),
}

// ---------------------------------------------------------------------------
// Per-slot transition.
// ---------------------------------------------------------------------------
/// The state after caching the pre-transition roots: the state's own root is
/// written into the state-root ring at the current slot; a zero state-root
/// placeholder in the latest header is backfilled with that root; the
/// (possibly backfilled) header's root is written into the block-root ring.
pub open spec fn spec_cache_state(s: StateView, cspec: ChainSpec) -> StateView {
    let root = spec_state_root(s);
    let header = if s.latest_block_header.state_root == cspec.zero_hash {
        BeaconBlockHeader { state_root: root, ..s.latest_block_header }
    } else {
        s.latest_block_header
    };
    StateView {
        latest_block_header: header,
        latest_state_roots: s.latest_state_roots.update(StateView::ring_index(s.slot), root),
        latest_block_roots: s.latest_block_roots.update(
            StateView::ring_index(s.slot),
            spec_header_root(header),
        ),
        ..s
    }
}

/// The modelled epoch transition: justification markers rotate and the
/// collected epoch attestations are cleared.
pub open spec fn spec_epoch_rotate(s: StateView) -> StateView {
    StateView {
        previous_justified_epoch: s.current_justified_epoch,
        previous_justified_root: s.current_justified_root,
        current_epoch_attestations: Seq::<PendingAttestation>::empty(),
        ..s
    }
}

/// The state one per-slot transition produces: roots cached, the epoch
/// rotation run when the new slot starts an epoch, and the slot advanced.
pub open spec fn spec_per_slot(s: StateView, cspec: ChainSpec) -> StateView
    recommends
        s.slot < u64::MAX,
        cspec.wf(),
{
    let c = spec_cache_state(s, cspec);
    let e = if ((s.slot + 1) as u64) % cspec.slots_per_epoch == 0 {
        spec_epoch_rotate(c)
    } else {
        c
    };
    StateView { slot: (s.slot + 1) as u64, ..e }
}

/// Cache the pre-transition state's roots in the history rings.
fn cache_state(state: &mut BeaconState, spec: &ChainSpec) -> (r: Result<(), Error>)
    requires
        old(state)@.wf(),
        spec.wf(),
        old(state)@.slot < u64::MAX,
    ensures
        r == Ok::<(), Error>(()),
        final(state)@ == spec_cache_state(old(state)@, *spec),
        final(state)@.wf(),
        final(state)@.slot == old(state)@.slot,
{
    let previous_slot_state_root = state.canonical_root();

    // Increment the slot so the ring-buffer setters see the previous slot as
    // inside their window, exactly one behind.
    let previous_slot = state.slot;
    state.slot = state.slot + 1;

    // Backfill a zero state-root placeholder in the latest header: the true
    // post-state root of that block is only known now.
    if state.latest_block_header.state_root == spec.zero_hash {
        state.latest_block_header.state_root = previous_slot_state_root;
    }

    // Store the previous slot's post-state transition root.
    match state.set_state_root(previous_slot, previous_slot_state_root) {
        Ok(()) => (),
        Err(e) => {
            return Err(Error::BeaconStateError(e));
        },
    }

    // Store the previous slot's block root.
    let latest_block_root = state.latest_block_header.canonical_root();
    match state.set_block_root(previous_slot, latest_block_root) {
        Ok(()) => (),
        Err(e) => {
            return Err(Error::BeaconStateError(e));
        },
    }

    // Set the state slot back to what it should be.
    state.slot = state.slot - 1;

    proof {
        assert(state@ =~= spec_cache_state(old(state)@, *spec));
    }
    Ok(())
}

/// The (externally defined) epoch-transition procedure, modelled as the
/// justification rotation of [`spec_epoch_rotate`].
pub fn per_epoch_processing(state: &mut BeaconState, spec: &ChainSpec) -> (r: Result<
    (),
    EpochProcessingError,
>)
    requires
        old(state)@.wf(),
        spec.wf(),
    ensures
        r == Ok::<(), EpochProcessingError>(()),
        final(state)@ == spec_epoch_rotate(old(state)@),
        final(state)@.wf(),
{
    state.previous_justified_epoch = state.current_justified_epoch;
    state.previous_justified_root = state.current_justified_root;
    state.current_epoch_attestations = Vec::new();
    proof {
        assert(state@ =~= spec_epoch_rotate(old(state)@));
    }
    Ok(())
}

/// Advances a state forward by one slot, performing per-epoch processing if
/// required.
pub fn per_slot_processing(state: &mut BeaconState, spec: &ChainSpec) -> (r: Result<(), Error>)
    requires
        old(state)@.wf(),
        spec.wf(),
        old(state)@.slot < u64::MAX,
    ensures
        r == Ok::<(), Error>(()),
        final(state)@ == spec_per_slot(old(state)@, *spec),
        final(state)@.wf(),
        final(state)@.slot == old(state)@.slot + 1,
{
    match cache_state(state, spec) {
        Ok(()) => (),
        Err(e) => {
            return Err(e);
        },
    }

    if (state.slot + 1) % spec.slots_per_epoch == 0 {
        match per_epoch_processing(state, spec) {
            Ok(()) => (),
            Err(e) => {
                return Err(Error::EpochProcessingError(e));
            },
        }
    }

    state.slot = state.slot + 1;

    proof {
        assert(state@ =~= spec_per_slot(old(state)@, *spec));
    }
    Ok(())
}

/// The state after `n` per-slot transitions.
pub open spec fn spec_advance_n(s: StateView, cspec: ChainSpec, n: nat) -> StateView
    decreases n,
{
    if n == 0 {
        s
    } else {
        spec_advance_n(spec_per_slot(s, cspec), cspec, (n - 1) as nat)
    }
}

/// The state advanced slot by slot until it reaches `target`; a state at or
/// past `target` is left alone.
pub open spec fn spec_advance_upto(s: StateView, cspec: ChainSpec, target: u64) -> StateView {
    if s.slot < target {
        spec_advance_n(s, cspec, (target - s.slot) as nat)
    } else {
        s
    }
}

/// One per-slot transition preserves well-formedness, advances the slot by
/// one, and records the pre-transition state's root (and its header's root)
/// at the pre-transition slot's ring index.
pub proof fn lemma_per_slot_step(s: StateView, cspec: ChainSpec)
    requires
        s.wf(),
        cspec.wf(),
        s.slot < u64::MAX,
    ensures
        spec_per_slot(s, cspec).wf(),
        spec_per_slot(s, cspec).slot == s.slot + 1,
        spec_per_slot(s, cspec).state_root_at(s.slot) == spec_state_root(s),
        spec_per_slot(s, cspec).slot_in_window(s.slot),
{
    let c = spec_cache_state(s, cspec);
    assert(c.latest_state_roots.len() == s.latest_state_roots.len());
    assert(c.state_root_at(s.slot) == spec_state_root(s));
}

/// Advancing a well-formed state any number of slots preserves
/// well-formedness and adds exactly that many slots.
pub proof fn lemma_advance_n_wf(s: StateView, cspec: ChainSpec, n: nat)
    requires
        s.wf(),
        cspec.wf(),
        s.slot + n <= u64::MAX,
    ensures
        spec_advance_n(s, cspec, n).wf(),
        spec_advance_n(s, cspec, n).slot == s.slot + n,
    decreases n,
{
    if n > 0 {
        lemma_per_slot_step(s, cspec);
        lemma_advance_n_wf(spec_per_slot(s, cspec), cspec, (n - 1) as nat);
    }
}

/// Applying the per-slot transition `n` times from a state at slot `S`
/// yields a state at slot `S + n` whose state-root ring holds, at the ring
/// index of slot `S + n - 1`, the root of the state the first `n - 1`
/// transitions produced.
pub proof fn lemma_round_trip_records_previous_root(s: StateView, cspec: ChainSpec, n: nat)
    requires
        s.wf(),
        cspec.wf(),
        1 <= n,
        s.slot + n <= u64::MAX,
    ensures
        spec_advance_n(s, cspec, n).slot == s.slot + n,
        spec_advance_n(s, cspec, n).state_root_at(spec_advance_n(s, cspec, (n - 1) as nat).slot)
            == spec_state_root(spec_advance_n(s, cspec, (n - 1) as nat)),
    decreases n,
{
    lemma_advance_n_wf(s, cspec, n);
    if n == 1 {
        lemma_per_slot_step(s, cspec);
        assert(spec_advance_n(s, cspec, 1) == spec_per_slot(s, cspec));
        assert(spec_advance_n(s, cspec, 0) == s);
    } else {
        lemma_per_slot_step(s, cspec);
        lemma_round_trip_records_previous_root(spec_per_slot(s, cspec), cspec, (n - 1) as nat);
        assert(spec_advance_n(s, cspec, n) == spec_advance_n(
            spec_per_slot(s, cspec),
            cspec,
            (n - 1) as nat,
        ));
        assert(spec_advance_n(s, cspec, (n - 1) as nat) == spec_advance_n(
            spec_per_slot(s, cspec),
            cspec,
            (n - 2) as nat,
        ));
    }
}

/// Advance a state slot by slot until its slot reaches `target`; a state at
/// or past `target` is left alone.
#[verifier::loop_isolation(false)]
pub fn advance_state(state: &mut BeaconState, spec: &ChainSpec, target: u64) -> (r: Result<
    (),
    Error,
>)
    requires
        old(state)@.wf(),
        spec.wf(),
    ensures
        r == Ok::<(), Error>(()),
        final(state)@ == spec_advance_upto(old(state)@, *spec, target),
        final(state)@.wf(),
        final(state)@.slot == (if old(state)@.slot < target {
            target
        } else {
            old(state)@.slot
        }),
{
    while state.slot < target
        invariant
            state@.wf(),
            old(state)@.slot < target ==> state@.slot <= target && spec_advance_n(
                state@,
                *spec,
                (target - state@.slot) as nat,
            ) == spec_advance_n(old(state)@, *spec, (target - old(state)@.slot) as nat),
            old(state)@.slot >= target ==> state@ == old(state)@,
        decreases target - state.slot,
    {
        let ghost prev = state@;
        match per_slot_processing(state, spec) {
            Ok(()) => (),
            Err(e) => {
                return Err(e);
            },
        }
        proof {
            assert(spec_advance_n(prev, *spec, (target - prev.slot) as nat) == spec_advance_n(
                spec_per_slot(prev, *spec),
                *spec,
                (target - prev.slot - 1) as nat,
            ));
        }
    }
    Ok(())
}

// ---------------------------------------------------------------------------
// Per-block application.
// ---------------------------------------------------------------------------
/// The pending attestation a block inclusion creates.
pub open spec fn spec_pending_of(a: Attestation, inclusion_slot: u64) -> PendingAttestation {
    PendingAttestation {
        aggregation_bitfield: a.aggregation_bitfield,
        data: a.data,
        custody_bitfield: a.custody_bitfield,
        inclusion_slot,
    }
}

/// The state after the block's header is processed: the parent linkage and
/// (when asked) the proposer signature are checked, the latest header is
/// replaced by the block's placeholder header, and the randao contribution
/// is mixed in.
pub open spec fn spec_process_header(
    s: StateView,
    b: BlockView,
    cspec: ChainSpec,
    check_sig: bool,
) -> Result<StateView, BlockProcessingError> {
    if b.slot != s.slot {
        Err(BlockProcessingError::Invalid(BlockInvalid::StateSlotMismatch))
    } else if b.previous_block_root != spec_header_root(s.latest_block_header) {
        Err(BlockProcessingError::Invalid(BlockInvalid::ParentBlockRootMismatch))
    } else if check_sig && s.validator_registry.len() == 0 {
        Err(BlockProcessingError::BeaconStateError(BeaconStateError::InsufficientValidators))
    } else if check_sig && !spec_verify(
        s.validator_registry[b.slot as int % s.validator_registry.len() as int].pubkey,
        spec_block_root(b),
        cspec.domain_beacon_block,
        b.signature,
    ) {
        Err(BlockProcessingError::Invalid(BlockInvalid::BadProposerSignature))
    } else {
        Ok(
            StateView {
                latest_block_header: BeaconBlockHeader {
                    slot: b.slot,
                    previous_block_root: b.previous_block_root,
                    state_root: cspec.zero_hash,
                    block_body_root: spec_body_root(b.body),
                    signature: cspec.empty_signature,
                },
                randao_mix: mix(s.randao_mix, b.body.randao_reveal),
                ..s
            },
        )
    }
}

/// The state after the block's attestations are collected as pending.
pub open spec fn spec_apply_attestations(s: StateView, atts: Seq<Attestation>) -> StateView
    decreases atts.len(),
{
    if atts.len() == 0 {
        s
    } else {
        let s1 = StateView {
            current_epoch_attestations: s.current_epoch_attestations.push(
                spec_pending_of(atts[0], s.slot),
            ),
            ..s
        };
        spec_apply_attestations(s1, atts.subrange(1, atts.len() as int))
    }
}

/// The validator record a deposit registers.
pub open spec fn spec_validator_of(d: Deposit, s: StateView, cspec: ChainSpec) -> Validator {
    Validator {
        pubkey: d.pubkey,
        activation_epoch: spec_slot_to_epoch(s.slot, cspec.slots_per_epoch),
        exit_epoch: cspec.far_future_epoch,
        initiated_exit: false,
    }
}

/// The state after the block's deposits extend the registry and balances.
pub open spec fn spec_apply_deposits(s: StateView, deps: Seq<Deposit>, cspec: ChainSpec) -> StateView
    decreases deps.len(),
{
    if deps.len() == 0 {
        s
    } else {
        let s1 = StateView {
            validator_registry: s.validator_registry.push(spec_validator_of(deps[0], s, cspec)),
            validator_balances: s.validator_balances.push(deps[0].amount),
            ..s
        };
        spec_apply_deposits(s1, deps.subrange(1, deps.len() as int), cspec)
    }
}

/// The state with the indexed validator's exit initiated.
pub open spec fn spec_initiate_exit(s: StateView, i: int) -> StateView {
    StateView {
        validator_registry: s.validator_registry.update(
            i,
            Validator { initiated_exit: true, ..s.validator_registry[i] },
        ),
        ..s
    }
}

/// The state after the block's exits are validated and applied in order;
/// the first invalid exit decides the error.
pub open spec fn spec_apply_exits(s: StateView, exits: Seq<VoluntaryExit>, cspec: ChainSpec) -> Result<
    StateView,
    ExitValidationError,
>
    decreases exits.len(),
{
    if exits.len() == 0 {
        Ok(s)
    } else {
        match spec_verify_exit(s, exits[0], cspec, false) {
            Err(e) => Err(e),
            Ok(()) => spec_apply_exits(
                spec_initiate_exit(s, exits[0].validator_index as int),
                exits.subrange(1, exits.len() as int),
                cspec,
            ),
        }
    }
}

/// The outcome the per-block application owes: the header gates first, then
/// attestations, deposits and exits applied in order.
pub open spec fn spec_per_block(
    s: StateView,
    b: BlockView,
    cspec: ChainSpec,
    check_sig: bool,
) -> Result<StateView, BlockProcessingError> {
    match spec_process_header(s, b, cspec, check_sig) {
        Err(e) => Err(e),
        Ok(s1) => {
            let s2 = spec_apply_attestations(s1, b.body.attestations);
            let s3 = spec_apply_deposits(s2, b.body.deposits, cspec);
            match spec_apply_exits(s3, b.body.voluntary_exits, cspec) {
                Err(ExitValidationError::Invalid(reason)) => Err(
                    BlockProcessingError::Invalid(BlockInvalid::ExitInvalid(reason)),
                ),
                Ok(s4) => Ok(s4),
            }
        },
    }
}

/// Apply a block to a state. On success the state is exactly the one
/// [`spec_per_block`] describes; on failure the error is that of the first
/// failed gate and the state is left in a well-formed intermediate form that
/// callers discard.
#[verifier::loop_isolation(false)]
fn per_block_processing_core(
    state: &mut BeaconState,
    block: &BeaconBlock,
    spec: &ChainSpec,
    check_sig: bool,
) -> (r: Result<(), BlockProcessingError>)
    requires
        old(state)@.wf(),
        spec.wf(),
    ensures
        final(state)@.wf(),
        final(state)@.slot == old(state)@.slot,
        spec_per_block(old(state)@, block@, *spec, check_sig) is Ok ==> r == Ok::<
            (),
            BlockProcessingError,
        >(()) && final(state)@ == spec_per_block(old(state)@, block@, *spec, check_sig)->Ok_0,
        spec_per_block(old(state)@, block@, *spec, check_sig) is Err ==> r == Err::<
            (),
            BlockProcessingError,
        >(spec_per_block(old(state)@, block@, *spec, check_sig)->Err_0),
{
    // Header gates.
    if block.slot != state.slot {
        return Err(BlockProcessingError::Invalid(BlockInvalid::StateSlotMismatch));
    }
    let parent_root = state.latest_block_header.canonical_root();
    if block.previous_block_root != parent_root {
        return Err(BlockProcessingError::Invalid(BlockInvalid::ParentBlockRootMismatch));
    }
    if check_sig {
        let proposer_index = match state.get_beacon_proposer_index(block.slot) {
            Ok(i) => i,
            Err(e) => {
                return Err(BlockProcessingError::BeaconStateError(e));
            },
        };
        let proposer = state.validator_registry[proposer_index];
        let message = block.canonical_root();
        let pk = crate::bls::PublicKey { val: proposer.pubkey };
        if !crate::bls::verify(&pk, message, spec.domain_beacon_block, block.signature) {
            return Err(BlockProcessingError::Invalid(BlockInvalid::BadProposerSignature));
        }
    }
    state.latest_block_header = block.temporary_block_header(spec);
    state.randao_mix = crate::roots::mix_word(state.randao_mix, block.body.randao_reveal);

    let ghost s1 = spec_process_header(old(state)@, block@, *spec, check_sig)->Ok_0;
    proof {
        assert(spec_process_header(old(state)@, block@, *spec, check_sig) is Ok);
        assert(state@ =~= s1);
    }

    // Collect the attestations as pending.
    let ghost s2 = spec_apply_attestations(s1, block@.body.attestations);
    let mut i: usize = 0;
    proof {
        assert(block@.body.attestations.subrange(0, block@.body.attestations.len() as int)
            =~= block@.body.attestations);
    }
    while i < block.body.attestations.len()
        invariant
            0 <= i <= block.body.attestations.len(),
            state@.wf(),
            state@.slot == s1.slot,
            spec_apply_attestations(
                state@,
                block@.body.attestations.subrange(i as int, block@.body.attestations.len() as int),
            ) == s2,
        decreases block.body.attestations.len() - i,
    {
        let ghost tail = block@.body.attestations.subrange(
            i as int,
            block@.body.attestations.len() as int,
        );
        let a = block.body.attestations[i];
        let pending = PendingAttestation::from_attestation(&a, state.slot);
        let ghost before = state@;
        state.current_epoch_attestations.push(pending);
        proof {
            assert(state@ =~= (StateView {
                current_epoch_attestations: before.current_epoch_attestations.push(
                    spec_pending_of(tail[0], before.slot),
                ),
                ..before
            }));
            assert(tail.subrange(1, tail.len() as int) =~= block@.body.attestations.subrange(
                i as int + 1,
                block@.body.attestations.len() as int,
            ));
        }
        i = i + 1;
    }
    proof {
        assert(block@.body.attestations.subrange(
            block@.body.attestations.len() as int,
            block@.body.attestations.len() as int,
        ) =~= Seq::<Attestation>::empty());
        assert(state@ == s2);
    }

    // Register the deposits.
    let ghost s3 = spec_apply_deposits(s2, block@.body.deposits, *spec);
    let mut j: usize = 0;
    proof {
        assert(block@.body.deposits.subrange(0, block@.body.deposits.len() as int) =~= block@
            .body.deposits);
    }
    while j < block.body.deposits.len()
        invariant
            0 <= j <= block.body.deposits.len(),
            state@.wf(),
            state@.slot == s2.slot,
            spec.wf(),
            spec_apply_deposits(
                state@,
                block@.body.deposits.subrange(j as int, block@.body.deposits.len() as int),
                *spec,
            ) == s3,
        decreases block.body.deposits.len() - j,
    {
        let ghost tail = block@.body.deposits.subrange(
            j as int,
            block@.body.deposits.len() as int,
        );
        let d = block.body.deposits[j];
        let epoch = state.current_epoch(spec);
        let ghost before = state@;
        state.validator_registry.push(
            Validator {
                pubkey: d.pubkey,
                activation_epoch: epoch,
                exit_epoch: spec.far_future_epoch,
                initiated_exit: false,
            },
        );
        state.validator_balances.push(d.amount);
        proof {
            assert(state@ =~= (StateView {
                validator_registry: before.validator_registry.push(
                    spec_validator_of(tail[0], before, *spec),
                ),
                validator_balances: before.validator_balances.push(tail[0].amount),
                ..before
            }));
            assert(tail.subrange(1, tail.len() as int) =~= block@.body.deposits.subrange(
                j as int + 1,
                block@.body.deposits.len() as int,
            ));
        }
        j = j + 1;
    }
    proof {
        assert(block@.body.deposits.subrange(
            block@.body.deposits.len() as int,
            block@.body.deposits.len() as int,
        ) =~= Seq::<Deposit>::empty());
        assert(state@ == s3);
    }

    // Validate and apply the exits in order.
    let mut k: usize = 0;
    proof {
        assert(block@.body.voluntary_exits.subrange(
            0,
            block@.body.voluntary_exits.len() as int,
        ) =~= block@.body.voluntary_exits);
    }
    while k < block.body.voluntary_exits.len()
        invariant
            0 <= k <= block.body.voluntary_exits.len(),
            state@.wf(),
            state@.slot == s3.slot,
            spec.wf(),
            spec_apply_exits(
                state@,
                block@.body.voluntary_exits.subrange(
                    k as int,
                    block@.body.voluntary_exits.len() as int,
                ),
                *spec,
            ) == spec_apply_exits(s3, block@.body.voluntary_exits, *spec),
        decreases block.body.voluntary_exits.len() - k,
    {
        let ghost tail = block@.body.voluntary_exits.subrange(
            k as int,
            block@.body.voluntary_exits.len() as int,
        );
        let e = block.body.voluntary_exits[k];
        match verify_exit(state, &e, spec) {
            Err(ExitValidationError::Invalid(reason)) => {
                proof {
                    assert(tail[0] == e);
                    assert(spec_apply_exits(state@, tail, *spec) == Err::<
                        StateView,
                        ExitValidationError,
                    >(ExitValidationError::Invalid(reason)));
                    assert(spec_apply_exits(s3, block@.body.voluntary_exits, *spec) == Err::<
                        StateView,
                        ExitValidationError,
                    >(ExitValidationError::Invalid(reason)));
                    assert(spec_per_block(old(state)@, block@, *spec, check_sig) == Err::<
                        StateView,
                        BlockProcessingError,
                    >(BlockProcessingError::Invalid(BlockInvalid::ExitInvalid(reason))));
                }
                return Err(BlockProcessingError::Invalid(BlockInvalid::ExitInvalid(reason)));
            },
            Ok(()) => (),
        }
        let registry_len = state.validator_registry.len();
        proof {
            assert(spec_verify_exit(state@, e, *spec, false) is Ok);
            assert(e.validator_index < registry_len);
        }
        let idx = e.validator_index as usize;
        let mut v = state.validator_registry[idx];
        v.initiated_exit = true;
        let ghost before = state@;
        state.validator_registry.set(idx, v);
        proof {
            assert(state@ =~= spec_initiate_exit(before, tail[0].validator_index as int));
            assert(tail.subrange(1, tail.len() as int) =~= block@.body.voluntary_exits.subrange(
                k as int + 1,
                block@.body.voluntary_exits.len() as int,
            ));
        }
        k = k + 1;
    }
    proof {
        assert(block@.body.voluntary_exits.subrange(
            block@.body.voluntary_exits.len() as int,
            block@.body.voluntary_exits.len() as int,
        ) =~= Seq::<VoluntaryExit>::empty());
    }

    Ok(())
}

/// Apply a block to a state, verifying the proposer signature.
pub fn per_block_processing(state: &mut BeaconState, block: &BeaconBlock, spec: &ChainSpec) -> (r:
    Result<(), BlockProcessingError>)
    requires
        old(state)@.wf(),
        spec.wf(),
    ensures
        final(state)@.wf(),
        final(state)@.slot == old(state)@.slot,
        spec_per_block(old(state)@, block@, *spec, true) is Ok ==> r == Ok::<
            (),
            BlockProcessingError,
        >(()) && final(state)@ == spec_per_block(old(state)@, block@, *spec, true)->Ok_0,
        spec_per_block(old(state)@, block@, *spec, true) is Err ==> r == Err::<
            (),
            BlockProcessingError,
        >(spec_per_block(old(state)@, block@, *spec, true)->Err_0),
{
    per_block_processing_core(state, block, spec, true)
}

/// Apply a block to a state without checking the proposer signature; block
/// production uses this before the real signature exists.
pub fn per_block_processing_without_verifying_block_signature(
    state: &mut BeaconState,
    block: &BeaconBlock,
    spec: &ChainSpec,
) -> (r: Result<(), BlockProcessingError>)
    requires
        old(state)@.wf(),
        spec.wf(),
    ensures
        final(state)@.wf(),
        final(state)@.slot == old(state)@.slot,
        spec_per_block(old(state)@, block@, *spec, false) is Ok ==> r == Ok::<
            (),
            BlockProcessingError,
        >(()) && final(state)@ == spec_per_block(old(state)@, block@, *spec, false)->Ok_0,
        spec_per_block(old(state)@, block@, *spec, false) is Err ==> r == Err::<
            (),
            BlockProcessingError,
        >(spec_per_block(old(state)@, block@, *spec, false)->Err_0),
{
    per_block_processing_core(state, block, spec, false)
}

} // verus!

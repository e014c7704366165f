//! The state: a versioned snapshot of all validator and protocol data at a
//! given slot, with its historical-root ring buffers and its canonical root.

use vstd::prelude::*;

use crate::block::{attestation_data_words, header_words};
use crate::chain_spec::{spec_slot_to_epoch, ChainSpec};
use crate::roots::{
    fold_words, fold_words_vec, lemma_words_of_take_step, words_of, STATE_TAG,
};
use crate::types::{BeaconBlockHeader, Crosslink, PendingAttestation, Validator};
use crate::SLOTS_PER_HISTORICAL_ROOT;

verus! {

/// Faults raised by state-level lookups and updates.
#[derive(Clone, Copy, PartialEq, Eq, Structural, Debug)]
pub enum BeaconStateError {
    /// A requested slot lies outside the retained history window.
    SlotOutOfBounds,
    /// A validator index does not exist in the registry.
    UnknownValidator,
    /// The registry is empty, so no proposer can be chosen.
    InsufficientValidators,
}

/// The words of a validator record.
pub open spec fn validator_words(v: Validator) -> Seq<u64> {
    seq![
        v.pubkey,
        v.activation_epoch,
        v.exit_epoch,
        if v.initiated_exit {
            1u64
        } else {
            0u64
        },
    ]
}

/// The words of a crosslink record.
pub open spec fn crosslink_words(c: Crosslink) -> Seq<u64> {
    seq![c.epoch, c.crosslink_data_root]
}

/// The words of a pending attestation.
pub open spec fn pending_attestation_words(p: PendingAttestation) -> Seq<u64> {
    seq![p.aggregation_bitfield] + attestation_data_words(p.data) + seq![
        p.custody_bitfield,
        p.inclusion_slot,
    ]
}

/// The state of the chain at one slot.
#[derive(Debug, PartialEq)]
pub struct BeaconState {
    pub slot: u64,
    pub genesis_time: u64,
    pub fork_version: u64,
    pub validator_registry: Vec<Validator>,
    pub validator_balances: Vec<u64>,
    pub latest_block_header: BeaconBlockHeader,
    pub latest_block_roots: Vec<u64>,
    pub latest_state_roots: Vec<u64>,
    pub latest_crosslinks: Vec<Crosslink>,
    pub previous_justified_epoch: u64,
    pub current_justified_epoch: u64,
    pub previous_justified_root: u64,
    pub current_justified_root: u64,
    pub finalized_epoch: u64,
    pub finalized_root: u64,
    pub randao_mix: u64,
    pub current_epoch_attestations: Vec<PendingAttestation>,
}

/// The mathematical content of a state.
#[verifier::ext_equal]
pub ghost struct StateView {
    pub slot: u64,
    pub genesis_time: u64,
    pub fork_version: u64,
    pub validator_registry: Seq<Validator>,
    pub validator_balances: Seq<u64>,
    pub latest_block_header: BeaconBlockHeader,
    pub latest_block_roots: Seq<u64>,
    pub latest_state_roots: Seq<u64>,
    pub latest_crosslinks: Seq<Crosslink>,
    pub previous_justified_epoch: u64,
    pub current_justified_epoch: u64,
    pub previous_justified_root: u64,
    pub current_justified_root: u64,
    pub finalized_epoch: u64,
    pub finalized_root: u64,
    pub randao_mix: u64,
    pub current_epoch_attestations: Seq<PendingAttestation>,
}

impl View for BeaconState {
    type V = StateView;

    open spec fn view(&self) -> StateView {
        StateView {
            slot: self.slot,
            genesis_time: self.genesis_time,
            fork_version: self.fork_version,
            validator_registry: self.validator_registry@,
            validator_balances: self.validator_balances@,
            latest_block_header: self.latest_block_header,
            latest_block_roots: self.latest_block_roots@,
            latest_state_roots: self.latest_state_roots@,
            latest_crosslinks: self.latest_crosslinks@,
            previous_justified_epoch: self.previous_justified_epoch,
            current_justified_epoch: self.current_justified_epoch,
            previous_justified_root: self.previous_justified_root,
            current_justified_root: self.current_justified_root,
            finalized_epoch: self.finalized_epoch,
            finalized_root: self.finalized_root,
            randao_mix: self.randao_mix,
            current_epoch_attestations: self.current_epoch_attestations@,
        }
    }
}

impl StateView {
    /// Well-formedness: full-size root rings and one balance per validator.
    pub open spec fn wf(self) -> bool {
        &&& self.latest_block_roots.len() == SLOTS_PER_HISTORICAL_ROOT
        &&& self.latest_state_roots.len() == SLOTS_PER_HISTORICAL_ROOT
        &&& self.validator_balances.len() == self.validator_registry.len()
    }

    /// Whether `slot` falls inside the history window retained by a state at
    /// slot `self.slot`: strictly before the state's slot and no more than a
    /// ring length behind it.
    pub open spec fn slot_in_window(self, slot: u64) -> bool {
        &&& slot < self.slot
        &&& self.slot <= slot + SLOTS_PER_HISTORICAL_ROOT
    }

    /// The ring index a slot is stored at.
    pub open spec fn ring_index(slot: u64) -> int {
        (slot % SLOTS_PER_HISTORICAL_ROOT) as int
    }

    /// The block root recorded for `slot`.
    pub open spec fn block_root_at(self, slot: u64) -> u64 {
        self.latest_block_roots[Self::ring_index(slot)]
    }

    /// The state root recorded for `slot`.
    pub open spec fn state_root_at(self, slot: u64) -> u64 {
        self.latest_state_roots[Self::ring_index(slot)]
    }
}

/// The words of a state.
pub open spec fn state_words(s: StateView) -> Seq<u64> {
    seq![s.slot, s.genesis_time, s.fork_version] + words_of(
        s.validator_registry,
        |v: Validator| validator_words(v),
    ) + s.validator_balances + header_words(s.latest_block_header) + s.latest_block_roots
        + s.latest_state_roots + words_of(s.latest_crosslinks, |c: Crosslink| crosslink_words(c))
        + seq![
        s.previous_justified_epoch,
        s.current_justified_epoch,
        s.previous_justified_root,
        s.current_justified_root,
        s.finalized_epoch,
        s.finalized_root,
        s.randao_mix,
    ] + words_of(s.current_epoch_attestations, |p: PendingAttestation| pending_attestation_words(p))
}

/// The canonical root of a state.
pub open spec fn spec_state_root(s: StateView) -> u64 {
    fold_words(STATE_TAG, state_words(s))
}

/// Append the words of every validator in the registry.
pub fn push_validator_list_words(out: &mut Vec<u64>, v: &Vec<Validator>)
    ensures
        final(out)@ == old(out)@ + words_of(v@, |x: Validator| validator_words(x)),
{
    let ghost f = |x: Validator| validator_words(x);
    let mut i: usize = 0;
    proof {
        assert(v@.subrange(0, 0) =~= Seq::<Validator>::empty());
        assert(out@ =~= old(out)@ + words_of(v@.subrange(0, 0), f));
    }
    while i < v.len()
        invariant
            0 <= i <= v.len(),
            out@ == old(out)@ + words_of(v@.subrange(0, i as int), f),
            f == (|x: Validator| validator_words(x)),
        decreases v.len() - i,
    {
        let x = v[i];
        out.push(x.pubkey);
        out.push(x.activation_epoch);
        out.push(x.exit_epoch);
        out.push(if x.initiated_exit { 1 } else { 0 });
        proof {
            lemma_words_of_take_step(v@, f, i as int);
            assert(out@ =~= old(out)@ + words_of(v@.subrange(0, i as int), f) + f(v@[i as int]));
            assert(out@ =~= old(out)@ + words_of(v@.subrange(0, i as int + 1), f));
        }
        i = i + 1;
    }
    proof {
        assert(v@.subrange(0, v@.len() as int) =~= v@);
    }
}

/// Append the words of every crosslink in the list.
pub fn push_crosslink_list_words(out: &mut Vec<u64>, v: &Vec<Crosslink>)
    ensures
        final(out)@ == old(out)@ + words_of(v@, |c: Crosslink| crosslink_words(c)),
{
    let ghost f = |c: Crosslink| crosslink_words(c);
    let mut i: usize = 0;
    proof {
        assert(v@.subrange(0, 0) =~= Seq::<Crosslink>::empty());
        assert(out@ =~= old(out)@ + words_of(v@.subrange(0, 0), f));
    }
    while i < v.len()
        invariant
            0 <= i <= v.len(),
            out@ == old(out)@ + words_of(v@.subrange(0, i as int), f),
            f == (|c: Crosslink| crosslink_words(c)),
        decreases v.len() - i,
    {
        let c = v[i];
        out.push(c.epoch);
        out.push(c.crosslink_data_root);
        proof {
            lemma_words_of_take_step(v@, f, i as int);
            assert(out@ =~= old(out)@ + words_of(v@.subrange(0, i as int), f) + f(v@[i as int]));
            assert(out@ =~= old(out)@ + words_of(v@.subrange(0, i as int + 1), f));
        }
        i = i + 1;
    }
    proof {
        assert(v@.subrange(0, v@.len() as int) =~= v@);
    }
}

/// Append the words of every pending attestation in the list.
pub fn push_pending_attestation_list_words(out: &mut Vec<u64>, v: &Vec<PendingAttestation>)
    ensures
        final(out)@ == old(out)@ + words_of(
            v@,
            |p: PendingAttestation| pending_attestation_words(p),
        ),
{
    let ghost f = |p: PendingAttestation| pending_attestation_words(p);
    let mut i: usize = 0;
    proof {
        assert(v@.subrange(0, 0) =~= Seq::<PendingAttestation>::empty());
        assert(out@ =~= old(out)@ + words_of(v@.subrange(0, 0), f));
    }
    while i < v.len()
        invariant
            0 <= i <= v.len(),
            out@ == old(out)@ + words_of(v@.subrange(0, i as int), f),
            f == (|p: PendingAttestation| pending_attestation_words(p)),
        decreases v.len() - i,
    {
        let p = v[i];
        out.push(p.aggregation_bitfield);
        crate::block::push_attestation_data_words(out, &p.data);
        out.push(p.custody_bitfield);
        out.push(p.inclusion_slot);
        proof {
            lemma_words_of_take_step(v@, f, i as int);
            assert(out@ =~= old(out)@ + words_of(v@.subrange(0, i as int), f) + f(v@[i as int]));
            assert(out@ =~= old(out)@ + words_of(v@.subrange(0, i as int + 1), f));
        }
        i = i + 1;
    }
    proof {
        assert(v@.subrange(0, v@.len() as int) =~= v@);
    }
}

/// Append every word of the list itself.
pub fn push_u64_list_words(out: &mut Vec<u64>, v: &Vec<u64>)
    ensures
        final(out)@ == old(out)@ + v@,
{
    let mut i: usize = 0;
    proof {
        assert(out@ =~= old(out)@ + v@.subrange(0, 0));
    }
    while i < v.len()
        invariant
            0 <= i <= v.len(),
            out@ == old(out)@ + v@.subrange(0, i as int),
        decreases v.len() - i,
    {
        out.push(v[i]);
        proof {
            assert(out@ =~= old(out)@ + v@.subrange(0, i as int + 1));
        }
        i = i + 1;
    }
    proof {
        assert(v@.subrange(0, v@.len() as int) =~= v@);
    }
}

impl BeaconState {
    /// The state at genesis: an empty registry, zeroed root rings, and the
    /// placeholder header.
    pub fn genesis(spec: &ChainSpec, genesis_time: u64, latest_block_header: BeaconBlockHeader) -> (
        r: BeaconState)
        ensures
            r@.wf(),
            r@.slot == spec.genesis_slot,
            r@.genesis_time == genesis_time,
            r@.latest_block_header == latest_block_header,
            r@.validator_registry.len() == 0,
            r@.current_epoch_attestations.len() == 0,
            forall|i: int|
                0 <= i < SLOTS_PER_HISTORICAL_ROOT ==> r@.latest_block_roots[i] == spec.zero_hash
                    && r@.latest_state_roots[i] == spec.zero_hash,
    {
        let mut block_roots: Vec<u64> = Vec::new();
        let mut state_roots: Vec<u64> = Vec::new();
        let mut i: u64 = 0;
        while i < SLOTS_PER_HISTORICAL_ROOT
            invariant
                0 <= i <= SLOTS_PER_HISTORICAL_ROOT,
                block_roots@.len() == i,
                state_roots@.len() == i,
                forall|j: int|
                    0 <= j < i ==> block_roots@[j] == spec.zero_hash && state_roots@[j]
                        == spec.zero_hash,
            decreases SLOTS_PER_HISTORICAL_ROOT - i,
        {
            block_roots.push(spec.zero_hash);
            state_roots.push(spec.zero_hash);
            i = i + 1;
        }
        BeaconState {
            slot: spec.genesis_slot,
            genesis_time,
            fork_version: 0,
            validator_registry: Vec::new(),
            validator_balances: Vec::new(),
            latest_block_header,
            latest_block_roots: block_roots,
            latest_state_roots: state_roots,
            latest_crosslinks: Vec::new(),
            previous_justified_epoch: 0,
            current_justified_epoch: 0,
            previous_justified_root: spec.zero_hash,
            current_justified_root: spec.zero_hash,
            finalized_epoch: 0,
            finalized_root: spec.zero_hash,
            randao_mix: 0,
            current_epoch_attestations: Vec::new(),
        }
    }

    /// The epoch the state's slot falls in.
    pub fn current_epoch(&self, spec: &ChainSpec) -> (r: u64)
        requires
            spec.wf(),
        ensures
            r == spec_slot_to_epoch(self@.slot, spec.slots_per_epoch),
    {
        self.slot / spec.slots_per_epoch
    }

    /// The block root recorded for `slot`; `SlotOutOfBounds` when the slot
    /// lies outside the retained window.
    pub fn get_block_root(&self, slot: u64) -> (r: Result<u64, BeaconStateError>)
        requires
            self@.wf(),
        ensures
            self@.slot_in_window(slot) ==> r == Ok::<u64, BeaconStateError>(self@.block_root_at(
                slot,
            )),
            !self@.slot_in_window(slot) ==> r == Err::<u64, BeaconStateError>(
                BeaconStateError::SlotOutOfBounds,
            ),
    {
        if slot < self.slot && self.slot - slot <= SLOTS_PER_HISTORICAL_ROOT {
            let idx = (slot % SLOTS_PER_HISTORICAL_ROOT) as usize;
            Ok(self.latest_block_roots[idx])
        } else {
            Err(BeaconStateError::SlotOutOfBounds)
        }
    }

    /// The state root recorded for `slot`; `SlotOutOfBounds` when the slot
    /// lies outside the retained window.
    pub fn get_state_root(&self, slot: u64) -> (r: Result<u64, BeaconStateError>)
        requires
            self@.wf(),
        ensures
            self@.slot_in_window(slot) ==> r == Ok::<u64, BeaconStateError>(self@.state_root_at(
                slot,
            )),
            !self@.slot_in_window(slot) ==> r == Err::<u64, BeaconStateError>(
                BeaconStateError::SlotOutOfBounds,
            ),
    {
        if slot < self.slot && self.slot - slot <= SLOTS_PER_HISTORICAL_ROOT {
            let idx = (slot % SLOTS_PER_HISTORICAL_ROOT) as usize;
            Ok(self.latest_state_roots[idx])
        } else {
            Err(BeaconStateError::SlotOutOfBounds)
        }
    }

    /// Record a block root for `slot`; `SlotOutOfBounds` when the slot lies
    /// outside the retained window. On failure the state is unchanged.
    pub fn set_block_root(&mut self, slot: u64, root: u64) -> (r: Result<(), BeaconStateError>)
        requires
            old(self)@.wf(),
        ensures
            final(self)@.wf(),
            old(self)@.slot_in_window(slot) ==> r == Ok::<(), BeaconStateError>(()) && final(self)@ == (StateView {
                latest_block_roots: old(self)@.latest_block_roots.update(
                    StateView::ring_index(slot),
                    root,
                ),
                ..old(self)@
            }),
            !old(self)@.slot_in_window(slot) ==> r == Err::<(), BeaconStateError>(
                BeaconStateError::SlotOutOfBounds,
            ) && final(self)@ == old(self)@,
    {
        if slot < self.slot && self.slot - slot <= SLOTS_PER_HISTORICAL_ROOT {
            let idx = (slot % SLOTS_PER_HISTORICAL_ROOT) as usize;
            self.latest_block_roots.set(idx, root);
            proof {
                assert(self@ =~= (StateView {
                    latest_block_roots: old(self)@.latest_block_roots.update(
                        StateView::ring_index(slot),
                        root,
                    ),
                    ..old(self)@
                }));
            }
            Ok(())
        } else {
            Err(BeaconStateError::SlotOutOfBounds)
        }
    }

    /// Record a state root for `slot`; `SlotOutOfBounds` when the slot lies
    /// outside the retained window. On failure the state is unchanged.
    pub fn set_state_root(&mut self, slot: u64, root: u64) -> (r: Result<(), BeaconStateError>)
        requires
            old(self)@.wf(),
        ensures
            final(self)@.wf(),
            old(self)@.slot_in_window(slot) ==> r == Ok::<(), BeaconStateError>(()) && final(self)@ == (StateView {
                latest_state_roots: old(self)@.latest_state_roots.update(
                    StateView::ring_index(slot),
                    root,
                ),
                ..old(self)@
            }),
            !old(self)@.slot_in_window(slot) ==> r == Err::<(), BeaconStateError>(
                BeaconStateError::SlotOutOfBounds,
            ) && final(self)@ == old(self)@,
    {
        if slot < self.slot && self.slot - slot <= SLOTS_PER_HISTORICAL_ROOT {
            let idx = (slot % SLOTS_PER_HISTORICAL_ROOT) as usize;
            self.latest_state_roots.set(idx, root);
            proof {
                assert(self@ =~= (StateView {
                    latest_state_roots: old(self)@.latest_state_roots.update(
                        StateView::ring_index(slot),
                        root,
                    ),
                    ..old(self)@
                }));
            }
            Ok(())
        } else {
            Err(BeaconStateError::SlotOutOfBounds)
        }
    }

    /// The canonical root of the state.
    pub fn canonical_root(&self) -> (r: u64)
        ensures
            r == spec_state_root(self@),
    {
        let mut w: Vec<u64> = Vec::new();
        w.push(self.slot);
        w.push(self.genesis_time);
        w.push(self.fork_version);
        push_validator_list_words(&mut w, &self.validator_registry);
        push_u64_list_words(&mut w, &self.validator_balances);
        crate::block::push_header_words(&mut w, &self.latest_block_header);
        push_u64_list_words(&mut w, &self.latest_block_roots);
        push_u64_list_words(&mut w, &self.latest_state_roots);
        push_crosslink_list_words(&mut w, &self.latest_crosslinks);
        w.push(self.previous_justified_epoch);
        w.push(self.current_justified_epoch);
        w.push(self.previous_justified_root);
        w.push(self.current_justified_root);
        w.push(self.finalized_epoch);
        w.push(self.finalized_root);
        w.push(self.randao_mix);
        push_pending_attestation_list_words(&mut w, &self.current_epoch_attestations);
        proof {
            assert(w@ =~= state_words(self@));
        }
        fold_words_vec(STATE_TAG, &w)
    }

    /// The proposer for a slot: a deterministic round-robin over the
    /// registry. Fails when the registry is empty.
    pub fn get_beacon_proposer_index(&self, slot: u64) -> (r: Result<usize, BeaconStateError>)
        ensures
            self@.validator_registry.len() == 0 ==> r == Err::<usize, BeaconStateError>(
                BeaconStateError::InsufficientValidators,
            ),
            self@.validator_registry.len() > 0 ==> r is Ok && r->Ok_0
                < self@.validator_registry.len() && r->Ok_0 as int == slot as int
                % self@.validator_registry.len() as int,
    {
        if self.validator_registry.len() == 0 {
            Err(BeaconStateError::InsufficientValidators)
        } else {
            let idx = (slot % (self.validator_registry.len() as u64)) as usize;
            proof {
                assert(self.validator_registry@.len() <= usize::MAX);
            }
            Ok(idx)
        }
    }
}

impl Clone for BeaconState {
    /// A clone carries exactly the same content.
    fn clone(&self) -> (r: Self)
        ensures
            r@ == self@,
    {
        let r = BeaconState {
            slot: self.slot,
            genesis_time: self.genesis_time,
            fork_version: self.fork_version,
            validator_registry: crate::clone_copy_vec(&self.validator_registry),
            validator_balances: crate::clone_copy_vec(&self.validator_balances),
            latest_block_header: self.latest_block_header,
            latest_block_roots: crate::clone_copy_vec(&self.latest_block_roots),
            latest_state_roots: crate::clone_copy_vec(&self.latest_state_roots),
            latest_crosslinks: crate::clone_copy_vec(&self.latest_crosslinks),
            previous_justified_epoch: self.previous_justified_epoch,
            current_justified_epoch: self.current_justified_epoch,
            previous_justified_root: self.previous_justified_root,
            current_justified_root: self.current_justified_root,
            finalized_epoch: self.finalized_epoch,
            finalized_root: self.finalized_root,
            randao_mix: self.randao_mix,
            current_epoch_attestations: crate::clone_copy_vec(&self.current_epoch_attestations),
        };
        proof {
            assert(r@ =~= self@);
        }
        r
    }
}

} // verus!

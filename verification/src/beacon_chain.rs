//! The chain orchestrator: owns the canonical and finalized head
//! checkpoints, the working state, the operation pool and the fork-choice
//! instance, and exposes block ingestion, block production and queries.

use vstd::prelude::*;

use crate::block::{spec_block_root, spec_header_root, BeaconBlock, BlockView};
use crate::chain_spec::ChainSpec;
use crate::checkpoint::{CheckPoint, CheckPointView};
use crate::fork_choice::{ForkChoice, ForkChoiceError};
use crate::op_pool::{
    AttestationValidationError, AttesterSlashingValidationError, DepositInsertStatus,
    DepositValidationError, OperationPool, ProposerSlashingValidationError,
    TransferValidationError,
};
use crate::slot_clock::SlotClock;
use crate::state::{spec_state_root, BeaconState, BeaconStateError, StateView};
use crate::store::{as_block, as_state, Store, StoreValue, StoreValueView};
use crate::transition::{spec_per_block, BlockProcessingError, Error};
use crate::types::{
    Attestation, AttesterSlashing, Deposit, ProposerSlashing, Transfer, VoluntaryExit,
};
use crate::verify_exit::ExitValidationError;

verus! {

/// A hard failure of a chain operation: these indicate local corruption or
/// an unavailable collaborator, never a merely invalid block.
#[derive(Clone, Copy, PartialEq, Eq, Structural, Debug)]
pub enum BeaconChainError {
    /// The slot clock reported no slot.
    UnableToReadSlot,
    /// A value the store must hold (by construction) is missing: the root
    /// names it.
    DBInconsistent(u64),
    /// A block referenced by fork choice is not stored.
    MissingBeaconBlock(u64),
    /// A state referenced by fork choice is not stored.
    MissingBeaconState(u64),
    /// The fork-choice procedure failed.
    ForkChoiceError(ForkChoiceError),
    /// A state-level lookup failed.
    BeaconStateError(BeaconStateError),
    /// The per-slot transition failed.
    SlotProcessingError(Error),
}

/// A failure to produce a block.
#[derive(Clone, Copy, PartialEq, Eq, Structural, Debug)]
pub enum BlockProductionError {
    /// The previous block root could not be read from the state.
    UnableToGetBlockRootFromState,
    /// Applying the candidate body to the state failed.
    BlockProcessingError(BlockProcessingError),
    /// A state-level lookup failed.
    BeaconStateError(BeaconStateError),
}

/// The ways a block can be valid.
#[derive(Clone, Copy, PartialEq, Eq, Structural, Debug)]
pub enum ValidBlock {
    /// The block was successfully processed.
    Processed,
}

/// The ways a block can be invalid.
#[derive(Clone, Copy, PartialEq, Eq, Structural, Debug)]
pub enum InvalidBlock {
    /// The block slot is greater than the present slot.
    FutureSlot { present_slot: u64, block_slot: u64 },
    /// The block state-root does not match the generated state.
    StateRootMismatch,
    /// The block's parent root is unknown.
    ParentUnknown,
    /// There was an error whilst advancing the parent state to the block's
    /// slot.
    SlotProcessingError(Error),
    /// The block could not be applied to the state; it is invalid.
    PerBlockProcessingError(BlockProcessingError),
}

/// The outcome of submitting a block to the chain.
#[derive(Clone, Copy, PartialEq, Eq, Structural, Debug)]
pub enum BlockProcessingOutcome {
    /// The block was successfully validated.
    ValidBlock(ValidBlock),
    /// The block was not successfully validated.
    InvalidBlock(InvalidBlock),
}

impl BlockProcessingOutcome {
    /// Whether the outcome is owed for each shape of invalidity: `true`
    /// exactly for the objectively invalid outcomes, where the sender may be
    /// penalized; `false` where the fault may lie with the local node's
    /// missing history.
    pub open spec fn spec_is_invalid(self) -> bool {
        match self {
            BlockProcessingOutcome::ValidBlock(_) => false,
            BlockProcessingOutcome::InvalidBlock(r) => match r {
                InvalidBlock::FutureSlot { .. } => true,
                InvalidBlock::StateRootMismatch => true,
                InvalidBlock::ParentUnknown => false,
                InvalidBlock::SlotProcessingError(_) => false,
                InvalidBlock::PerBlockProcessingError(e) => match e {
                    BlockProcessingError::Invalid(_) => true,
                    BlockProcessingError::BeaconStateError(_) => false,
                },
            },
        }
    }

    /// Returns `true` if the block was objectively invalid and we should
    /// disregard the peer who sent it.
    pub fn is_invalid(&self) -> (r: bool)
        ensures
            r == self.spec_is_invalid(),
    {
        match self {
            BlockProcessingOutcome::ValidBlock(_) => false,
            BlockProcessingOutcome::InvalidBlock(reason) => match reason {
                InvalidBlock::FutureSlot { .. } => true,
                InvalidBlock::StateRootMismatch => true,
                InvalidBlock::ParentUnknown => false,
                InvalidBlock::SlotProcessingError(_) => false,
                InvalidBlock::PerBlockProcessingError(e) => match e {
                    BlockProcessingError::Invalid(_) => true,
                    BlockProcessingError::BeaconStateError(_) => false,
                },
            },
        }
    }

    /// Returns `true` if the block was successfully processed and can be
    /// removed from any import queues or temporary storage.
    pub fn sucessfully_processed(&self) -> (r: bool)
        ensures
            r == (self matches BlockProcessingOutcome::ValidBlock(_)),
    {
        match self {
            BlockProcessingOutcome::ValidBlock(_) => true,
            _ => false,
        }
    }
}

/// The genesis block: the empty body at the genesis slot, no parent, and
/// the given state root.
pub fn genesis_beacon_block(state_root: u64, spec: &ChainSpec) -> (r: BeaconBlock)
    ensures
        r@.slot == spec.genesis_slot,
        r@.previous_block_root == spec.zero_hash,
        r@.state_root == state_root,
        r@.signature == spec.empty_signature,
        r@.body.randao_reveal == 0,
        r@.body.eth1_data == (crate::types::Eth1Data { deposit_root: 0, block_hash: 0 }),
        r@.body.proposer_slashings.len() == 0,
        r@.body.attester_slashings.len() == 0,
        r@.body.attestations.len() == 0,
        r@.body.deposits.len() == 0,
        r@.body.voluntary_exits.len() == 0,
        r@.body.transfers.len() == 0,
{
    BeaconBlock {
        slot: spec.genesis_slot,
        previous_block_root: spec.zero_hash,
        state_root,
        body: crate::block::BeaconBlockBody::empty(
            0,
            crate::types::Eth1Data { deposit_root: 0, block_hash: 0 },
        ),
        signature: spec.empty_signature,
    }
}

/// The genesis block and the genesis state, linked to each other: the
/// state's latest header is the block's placeholder header, and the block's
/// state root is the state's canonical root.
pub fn genesis_block_and_state(spec: &ChainSpec, genesis_time: u64) -> (r: (BeaconBlock, BeaconState))
    ensures
        r.1@.wf(),
        r.1@.slot == spec.genesis_slot,
        r.0@.slot == spec.genesis_slot,
        r.0@.previous_block_root == spec.zero_hash,
        r.0@.state_root == spec_state_root(r.1@),
        r.1@.latest_block_header == (crate::types::BeaconBlockHeader {
            slot: r.0@.slot,
            previous_block_root: r.0@.previous_block_root,
            state_root: spec.zero_hash,
            block_body_root: crate::block::spec_body_root(r.0@.body),
            signature: spec.empty_signature,
        }),
{
    let stub = genesis_beacon_block(spec.zero_hash, spec);
    let header = stub.temporary_block_header(spec);
    let state = BeaconState::genesis(spec, genesis_time, header);
    let state_root = state.canonical_root();
    let block = genesis_beacon_block(state_root, spec);
    proof {
        assert(block@.body =~= stub@.body);
    }
    (block, state)
}

/// The beacon chain: the canonical and finalized heads, the working state,
/// the operation pool and the pluggable collaborators.
pub struct BeaconChain<T, U, F> {
    pub store: T,
    pub slot_clock: U,
    pub op_pool: OperationPool,
    pub canonical_head: CheckPoint,
    pub finalized_head: CheckPoint,
    pub state: BeaconState,
    pub spec: ChainSpec,
    pub fork_choice: F,
    /// The root of the best known header, full block or header-only.
    pub best_header_root: u64,
    /// The slot of the best known header.
    pub best_header_slot: u64,
}

impl<T: Store, U: SlotClock, F: ForkChoice> BeaconChain<T, U, F> {
    /// Well-formedness carried by every chain instance.
    pub open spec fn wf(&self) -> bool {
        &&& self.spec.wf()
        &&& self.state@.wf()
        &&& self.canonical_head@.beacon_state.wf()
        &&& self.finalized_head@.beacon_state.wf()
        &&& self.op_pool.attestations_distinct()
    }

    /// Everything observable about the chain is unchanged between the two
    /// instances.
    pub open spec fn same_chain_state(a: Self, b: Self) -> bool {
        &&& b.store.contents() == a.store.contents()
        &&& b.store.head_root() == a.store.head_root()
        &&& b.canonical_head@ == a.canonical_head@
        &&& b.finalized_head@ == a.finalized_head@
        &&& b.state@ == a.state@
        &&& b.spec == a.spec
        &&& b.fork_choice.blocks() == a.fork_choice.blocks()
        &&& b.best_header_root == a.best_header_root
        &&& b.best_header_slot == a.best_header_slot
        &&& b.op_pool == a.op_pool
    }

    /// Instantiate a chain from genesis, or from what an earlier instance
    /// persisted: the genesis block and state are stored, and if the store
    /// already carries a best-head pointer, the head it names is loaded as
    /// the canonical head in place of genesis.
    ///
    /// A block at any other slot is no genesis: callers must hand in a block
    /// at the genesis slot of the chain specification.
    pub fn from_genesis(
        store: T,
        slot_clock: U,
        genesis_state: BeaconState,
        genesis_block: BeaconBlock,
        spec: ChainSpec,
        fork_choice: F,
    ) -> (r: Result<Self, BeaconChainError>)
        requires
            genesis_state@.wf(),
            spec.wf(),
            genesis_block@.slot == spec.genesis_slot,
            genesis_state@.slot == spec.genesis_slot,
        ensures
            ({
                let sroot = spec_state_root(genesis_state@);
                let broot = spec_block_root(genesis_block@);
                let stored = store.contents().insert(
                    sroot,
                    StoreValueView::State(genesis_state@),
                ).insert(broot, StoreValueView::Block(genesis_block@));
                match store.head_root() {
                    None => r is Ok && ({
                        let ch = r->Ok_0;
                        &&& ch.wf()
                        &&& ch.canonical_head@ == (CheckPointView {
                            beacon_block: genesis_block@,
                            beacon_block_root: broot,
                            beacon_state: genesis_state@,
                            beacon_state_root: sroot,
                        })
                        &&& ch.finalized_head@ == ch.canonical_head@
                        &&& ch.state@ == genesis_state@
                        &&& ch.spec == spec
                        &&& ch.store.contents() == stored
                        &&& ch.store.head_root() == Some(broot)
                        &&& ch.best_header_root == broot
                        &&& ch.best_header_slot == genesis_block@.slot
                        &&& ch.op_pool.attestations@.len() == 0
                        &&& ch.op_pool.deposits@.len() == 0
                        &&& ch.op_pool.voluntary_exits@.len() == 0
                        &&& ch.op_pool.transfers@.len() == 0
                        &&& ch.op_pool.proposer_slashings@.len() == 0
                        &&& ch.op_pool.attester_slashings@.len() == 0
                        &&& ch.slot_clock.current() == slot_clock.current()
                        &&& ch.fork_choice.blocks() == fork_choice.blocks()
                        &&& ch.spec_state_keeps_pace()
                        &&& forall|fuel: nat|
                            spec_ancestor_or_equal(
                                ch.store.contents(),
                                ch.finalized_head@.beacon_block_root,
                                ch.canonical_head@.beacon_block_root,
                                fuel,
                            )
                    }),
                    Some(h) => {
                        if !stored.contains_key(h) || as_block(stored[h]) is None {
                            r == Err::<Self, BeaconChainError>(BeaconChainError::DBInconsistent(h))
                        } else {
                            let b = as_block(stored[h]).unwrap();
                            if !stored.contains_key(b.state_root) || as_state(
                                stored[b.state_root],
                            ) is None || !as_state(stored[b.state_root]).unwrap().wf() {
                                r == Err::<Self, BeaconChainError>(
                                    BeaconChainError::DBInconsistent(b.state_root),
                                )
                            } else {
                                let s = as_state(stored[b.state_root]).unwrap();
                                r is Ok && ({
                                    let ch = r->Ok_0;
                                    &&& ch.wf()
                                    &&& ch.canonical_head@ == (CheckPointView {
                                        beacon_block: b,
                                        beacon_block_root: h,
                                        beacon_state: s,
                                        beacon_state_root: b.state_root,
                                    })
                                    &&& ch.finalized_head@ == (CheckPointView {
                                        beacon_block: genesis_block@,
                                        beacon_block_root: broot,
                                        beacon_state: genesis_state@,
                                        beacon_state_root: sroot,
                                    })
                                    &&& ch.state@ == s
                                    &&& ch.spec == spec
                                    &&& ch.store.contents() == stored
                                    &&& ch.store.head_root() == Some(h)
                                    &&& ch.best_header_root == h
                                    &&& ch.best_header_slot == b.slot
                                })
                            }
                        }
                    },
                }
            }),
    {
        let mut store = store;
        let state_root = genesis_state.canonical_root();
        store.put(state_root, StoreValue::State(genesis_state.clone()));

        let block_root = genesis_block.block_header().canonical_root();
        store.put(block_root, StoreValue::Block(genesis_block.clone()));

        let finalized_head = CheckPoint::new(
            genesis_block.clone(),
            block_root,
            genesis_state.clone(),
            state_root,
        );

        match store.get_head() {
            None => {
                store.put_head(block_root);
                let canonical_head = CheckPoint::new(
                    genesis_block.clone(),
                    block_root,
                    genesis_state.clone(),
                    state_root,
                );
                let chain = BeaconChain {
                    store,
                    slot_clock,
                    op_pool: OperationPool::new(),
                    canonical_head,
                    finalized_head,
                    state: genesis_state,
                    spec,
                    fork_choice,
                    best_header_root: block_root,
                    best_header_slot: genesis_block.slot,
                };
                proof {
                    assert(chain.canonical_head@ =~= (CheckPointView {
                        beacon_block: genesis_block@,
                        beacon_block_root: spec_block_root(genesis_block@),
                        beacon_state: genesis_state@,
                        beacon_state_root: spec_state_root(genesis_state@),
                    }));
                    assert(chain.finalized_head@ =~= chain.canonical_head@);
                    assert forall|fuel: nat|
                        spec_ancestor_or_equal(
                            chain.store.contents(),
                            chain.finalized_head@.beacon_block_root,
                            chain.canonical_head@.beacon_block_root,
                            fuel,
                        ) by {
                        assert(chain.finalized_head@.beacon_block_root
                            == chain.canonical_head@.beacon_block_root);
                    }
                }
                Ok(chain)
            },
            Some(head_root) => {
                let head_block = match store.get(head_root) {
                    Some(StoreValue::Block(b)) => b,
                    _ => {
                        return Err(BeaconChainError::DBInconsistent(head_root));
                    },
                };
                let head_state = match store.get(head_block.state_root) {
                    Some(StoreValue::State(s)) => s,
                    _ => {
                        return Err(BeaconChainError::DBInconsistent(head_block.state_root));
                    },
                };
                if !(head_state.latest_block_roots.len() as u64 == crate::SLOTS_PER_HISTORICAL_ROOT
                    && head_state.latest_state_roots.len() as u64
                    == crate::SLOTS_PER_HISTORICAL_ROOT && head_state.validator_balances.len()
                    == head_state.validator_registry.len()) {
                    return Err(BeaconChainError::DBInconsistent(head_block.state_root));
                }
                let head_slot = head_block.slot;
                let head_state_root = head_block.state_root;
                let canonical_head = CheckPoint::new(
                    head_block,
                    head_root,
                    head_state.clone(),
                    head_state_root,
                );
                let chain = BeaconChain {
                    store,
                    slot_clock,
                    op_pool: OperationPool::new(),
                    canonical_head,
                    finalized_head,
                    state: head_state,
                    spec,
                    fork_choice,
                    best_header_root: head_root,
                    best_header_slot: head_slot,
                };
                proof {
                    assert(chain.finalized_head@ =~= (CheckPointView {
                        beacon_block: genesis_block@,
                        beacon_block_root: spec_block_root(genesis_block@),
                        beacon_state: genesis_state@,
                        beacon_state_root: spec_state_root(genesis_state@),
                    }));
                }
                Ok(chain)
            },
        }
    }

    /// Returns the checkpoint currently considered the tip of the best
    /// chain. The state it carries may be older than the present slot.
    pub fn head(&self) -> (r: &CheckPoint)
        ensures
            r@ == self.canonical_head@,
    {
        &self.canonical_head
    }

    /// Returns the checkpoint beyond which reorganization is considered
    /// impossible.
    pub fn finalized_head(&self) -> (r: &CheckPoint)
        ensures
            r@ == self.finalized_head@,
    {
        &self.finalized_head
    }

    /// Returns the slot of the present working state. This is distinct from
    /// `read_slot_clock`: the working state may lag the wall clock until it
    /// is caught up.
    pub fn present_slot(&self) -> (r: u64)
        ensures
            r == self.state@.slot,
    {
        self.state.slot
    }

    /// Reads the slot clock; `None` if the slot is unavailable (clock error
    /// or a time before genesis).
    pub fn read_slot_clock(&self) -> (r: Option<u64>)
        ensures
            r == self.slot_clock.current(),
    {
        match self.slot_clock.present_slot() {
            Some(some_slot) => Some(some_slot),
            None => None,
        }
    }

    /// Reads the slot clock and returns the number of slots since genesis;
    /// `None` when the clock is unavailable or before the genesis slot.
    pub fn slots_since_genesis(&self) -> (r: Option<u64>)
        ensures
            match self.slot_clock.current() {
                None => r is None,
                Some(now) => if now < self.spec.genesis_slot {
                    r is None
                } else {
                    r == Some((now - self.spec.genesis_slot) as u64)
                },
            },
    {
        let now = match self.read_slot_clock() {
            Some(now) => now,
            None => {
                return None;
            },
        };
        if now < self.spec.genesis_slot {
            None
        } else {
            Some(now - self.spec.genesis_slot)
        }
    }

    /// Returns the block stored under the given root, if any.
    pub fn get_block(&self, beacon_block_root: u64) -> (r: Option<BeaconBlock>)
        ensures
            match r {
                Some(b) => self.store.contents().contains_key(beacon_block_root) && as_block(
                    self.store.contents()[beacon_block_root],
                ) == Some(b@),
                None => !self.store.contents().contains_key(beacon_block_root) || as_block(
                    self.store.contents()[beacon_block_root],
                ) is None,
            },
    {
        match self.store.get(beacon_block_root) {
            Some(StoreValue::Block(b)) => Some(b),
            _ => None,
        }
    }

    /// Returns `true` if the given root names no stored full block yet.
    pub fn is_new_block_root(&self, beacon_block_root: u64) -> (r: bool)
        ensures
            r == !(self.store.contents().contains_key(beacon_block_root) && as_block(
                self.store.contents()[beacon_block_root],
            ) is Some),
    {
        match self.store.get(beacon_block_root) {
            Some(StoreValue::Block(_)) => false,
            _ => true,
        }
    }

    /// Returns the validator index for the given public key, read from the
    /// head state's registry: the first index carrying the key.
    pub fn validator_index(&self, pubkey: &crate::bls::PublicKey) -> (r: Option<usize>)
        ensures
            match r {
                Some(i) => i < self.canonical_head@.beacon_state.validator_registry.len()
                    && self.canonical_head@.beacon_state.validator_registry[i as int].pubkey
                    == pubkey.val && (forall|j: int|
                    0 <= j < i ==> (
                    #[trigger] self.canonical_head@.beacon_state.validator_registry[j]).pubkey
                        != pubkey.val),
                None => forall|j: int|
                    0 <= j < self.canonical_head@.beacon_state.validator_registry.len() ==> (
                    #[trigger] self.canonical_head@.beacon_state.validator_registry[j]).pubkey
                        != pubkey.val,
            },
    {
        let registry = &self.canonical_head.beacon_state.validator_registry;
        let mut i: usize = 0;
        while i < registry.len()
            invariant
                0 <= i <= registry@.len(),
                registry@ == self.canonical_head@.beacon_state.validator_registry,
                forall|j: int| 0 <= j < i ==> (#[trigger] registry@[j]).pubkey != pubkey.val,
            decreases registry@.len() - i,
        {
            if registry[i].pubkey == pubkey.val {
                return Some(i);
            }
            i = i + 1;
        }
        None
    }

    /// Returns the block proposer for the given slot, from the working
    /// state.
    pub fn block_proposer(&self, slot: u64) -> (r: Result<usize, BeaconStateError>)
        ensures
            self.state@.validator_registry.len() == 0 ==> r == Err::<usize, BeaconStateError>(
                BeaconStateError::InsufficientValidators,
            ),
            self.state@.validator_registry.len() > 0 ==> r is Ok && r->Ok_0
                < self.state@.validator_registry.len() && r->Ok_0 as int == slot as int
                % self.state@.validator_registry.len() as int,
    {
        self.state.get_beacon_proposer_index(slot)
    }

    /// Update the canonical head to some new values, and persist the new
    /// head pointer so a restarted instance finds it.
    pub fn update_canonical_head(
        &mut self,
        new_beacon_block: BeaconBlock,
        new_beacon_block_root: u64,
        new_beacon_state: BeaconState,
        new_beacon_state_root: u64,
    )
        ensures
            final(self).canonical_head@.beacon_block == new_beacon_block@,
            final(self).canonical_head@.beacon_block_root == new_beacon_block_root,
            final(self).canonical_head@.beacon_state == new_beacon_state@,
            final(self).canonical_head@.beacon_state_root == new_beacon_state_root,
            final(self).store.contents() == old(self).store.contents(),
            final(self).store.head_root() == Some(new_beacon_block_root),
            final(self).finalized_head@ == old(self).finalized_head@,
            final(self).state@ == old(self).state@,
            final(self).spec == old(self).spec,
            final(self).fork_choice.blocks() == old(self).fork_choice.blocks(),
            final(self).best_header_root == old(self).best_header_root,
            final(self).best_header_slot == old(self).best_header_slot,
            final(self).op_pool == old(self).op_pool,
            final(self).slot_clock.current() == old(self).slot_clock.current(),
    {
        self.canonical_head.update(
            new_beacon_block,
            new_beacon_block_root,
            new_beacon_state,
            new_beacon_state_root,
        );
        self.store.put_head(new_beacon_block_root);
    }

    /// Update the finalized head to some new values.
    pub fn update_finalized_head(
        &mut self,
        new_beacon_block: BeaconBlock,
        new_beacon_block_root: u64,
        new_beacon_state: BeaconState,
        new_beacon_state_root: u64,
    )
        ensures
            final(self).finalized_head@.beacon_block == new_beacon_block@,
            final(self).finalized_head@.beacon_block_root == new_beacon_block_root,
            final(self).finalized_head@.beacon_state == new_beacon_state@,
            final(self).finalized_head@.beacon_state_root == new_beacon_state_root,
            final(self).store.contents() == old(self).store.contents(),
            final(self).store.head_root() == old(self).store.head_root(),
            final(self).canonical_head@ == old(self).canonical_head@,
            final(self).state@ == old(self).state@,
            final(self).spec == old(self).spec,
            final(self).fork_choice.blocks() == old(self).fork_choice.blocks(),
            final(self).best_header_root == old(self).best_header_root,
            final(self).best_header_slot == old(self).best_header_slot,
            final(self).op_pool == old(self).op_pool,
            final(self).slot_clock.current() == old(self).slot_clock.current(),
    {
        self.finalized_head.update(
            new_beacon_block,
            new_beacon_block_root,
            new_beacon_state,
            new_beacon_state_root,
        );
    }
}

/// Whether `anc` is `root` itself, or is reachable from `root` by parent
/// links through stored blocks within `fuel` steps: the sense in which the
/// finalized head stays an ancestor of, or equal to, the canonical head.
pub open spec fn spec_ancestor_or_equal(
    contents: Map<u64, StoreValueView>,
    anc: u64,
    root: u64,
    fuel: nat,
) -> bool
    decreases fuel,
{
    root == anc || (fuel > 0 && contents.contains_key(root) && as_block(contents[root]) is Some
        && spec_ancestor_or_equal(
        contents,
        anc,
        as_block(contents[root]).unwrap().previous_block_root,
        (fuel - 1) as nat,
    ))
}

/// Ancestry is untouched by storing values under fresh keys: the walk only
/// reads keys that were already present.
pub proof fn lemma_ancestry_unaffected_by_fresh_insert(
    contents: Map<u64, StoreValueView>,
    anc: u64,
    root: u64,
    fuel: nat,
    key: u64,
    value: StoreValueView,
)
    requires
        !contents.contains_key(key),
        spec_ancestor_or_equal(contents, anc, root, fuel),
    ensures
        spec_ancestor_or_equal(contents.insert(key, value), anc, root, fuel),
    decreases fuel,
{
    if root != anc {
        lemma_ancestry_unaffected_by_fresh_insert(
            contents,
            anc,
            as_block(contents[root]).unwrap().previous_block_root,
            (fuel - 1) as nat,
            key,
            value,
        );
    }
}

/// Accepting a block that extends the head preserves the finality
/// invariant: with the finalized root an ancestor of (or equal to) the old
/// head, and the block's root and state root stored under fresh, distinct
/// keys, the finalized root is an ancestor of the new head — the accepted
/// block itself.
pub proof fn lemma_acceptance_preserves_finalized_ancestry(
    contents: Map<u64, StoreValueView>,
    finalized_root: u64,
    head_root: u64,
    b: BlockView,
    sp: StateView,
    fuel: nat,
)
    requires
        spec_ancestor_or_equal(contents, finalized_root, head_root, fuel),
        b.previous_block_root == head_root,
        !contents.contains_key(spec_block_root(b)),
        !contents.contains_key(b.state_root),
        b.state_root != spec_block_root(b),
    ensures
        spec_ancestor_or_equal(
            contents.insert(spec_block_root(b), StoreValueView::Block(b)).insert(
                b.state_root,
                StoreValueView::State(sp),
            ),
            finalized_root,
            spec_block_root(b),
            fuel + 1,
        ),
{
    let broot = spec_block_root(b);
    let c1 = contents.insert(broot, StoreValueView::Block(b));
    let c2 = c1.insert(b.state_root, StoreValueView::State(sp));
    lemma_ancestry_unaffected_by_fresh_insert(
        contents,
        finalized_root,
        head_root,
        fuel,
        broot,
        StoreValueView::Block(b),
    );
    lemma_ancestry_unaffected_by_fresh_insert(
        c1,
        finalized_root,
        head_root,
        fuel,
        b.state_root,
        StoreValueView::State(sp),
    );
    assert(c2.contains_key(broot) && as_block(c2[broot]) == Some(b));
}

/// Whether the parent walk from `root` reaches the zero-hash sentinel
/// through stored blocks whose slots strictly decrease below `bound`, each
/// with its stored post-state: the condition under which a chain dump is
/// owed success.
pub open spec fn spec_dump_reaches_genesis(
    contents: Map<u64, StoreValueView>,
    root: u64,
    bound: nat,
    zero: u64,
) -> bool
    decreases bound,
{
    if root == zero {
        true
    } else if !contents.contains_key(root) || as_block(contents[root]) is None {
        false
    } else {
        let b = as_block(contents[root]).unwrap();
        &&& (b.slot as nat) < bound
        &&& contents.contains_key(b.state_root)
        &&& as_state(contents[b.state_root]) is Some
        &&& spec_dump_reaches_genesis(contents, b.previous_block_root, b.slot as nat, zero)
    }
}

/// The state the block-acceptance pipeline reads the parent from: the
/// stored state of the stored parent block.
pub open spec fn spec_parent_state(contents: Map<u64, StoreValueView>, b: BlockView) -> StateView {
    as_state(contents[as_block(contents[b.previous_block_root]).unwrap().state_root]).unwrap()
}

/// The outcome the block-acceptance protocol owes, given the stored data and
/// the present slot: each gate in order, invalidity as a normal outcome, and
/// a hard error only for local inconsistency.
pub open spec fn spec_block_outcome(
    contents: Map<u64, StoreValueView>,
    present_slot: u64,
    b: BlockView,
    cspec: ChainSpec,
) -> Result<BlockProcessingOutcome, BeaconChainError> {
    if b.slot > present_slot {
        Ok(
            BlockProcessingOutcome::InvalidBlock(
                InvalidBlock::FutureSlot { present_slot, block_slot: b.slot },
            ),
        )
    } else if !contents.contains_key(b.previous_block_root) || as_block(
        contents[b.previous_block_root],
    ) is None {
        Ok(BlockProcessingOutcome::InvalidBlock(InvalidBlock::ParentUnknown))
    } else {
        let parent = as_block(contents[b.previous_block_root]).unwrap();
        if !contents.contains_key(parent.state_root) || as_state(contents[parent.state_root])
            is None || !as_state(contents[parent.state_root]).unwrap().wf() {
            Err(BeaconChainError::DBInconsistent(parent.state_root))
        } else {
            let advanced = crate::transition::spec_advance_upto(
                spec_parent_state(contents, b),
                cspec,
                b.slot,
            );
            match spec_per_block(advanced, b, cspec, true) {
                Err(e) => Ok(
                    BlockProcessingOutcome::InvalidBlock(InvalidBlock::PerBlockProcessingError(e)),
                ),
                Ok(sp) => if spec_state_root(sp) != b.state_root {
                    Ok(BlockProcessingOutcome::InvalidBlock(InvalidBlock::StateRootMismatch))
                } else {
                    Ok(BlockProcessingOutcome::ValidBlock(ValidBlock::Processed))
                },
            }
        }
    }
}

/// The state a valid block produces: the parent state advanced to the
/// block's slot with the block applied.
pub open spec fn spec_post_state(
    contents: Map<u64, StoreValueView>,
    b: BlockView,
    cspec: ChainSpec,
) -> StateView {
    spec_per_block(
        crate::transition::spec_advance_upto(spec_parent_state(contents, b), cspec, b.slot),
        b,
        cspec,
        true,
    )->Ok_0
}

/// A block whose parent is unknown is rejected as parent-unknown, and once
/// the parent block and its state are stored — and the block passes the
/// remaining gates — the very same block is accepted.
pub proof fn lemma_parent_unknown_then_known(
    contents: Map<u64, StoreValueView>,
    later: Map<u64, StoreValueView>,
    present_slot: u64,
    b: BlockView,
    cspec: ChainSpec,
)
    requires
        b.slot <= present_slot,
        !(contents.contains_key(b.previous_block_root) && as_block(
            contents[b.previous_block_root],
        ) is Some),
        later.contains_key(b.previous_block_root),
        as_block(later[b.previous_block_root]) is Some,
        ({
            let parent = as_block(later[b.previous_block_root]).unwrap();
            &&& later.contains_key(parent.state_root)
            &&& as_state(later[parent.state_root]) is Some
            &&& as_state(later[parent.state_root]).unwrap().wf()
        }),
        spec_per_block(
            crate::transition::spec_advance_upto(spec_parent_state(later, b), cspec, b.slot),
            b,
            cspec,
            true,
        ) is Ok,
        spec_state_root(
            spec_per_block(
                crate::transition::spec_advance_upto(spec_parent_state(later, b), cspec, b.slot),
                b,
                cspec,
                true,
            )->Ok_0,
        ) == b.state_root,
    ensures
        spec_block_outcome(contents, present_slot, b, cspec) == Ok::<
            BlockProcessingOutcome,
            BeaconChainError,
        >(BlockProcessingOutcome::InvalidBlock(InvalidBlock::ParentUnknown)),
        spec_block_outcome(later, present_slot, b, cspec) == Ok::<
            BlockProcessingOutcome,
            BeaconChainError,
        >(BlockProcessingOutcome::ValidBlock(ValidBlock::Processed)),
{
}

impl<T: Store, U: SlotClock, F: ForkChoice> BeaconChain<T, U, F> {
    /// Install a new working state, first advancing it to the present slot
    /// so that no reader observes a stale slot.
    pub fn update_state(&mut self, state: BeaconState) -> (r: Result<(), BeaconChainError>)
        requires
            old(self).wf(),
            state@.wf(),
        ensures
            final(self).wf(),
            match old(self).slot_clock.current() {
                None => r == Err::<(), BeaconChainError>(BeaconChainError::UnableToReadSlot)
                    && Self::same_chain_state(*old(self), *final(self)),
                Some(now) => r == Ok::<(), BeaconChainError>(()) && final(self).state@
                    == crate::transition::spec_advance_upto(state@, old(self).spec, now) && final(self).store.contents() == old(self).store.contents() && final(self).store.head_root()
                    == old(self).store.head_root() && final(self).canonical_head@ == old(self).canonical_head@ && final(self).finalized_head@ == old(self).finalized_head@
                    && final(self).spec == old(self).spec && final(self).fork_choice.blocks()
                    == old(self).fork_choice.blocks() && final(self).best_header_root == old(self).best_header_root && final(self).best_header_slot == old(self).best_header_slot
                    && final(self).op_pool == old(self).op_pool,
            },
    {
        let present_slot = match self.slot_clock.present_slot() {
            Some(slot) => slot,
            None => {
                return Err(BeaconChainError::UnableToReadSlot);
            },
        };

        let mut state = state;
        match crate::transition::advance_state(&mut state, &self.spec, present_slot) {
            Ok(()) => (),
            Err(e) => {
                return Err(BeaconChainError::SlotProcessingError(e));
            },
        }

        self.state = state;
        Ok(())
    }

    /// Ensure the current working state has been transitioned to match the
    /// slot clock.
    pub fn catchup_state(&mut self) -> (r: Result<(), BeaconChainError>)
        requires
            old(self).wf(),
        ensures
            final(self).wf(),
            match old(self).slot_clock.current() {
                None => r == Err::<(), BeaconChainError>(BeaconChainError::UnableToReadSlot)
                    && Self::same_chain_state(*old(self), *final(self)),
                Some(now) => r == Ok::<(), BeaconChainError>(()) && final(self).state@
                    == crate::transition::spec_advance_upto(old(self).state@, old(self).spec, now)
                    && final(self).state@.slot == (if old(self).state@.slot < now {
                    now
                } else {
                    old(self).state@.slot
                }) && (old(self).spec_state_keeps_pace() ==> final(self).spec_state_keeps_pace())
                    && final(self).store.contents() == old(self).store.contents() && final(self).store.head_root() == old(self).store.head_root() && final(self).canonical_head@
                    == old(self).canonical_head@ && final(self).finalized_head@ == old(self).finalized_head@ && final(self).spec == old(self).spec && final(self).fork_choice.blocks() == old(self).fork_choice.blocks() && final(self).best_header_root == old(self).best_header_root && final(self).best_header_slot
                    == old(self).best_header_slot && final(self).op_pool == old(self).op_pool,
            },
    {
        let present_slot = match self.slot_clock.present_slot() {
            Some(slot) => slot,
            None => {
                return Err(BeaconChainError::UnableToReadSlot);
            },
        };

        match crate::transition::advance_state(&mut self.state, &self.spec, present_slot) {
            Ok(()) => (),
            Err(e) => {
                return Err(BeaconChainError::SlotProcessingError(e));
            },
        }

        Ok(())
    }

    /// Accept some block and attempt to add it to the block graph.
    ///
    /// Invalidity is a normal outcome, classified by [`spec_block_outcome`]:
    /// a rejected block changes nothing. An accepted block and its resulting
    /// state are persisted and handed to fork choice; if it extends the
    /// current canonical head, the head and the working state move to it
    /// eagerly (a first-arrival heuristic, deliberately not a fork-choice
    /// run).
    pub fn process_block(&mut self, block: BeaconBlock) -> (r: Result<
        BlockProcessingOutcome,
        BeaconChainError,
    >)
        requires
            old(self).wf(),
        ensures
            final(self).wf(),
            final(self).finalized_head@ == old(self).finalized_head@,
            final(self).spec == old(self).spec,
            final(self).op_pool == old(self).op_pool,
            ({
                let outcome = spec_block_outcome(
                    old(self).store.contents(),
                    old(self).state@.slot,
                    block@,
                    old(self).spec,
                );
                let sp = spec_post_state(old(self).store.contents(), block@, old(self).spec);
                let broot = spec_block_root(block@);
                match outcome {
                    Err(e) => r == Err::<BlockProcessingOutcome, BeaconChainError>(e)
                        && Self::same_chain_state(*old(self), *final(self)),
                    Ok(BlockProcessingOutcome::InvalidBlock(reason)) => r == Ok::<
                        BlockProcessingOutcome,
                        BeaconChainError,
                    >(BlockProcessingOutcome::InvalidBlock(reason)) && Self::same_chain_state(
                        *old(self),
                        *final(self),
                    ),
                    Ok(BlockProcessingOutcome::ValidBlock(_)) => {
                        &&& final(self).store.contents() == old(self).store.contents().insert(
                            broot,
                            StoreValueView::Block(block@),
                        ).insert(block@.state_root, StoreValueView::State(sp))
                        &&& (r is Err ==> (r->Err_0 matches BeaconChainError::ForkChoiceError(_))
                            || r->Err_0 == BeaconChainError::UnableToReadSlot)
                        &&& (r is Ok ==> r->Ok_0 == BlockProcessingOutcome::ValidBlock(
                            ValidBlock::Processed,
                        ) && final(self).fork_choice.blocks() == old(self).fork_choice.blocks().insert(broot))
                        &&& (r is Ok && old(self).canonical_head@.beacon_block_root
                            != block@.previous_block_root ==> final(self).canonical_head@ == old(self).canonical_head@ && final(self).state@ == old(self).state@ && final(self).store.head_root() == old(self).store.head_root())
                        &&& (r is Ok && old(self).canonical_head@.beacon_block_root
                            == block@.previous_block_root ==> final(self).canonical_head@ == (
                        CheckPointView {
                            beacon_block: block@,
                            beacon_block_root: broot,
                            beacon_state: sp,
                            beacon_state_root: block@.state_root,
                        }) && final(self).store.head_root() == Some(broot) && old(self).slot_clock.current() is Some && final(self).state@
                            == crate::transition::spec_advance_upto(
                            sp,
                            old(self).spec,
                            old(self).slot_clock.current().unwrap(),
                        ))
                        &&& (r is Ok ==> final(self).best_header_slot == (
                        if block@.slot > old(self).best_header_slot {
                            block@.slot
                        } else {
                            old(self).best_header_slot
                        }) && final(self).best_header_root == (
                        if block@.slot > old(self).best_header_slot {
                            broot
                        } else {
                            old(self).best_header_root
                        }))
                    },
                }
            }),
    {
        let block_root = block.block_header().canonical_root();

        let present_slot = self.present_slot();

        if block.slot > present_slot {
            return Ok(
                BlockProcessingOutcome::InvalidBlock(
                    InvalidBlock::FutureSlot { present_slot, block_slot: block.slot },
                ),
            );
        }
        // Load the block's parent from the store; an unknown parent is a
        // normal outcome during catch-up, not a fault.
        let parent_block_root = block.previous_block_root;
        let parent_block = match self.store.get(parent_block_root) {
            Some(StoreValue::Block(b)) => b,
            _ => {
                return Ok(BlockProcessingOutcome::InvalidBlock(InvalidBlock::ParentUnknown));
            },
        };
        // Load the parent block's state; a stored block must always have a
        // stored resulting state, so absence is a local fault.
        let parent_state_root = parent_block.state_root;
        let parent_state = match self.store.get(parent_state_root) {
            Some(StoreValue::State(s)) => s,
            _ => {
                return Err(BeaconChainError::DBInconsistent(parent_state_root));
            },
        };
        if !(parent_state.latest_block_roots.len() as u64 == crate::SLOTS_PER_HISTORICAL_ROOT
            && parent_state.latest_state_roots.len() as u64 == crate::SLOTS_PER_HISTORICAL_ROOT
            && parent_state.validator_balances.len() == parent_state.validator_registry.len()) {
            return Err(BeaconChainError::DBInconsistent(parent_state_root));
        }

        // Transition the parent state to the block's slot.
        let mut state = parent_state;
        match crate::transition::advance_state(&mut state, &self.spec, block.slot) {
            Ok(()) => (),
            Err(e) => {
                return Ok(
                    BlockProcessingOutcome::InvalidBlock(InvalidBlock::SlotProcessingError(e)),
                );
            },
        }

        // Apply the block to the transitioned state.
        match crate::transition::per_block_processing(&mut state, &block, &self.spec) {
            Ok(()) => (),
            Err(e) => {
                return Ok(
                    BlockProcessingOutcome::InvalidBlock(InvalidBlock::PerBlockProcessingError(e)),
                );
            },
        }

        // The resulting state must be the one the block declared.
        let state_root = state.canonical_root();
        if block.state_root != state_root {
            return Ok(BlockProcessingOutcome::InvalidBlock(InvalidBlock::StateRootMismatch));
        }

        // Persist the block and the resulting state.
        self.store.put(block_root, StoreValue::Block(block.clone()));
        self.store.put(state_root, StoreValue::State(state.clone()));

        // Register the block with fork choice.
        match self.fork_choice.add_block(&block, block_root, &self.spec) {
            Ok(()) => (),
            Err(e) => {
                return Err(BeaconChainError::ForkChoiceError(e));
            },
        }

        // Track the best known header.
        if block.slot > self.best_header_slot {
            self.best_header_slot = block.slot;
            self.best_header_root = block_root;
        }

        // If the block extends the current canonical head, eagerly move the
        // head and the working state to it. This is a first-arrival
        // heuristic, not a substitute for running fork choice.
        if self.canonical_head.beacon_block_root == parent_block_root {
            self.update_canonical_head(block.clone(), block_root, state.clone(), state_root);

            match self.update_state(state) {
                Ok(()) => (),
                Err(e) => {
                    return Err(e);
                },
            }
        }

        Ok(BlockProcessingOutcome::ValidBlock(ValidBlock::Processed))
    }

    /// The body a produced block carries: the randao contribution and a full
    /// snapshot of the operation pool.
    pub open spec fn spec_candidate_body(&self, randao_reveal: u64) -> crate::block::BodyView {
        crate::block::BodyView {
            randao_reveal,
            eth1_data: crate::types::Eth1Data { deposit_root: 0, block_hash: 0 },
            proposer_slashings: self.op_pool.proposer_slashings@,
            attester_slashings: self.op_pool.attester_slashings@,
            attestations: self.op_pool.attestations@,
            deposits: self.op_pool.deposits@,
            voluntary_exits: self.op_pool.voluntary_exits@,
            transfers: self.op_pool.transfers@,
        }
    }

    /// The produced block before its state root is known: at the working
    /// state's slot, on top of the previous slot's recorded block root, with
    /// the zero state-root placeholder and the empty signature.
    pub open spec fn spec_candidate_block(&self, randao_reveal: u64) -> BlockView {
        BlockView {
            slot: self.state@.slot,
            previous_block_root: self.state@.block_root_at((self.state@.slot - 1) as u64),
            state_root: self.spec.zero_hash,
            body: self.spec_candidate_body(randao_reveal),
            signature: self.spec.empty_signature,
        }
    }

    /// Produce a new block at the present slot, on a copy of the working
    /// state; the chain itself is never mutated. The block is not yet valid:
    /// its proposer signature must be added by a separate signer.
    pub fn produce_block(&self, randao_reveal: u64) -> (r: Result<
        (BeaconBlock, BeaconState),
        BlockProductionError,
    >)
        requires
            self.wf(),
        ensures
            self.state@.slot == 0 ==> r == Err::<(BeaconBlock, BeaconState), BlockProductionError>(
                BlockProductionError::UnableToGetBlockRootFromState,
            ),
            self.state@.slot > 0 ==> ({
                let b0 = self.spec_candidate_block(randao_reveal);
                match spec_per_block(self.state@, b0, self.spec, false) {
                    Err(e) => r == Err::<(BeaconBlock, BeaconState), BlockProductionError>(
                        BlockProductionError::BlockProcessingError(e),
                    ),
                    Ok(sp) => r is Ok && r->Ok_0.1@ == sp && r->Ok_0.0@ == (BlockView {
                        state_root: spec_state_root(sp),
                        ..b0
                    }),
                }
            }),
    {
        let mut state = self.state.clone();

        if state.slot == 0 {
            return Err(BlockProductionError::UnableToGetBlockRootFromState);
        }
        let previous_block_root = match state.get_block_root(state.slot - 1) {
            Ok(root) => root,
            Err(_) => {
                return Err(BlockProductionError::UnableToGetBlockRootFromState);
            },
        };

        let (proposer_slashings, attester_slashings) = self.op_pool.get_slashings(
            &self.state,
            &self.spec,
        );

        let mut block = BeaconBlock {
            slot: state.slot,
            previous_block_root,
            state_root: self.spec.zero_hash,  // Updated after the state is calculated.
            signature: self.spec.empty_signature,  // To be completed by a validator.
            body: crate::block::BeaconBlockBody {
                randao_reveal,
                eth1_data: crate::types::Eth1Data { deposit_root: 0, block_hash: 0 },
                proposer_slashings,
                attester_slashings,
                attestations: self.op_pool.get_attestations(&self.state, &self.spec),
                deposits: self.op_pool.get_deposits(&self.state, &self.spec),
                voluntary_exits: self.op_pool.get_voluntary_exits(&self.state, &self.spec),
                transfers: self.op_pool.get_transfers(&self.state, &self.spec),
            },
        };

        proof {
            assert(block@ =~= self.spec_candidate_block(randao_reveal));
        }

        match crate::transition::per_block_processing_without_verifying_block_signature(
            &mut state,
            &block,
            &self.spec,
        ) {
            Ok(()) => (),
            Err(e) => {
                return Err(BlockProductionError::BlockProcessingError(e));
            },
        }

        let state_root = state.canonical_root();
        block.state_root = state_root;

        proof {
            assert(block@ =~= (BlockView {
                state_root: spec_state_root(state@),
                ..self.spec_candidate_block(randao_reveal)
            }));
        }
        Ok((block, state))
    }

    /// One acceptable outcome of a fork-choice run, for the chosen root
    /// `h`: either `h` is the finalized root itself and nothing changed, or
    /// the chain adopted `h` exactly as [`Self::spec_adopted`] describes.
    /// Either way `h` came from the procedure: a previously added block or
    /// the finalized root.
    pub open spec fn spec_fork_choice_case(pre: Self, post: Self, h: u64, r: Result<
        (),
        BeaconChainError,
    >) -> bool {
        &&& pre.fork_choice.blocks().contains(h) || h == pre.finalized_head@.beacon_block_root
        &&& (h == pre.finalized_head@.beacon_block_root && r == Ok::<(), BeaconChainError>(())
            && Self::same_chain_state(pre, post)) || Self::spec_adopted(pre, post, h, r)
    }

    /// What adopting the root `h` as canonical head does, exactly: a root
    /// with no stored block is `MissingBeaconBlock`; a stored block whose
    /// state is missing or malformed is `MissingBeaconState`; otherwise the
    /// canonical head becomes that block and state, the head pointer is
    /// persisted, and the working state is the adopted state advanced to the
    /// clock's slot — or `UnableToReadSlot` with the head already moved when
    /// the clock reports nothing.
    pub open spec fn spec_adopted(pre: Self, post: Self, h: u64, r: Result<
        (),
        BeaconChainError,
    >) -> bool {
        &&& post.store.contents() == pre.store.contents()
        &&& post.finalized_head@ == pre.finalized_head@
        &&& post.spec == pre.spec
        &&& post.op_pool == pre.op_pool
        &&& post.fork_choice.blocks() == pre.fork_choice.blocks()
        &&& post.best_header_root == pre.best_header_root
        &&& post.best_header_slot == pre.best_header_slot
        &&& if !pre.store.contents().contains_key(h) || as_block(pre.store.contents()[h])
            is None {
            &&& r == Err::<(), BeaconChainError>(BeaconChainError::MissingBeaconBlock(h))
            &&& post.canonical_head@ == pre.canonical_head@
            &&& post.state@ == pre.state@
            &&& post.store.head_root() == pre.store.head_root()
        } else {
            let b = as_block(pre.store.contents()[h]).unwrap();
            if !pre.store.contents().contains_key(b.state_root) || as_state(
                pre.store.contents()[b.state_root],
            ) is None || !as_state(pre.store.contents()[b.state_root]).unwrap().wf() {
                &&& r == Err::<(), BeaconChainError>(
                    BeaconChainError::MissingBeaconState(b.state_root),
                )
                &&& post.canonical_head@ == pre.canonical_head@
                &&& post.state@ == pre.state@
                &&& post.store.head_root() == pre.store.head_root()
            } else {
                let st = as_state(pre.store.contents()[b.state_root]).unwrap();
                &&& post.canonical_head@ == (CheckPointView {
                    beacon_block: b,
                    beacon_block_root: h,
                    beacon_state: st,
                    beacon_state_root: b.state_root,
                })
                &&& post.store.head_root() == Some(h)
                &&& match pre.slot_clock.current() {
                    None => r == Err::<(), BeaconChainError>(BeaconChainError::UnableToReadSlot)
                        && post.state@ == pre.state@,
                    Some(now) => r == Ok::<(), BeaconChainError>(()) && post.state@
                        == crate::transition::spec_advance_upto(st, pre.spec, now),
                }
            }
        }
    }

    /// Move the canonical head and the working state to the stored block the
    /// given root names; the outcome is exactly [`Self::spec_adopted`].
    pub fn adopt_head(&mut self, new_head: u64) -> (r: Result<(), BeaconChainError>)
        requires
            old(self).wf(),
        ensures
            final(self).wf(),
            Self::spec_adopted(*old(self), *final(self), new_head, r),
    {
        let block = match self.store.get(new_head) {
            Some(StoreValue::Block(b)) => b,
            _ => {
                return Err(BeaconChainError::MissingBeaconBlock(new_head));
            },
        };

        let state = match self.store.get(block.state_root) {
            Some(StoreValue::State(s)) => s,
            _ => {
                return Err(BeaconChainError::MissingBeaconState(block.state_root));
            },
        };
        if !(state.latest_block_roots.len() as u64 == crate::SLOTS_PER_HISTORICAL_ROOT
            && state.latest_state_roots.len() as u64 == crate::SLOTS_PER_HISTORICAL_ROOT
            && state.validator_balances.len() == state.validator_registry.len()) {
            return Err(BeaconChainError::MissingBeaconState(block.state_root));
        }
        let state_root = block.state_root;

        self.update_canonical_head(block, new_head, state.clone(), state_root);

        // Update the canonical working state as well.
        match self.update_state(state) {
            Ok(()) => (),
            Err(e) => {
                return Err(e);
            },
        }
        Ok(())
    }

    /// Ask the fork-choice procedure, seeded from the finalized root, for
    /// the best block root; if it differs from that root, adopt the stored
    /// block it names as canonical head. Anything the procedure returns must
    /// already be persisted, so a missing block or state is a hard fault.
    ///
    /// The root chosen is the procedure's to pick; whichever it picks, it
    /// was a previously added block or the finalized root itself, and the
    /// adoption is exactly [`Self::spec_adopted`].
    pub fn fork_choice(&mut self) -> (r: Result<(), BeaconChainError>)
        requires
            old(self).wf(),
        ensures
            final(self).wf(),
            final(self).store.contents() == old(self).store.contents(),
            final(self).finalized_head@ == old(self).finalized_head@,
            final(self).spec == old(self).spec,
            final(self).op_pool == old(self).op_pool,
            final(self).fork_choice.blocks() == old(self).fork_choice.blocks(),
            final(self).best_header_root == old(self).best_header_root,
            final(self).best_header_slot == old(self).best_header_slot,
            (r is Err && (r->Err_0 matches BeaconChainError::ForkChoiceError(_)))
                ==> Self::same_chain_state(*old(self), *final(self)),
            !(r is Err && (r->Err_0 matches BeaconChainError::ForkChoiceError(_))) ==> (exists|
                h: u64,
            | #[trigger] Self::spec_fork_choice_case(*old(self), *final(self), h, r)),
    {
        // Determine the root of the present finalized head.
        let present_head = self.finalized_head.beacon_block_root;

        let new_head = match self.fork_choice.find_head(present_head, &self.spec) {
            Ok(root) => root,
            Err(e) => {
                return Err(BeaconChainError::ForkChoiceError(e));
            },
        };

        if new_head != present_head {
            let r = self.adopt_head(new_head);
            proof {
                assert(Self::spec_fork_choice_case(*old(self), *self, new_head, r));
            }
            r
        } else {
            proof {
                assert(Self::spec_fork_choice_case(
                    *old(self),
                    *self,
                    present_head,
                    Ok::<(), BeaconChainError>(()),
                ));
            }
            Ok(())
        }
    }

    /// Returns the beacon block body for each beacon block root in `roots`.
    ///
    /// Fails if any root in `roots` does not have a corresponding block.
    pub fn get_block_bodies(&self, roots: &Vec<u64>) -> (r: Result<
        Vec<crate::block::BeaconBlockBody>,
        BeaconChainError,
    >)
        ensures
            (forall|i: int|
                0 <= i < roots@.len() ==> self.store.contents().contains_key(#[trigger] roots@[i])
                    && as_block(self.store.contents()[roots@[i]]) is Some) ==> r is Ok && r->Ok_0@.len()
                == roots@.len() && (forall|i: int|
                0 <= i < roots@.len() ==> (#[trigger] r->Ok_0@[i])@ == as_block(
                    self.store.contents()[roots@[i]],
                ).unwrap().body),
            r is Ok ==> (forall|i: int|
                0 <= i < roots@.len() ==> self.store.contents().contains_key(#[trigger] roots@[i])
                    && as_block(self.store.contents()[roots@[i]]) is Some),
            r is Err ==> (exists|i: int|
                0 <= i < roots@.len() && !(self.store.contents().contains_key(#[trigger] roots@[i])
                    && as_block(self.store.contents()[roots@[i]]) is Some) && r == Err::<
                    Vec<crate::block::BeaconBlockBody>,
                    BeaconChainError,
                >(BeaconChainError::DBInconsistent(roots@[i]))),
    {
        let mut bodies: Vec<crate::block::BeaconBlockBody> = Vec::new();
        let mut i: usize = 0;
        while i < roots.len()
            invariant
                0 <= i <= roots@.len(),
                bodies@.len() == i,
                forall|j: int|
                    0 <= j < i ==> self.store.contents().contains_key(#[trigger] roots@[j])
                        && as_block(self.store.contents()[roots@[j]]) is Some,
                forall|j: int|
                    0 <= j < i ==> (#[trigger] bodies@[j])@ == as_block(
                        self.store.contents()[roots@[j]],
                    ).unwrap().body,
            decreases roots@.len() - i,
        {
            let root = roots[i];
            match self.store.get(root) {
                Some(StoreValue::Block(b)) => {
                    bodies.push(b.body);
                },
                _ => {
                    return Err(BeaconChainError::DBInconsistent(root));
                },
            }
            i = i + 1;
        }
        Ok(bodies)
    }

    /// Returns the beacon block header for each beacon block root in
    /// `roots`.
    ///
    /// Fails if any root in `roots` does not have a corresponding block.
    pub fn get_block_headers(&self, roots: &Vec<u64>) -> (r: Result<
        Vec<crate::types::BeaconBlockHeader>,
        BeaconChainError,
    >)
        ensures
            (forall|i: int|
                0 <= i < roots@.len() ==> self.store.contents().contains_key(#[trigger] roots@[i])
                    && as_block(self.store.contents()[roots@[i]]) is Some) ==> r is Ok && r->Ok_0@.len()
                == roots@.len() && (forall|i: int|
                0 <= i < roots@.len() ==> #[trigger] r->Ok_0@[i] == crate::block::spec_header_of(
                    as_block(self.store.contents()[roots@[i]]).unwrap(),
                )),
            r is Ok ==> (forall|i: int|
                0 <= i < roots@.len() ==> self.store.contents().contains_key(#[trigger] roots@[i])
                    && as_block(self.store.contents()[roots@[i]]) is Some),
            r is Err ==> (exists|i: int|
                0 <= i < roots@.len() && !(self.store.contents().contains_key(#[trigger] roots@[i])
                    && as_block(self.store.contents()[roots@[i]]) is Some) && r == Err::<
                    Vec<crate::types::BeaconBlockHeader>,
                    BeaconChainError,
                >(BeaconChainError::DBInconsistent(roots@[i]))),
    {
        let mut headers: Vec<crate::types::BeaconBlockHeader> = Vec::new();
        let mut i: usize = 0;
        while i < roots.len()
            invariant
                0 <= i <= roots@.len(),
                headers@.len() == i,
                forall|j: int|
                    0 <= j < i ==> self.store.contents().contains_key(#[trigger] roots@[j])
                        && as_block(self.store.contents()[roots@[j]]) is Some,
                forall|j: int|
                    0 <= j < i ==> #[trigger] headers@[j] == crate::block::spec_header_of(
                        as_block(self.store.contents()[roots@[j]]).unwrap(),
                    ),
            decreases roots@.len() - i,
        {
            let root = roots[i];
            match self.store.get(root) {
                Some(StoreValue::Block(b)) => {
                    headers.push(b.block_header());
                },
                _ => {
                    return Err(BeaconChainError::DBInconsistent(root));
                },
            }
            i = i + 1;
        }
        Ok(headers)
    }

    /// Accept a new attestation from the network: validated against the
    /// working state and aggregated with an already-pooled attestation on
    /// the same data, if one exists.
    pub fn process_attestation(&mut self, attestation: Attestation) -> (r: Result<
        (),
        AttestationValidationError,
    >)
        requires
            old(self).wf(),
        ensures
            final(self).wf(),
            final(self).store.contents() == old(self).store.contents(),
            final(self).canonical_head@ == old(self).canonical_head@,
            final(self).finalized_head@ == old(self).finalized_head@,
            final(self).state@ == old(self).state@,
            attestation.data.slot > old(self).state@.slot ==> r == Err::<
                (),
                AttestationValidationError,
            >(AttestationValidationError::FutureSlot {
                attestation: attestation.data.slot,
                state: old(self).state@.slot,
            }) && final(self).op_pool.attestations@ == old(self).op_pool.attestations@,
            attestation.data.slot <= old(self).state@.slot ==> r == Ok::<
                (),
                AttestationValidationError,
            >(()) && ((exists|i: int|
                0 <= i < old(self).op_pool.attestations@.len() && (#[trigger] old(self).op_pool.attestations@[i]).data == attestation.data && final(self).op_pool.attestations@ == old(self).op_pool.attestations@.update(
                i,
                crate::op_pool::spec_aggregated(old(self).op_pool.attestations@[i], attestation),
            )) || ((forall|i: int|
                0 <= i < old(self).op_pool.attestations@.len() ==> (#[trigger] old(self).op_pool.attestations@[i]).data != attestation.data) && final(self).op_pool.attestations@ == old(self).op_pool.attestations@.push(attestation))),
    {
        self.op_pool.insert_attestation(attestation, &self.state, &self.spec)
    }

    /// Accept some deposit and queue it for inclusion in an appropriate
    /// block.
    pub fn process_deposit(&mut self, deposit: Deposit) -> (r: Result<
        DepositInsertStatus,
        DepositValidationError,
    >)
        requires
            old(self).wf(),
        ensures
            final(self).wf(),
            final(self).store.contents() == old(self).store.contents(),
            final(self).canonical_head@ == old(self).canonical_head@,
            final(self).finalized_head@ == old(self).finalized_head@,
            final(self).state@ == old(self).state@,
            !crate::bls::spec_verify(
                deposit.pubkey,
                deposit.pubkey,
                old(self).spec.domain_deposit,
                deposit.proof_of_possession,
            ) ==> r == Err::<DepositInsertStatus, DepositValidationError>(
                DepositValidationError::BadProofOfPossession,
            ) && final(self).op_pool.deposits@ == old(self).op_pool.deposits@,
            crate::bls::spec_verify(
                deposit.pubkey,
                deposit.pubkey,
                old(self).spec.domain_deposit,
                deposit.proof_of_possession,
            ) ==> {
                ||| ((exists|i: int|
                    0 <= i < old(self).op_pool.deposits@.len() && (#[trigger] old(self).op_pool.deposits@[i]) == deposit) && r == Ok::<
                    DepositInsertStatus,
                    DepositValidationError,
                >(DepositInsertStatus::Duplicate) && final(self).op_pool.deposits@ == old(self).op_pool.deposits@)
                ||| ((exists|i: int|
                    0 <= i < old(self).op_pool.deposits@.len() && (#[trigger] old(self).op_pool.deposits@[i]).index == deposit.index && old(self).op_pool.deposits@[i] != deposit) && r == Err::<
                    DepositInsertStatus,
                    DepositValidationError,
                >(DepositValidationError::DuplicateDistinct(deposit.index)) && final(self).op_pool.deposits@ == old(self).op_pool.deposits@)
                ||| ((forall|i: int|
                    0 <= i < old(self).op_pool.deposits@.len() ==> (#[trigger] old(self).op_pool.deposits@[i]).index != deposit.index) && r == Ok::<
                    DepositInsertStatus,
                    DepositValidationError,
                >(DepositInsertStatus::Fresh) && final(self).op_pool.deposits@ == old(self).op_pool.deposits@.push(deposit))
            },
    {
        self.op_pool.insert_deposit(deposit, &self.state, &self.spec)
    }

    /// Accept some exit and queue it for inclusion in an appropriate block.
    pub fn process_voluntary_exit(&mut self, exit: VoluntaryExit) -> (r: Result<
        (),
        ExitValidationError,
    >)
        requires
            old(self).wf(),
        ensures
            final(self).wf(),
            final(self).store.contents() == old(self).store.contents(),
            final(self).canonical_head@ == old(self).canonical_head@,
            final(self).finalized_head@ == old(self).finalized_head@,
            final(self).state@ == old(self).state@,
            match crate::verify_exit::spec_verify_exit(old(self).state@, exit, old(self).spec, true) {
                Ok(()) => r == Ok::<(), ExitValidationError>(()) && final(self).op_pool.voluntary_exits@ == old(self).op_pool.voluntary_exits@.push(exit),
                Err(e) => r == Err::<(), ExitValidationError>(e) && final(self).op_pool.voluntary_exits@ == old(self).op_pool.voluntary_exits@,
            },
    {
        self.op_pool.insert_voluntary_exit(exit, &self.state, &self.spec)
    }

    /// Accept some transfer and queue it for inclusion in an appropriate
    /// block.
    pub fn process_transfer(&mut self, transfer: Transfer) -> (r: Result<
        (),
        TransferValidationError,
    >)
        requires
            old(self).wf(),
        ensures
            final(self).wf(),
            final(self).store.contents() == old(self).store.contents(),
            final(self).canonical_head@ == old(self).canonical_head@,
            final(self).finalized_head@ == old(self).finalized_head@,
            final(self).state@ == old(self).state@,
            r is Err ==> final(self).op_pool.transfers@ == old(self).op_pool.transfers@,
            r is Ok ==> final(self).op_pool.transfers@ == old(self).op_pool.transfers@.push(
                transfer,
            ),
    {
        self.op_pool.insert_transfer(transfer, &self.state, &self.spec)
    }

    /// Accept some proposer slashing and queue it for inclusion in an
    /// appropriate block.
    pub fn process_proposer_slashing(&mut self, proposer_slashing: ProposerSlashing) -> (r: Result<
        (),
        ProposerSlashingValidationError,
    >)
        requires
            old(self).wf(),
        ensures
            final(self).wf(),
            final(self).store.contents() == old(self).store.contents(),
            final(self).canonical_head@ == old(self).canonical_head@,
            final(self).finalized_head@ == old(self).finalized_head@,
            final(self).state@ == old(self).state@,
            r is Err ==> final(self).op_pool.proposer_slashings@ == old(self).op_pool.proposer_slashings@,
            r is Ok ==> final(self).op_pool.proposer_slashings@ == old(self).op_pool.proposer_slashings@.push(proposer_slashing),
    {
        self.op_pool.insert_proposer_slashing(proposer_slashing, &self.state, &self.spec)
    }

    /// Accept some attester slashing and queue it for inclusion in an
    /// appropriate block.
    pub fn process_attester_slashing(&mut self, attester_slashing: AttesterSlashing) -> (r: Result<
        (),
        AttesterSlashingValidationError,
    >)
        requires
            old(self).wf(),
        ensures
            final(self).wf(),
            final(self).store.contents() == old(self).store.contents(),
            final(self).canonical_head@ == old(self).canonical_head@,
            final(self).finalized_head@ == old(self).finalized_head@,
            final(self).state@ == old(self).state@,
            r is Err ==> final(self).op_pool.attester_slashings@ == old(self).op_pool.attester_slashings@,
            r is Ok ==> final(self).op_pool.attester_slashings@ == old(self).op_pool.attester_slashings@.push(attester_slashing),
    {
        self.op_pool.insert_attester_slashing(attester_slashing, &self.state, &self.spec)
    }

    /// Record a header-only ("light client") reference: the header is stored
    /// under its root unless a full block already sits there, and the
    /// best-header tip advances if the header's slot is beyond it.
    pub fn process_header(&mut self, header: crate::types::BeaconBlockHeader) -> (r: u64)
        requires
            old(self).wf(),
        ensures
            final(self).wf(),
            r == spec_header_root(header),
            final(self).canonical_head@ == old(self).canonical_head@,
            final(self).finalized_head@ == old(self).finalized_head@,
            final(self).state@ == old(self).state@,
            final(self).op_pool == old(self).op_pool,
            final(self).store.head_root() == old(self).store.head_root(),
            (old(self).store.contents().contains_key(spec_header_root(header)) && as_block(
                old(self).store.contents()[spec_header_root(header)],
            ) is Some) ==> final(self).store.contents() == old(self).store.contents(),
            !(old(self).store.contents().contains_key(spec_header_root(header)) && as_block(
                old(self).store.contents()[spec_header_root(header)],
            ) is Some) ==> final(self).store.contents() == old(self).store.contents().insert(
                spec_header_root(header),
                StoreValueView::Header(header),
            ),
            header.slot > old(self).best_header_slot ==> final(self).best_header_slot
                == header.slot && final(self).best_header_root == spec_header_root(header),
            header.slot <= old(self).best_header_slot ==> final(self).best_header_slot == old(self).best_header_slot && final(self).best_header_root == old(self).best_header_root,
    {
        let root = header.canonical_root();
        let already_full = match self.store.get(root) {
            Some(StoreValue::Block(_)) => true,
            _ => false,
        };
        if !already_full {
            self.store.put(root, StoreValue::Header(header));
        }
        if header.slot > self.best_header_slot {
            self.best_header_slot = header.slot;
            self.best_header_root = root;
        }
        root
    }

    /// Whether a full block is stored under the given root.
    pub fn is_known_block(&self, root: u64) -> (r: bool)
        ensures
            r == (self.store.contents().contains_key(root) && as_block(
                self.store.contents()[root],
            ) is Some),
    {
        match self.store.get(root) {
            Some(StoreValue::Block(_)) => true,
            _ => false,
        }
    }

    /// Whether a header is known under the given root, either directly or
    /// through a stored full block.
    pub fn is_known_header(&self, root: u64) -> (r: bool)
        ensures
            r == (self.store.contents().contains_key(root) && crate::store::as_header(
                self.store.contents()[root],
            ) is Some),
    {
        match self.store.get(root) {
            Some(StoreValue::Block(_)) => true,
            Some(StoreValue::Header(_)) => true,
            _ => false,
        }
    }

    /// The slot of the best known header, full or header-only.
    pub fn best_index(&self) -> (r: u64)
        ensures
            r == self.best_header_slot,
    {
        self.best_header_slot
    }

    /// The root of the best known header, full or header-only.
    pub fn best_header(&self) -> (r: u64)
        ensures
            r == self.best_header_root,
    {
        self.best_header_root
    }

    /// The attestation duty of the indexed validator: in the model, every
    /// known validator attests in the present slot, on the shard given by
    /// its index.
    pub fn validator_attestion_slot_and_shard(&self, validator_index: usize) -> (r: Result<
        Option<(u64, u64)>,
        BeaconStateError,
    >)
        ensures
            validator_index < self.state@.validator_registry.len() ==> r == Ok::<
                Option<(u64, u64)>,
                BeaconStateError,
            >(
                Some(
                    (
                        self.state@.slot,
                        (validator_index as u64) % crate::SHARD_COUNT,
                    ),
                ),
            ),
            validator_index >= self.state@.validator_registry.len() ==> r == Ok::<
                Option<(u64, u64)>,
                BeaconStateError,
            >(None),
    {
        if validator_index < self.state.validator_registry.len() {
            Ok(Some((self.state.slot, (validator_index as u64) % crate::SHARD_COUNT)))
        } else {
            Ok(None)
        }
    }

    /// The working state never lags the canonical head block: its slot is
    /// at least the head block's slot.
    pub open spec fn spec_state_keeps_pace(&self) -> bool {
        self.canonical_head@.beacon_block.slot <= self.state@.slot
    }

    /// The condition under which the historical-root lookup owes success
    /// from the working state alone: the range tops out at or below the
    /// working state's slot, a range topping at exactly that slot has the
    /// head block there to supply it, and every lower requested slot lies
    /// inside the retained ring window.
    pub open spec fn spec_roots_request_in_window(
        &self,
        earliest_slot: u64,
        count: usize,
        skip: usize,
    ) -> bool {
        let step = (skip as int) + 1;
        let base = earliest_slot as int + step - 1;
        let top = earliest_slot as int + (count as int) * step - 1;
        &&& top <= self.state@.slot
        &&& (top < self.state@.slot || self.canonical_head@.beacon_block.slot == self.state@.slot)
        &&& (forall|i: int|
            0 <= i < count && base + i * step < self.state@.slot
                ==> #[trigger] self.state@.slot_in_window(((base + i * step)) as u64))
    }

    /// Returns `count` beacon block roots, starting from `earliest_slot`
    /// with an interval of `skip` slots between each root, in chronological
    /// order; the first returned root is for slot `earliest_slot + skip`.
    ///
    /// The roots are read from the working state's block-root ring; when a
    /// requested slot falls outside the retained window, older persisted
    /// states are fetched from the store and the walk continues against
    /// them. Fails with `SlotOutOfBounds` when the requested range cannot be
    /// fully satisfied: the range ends above the working state's slot, or
    /// history is exhausted first. A failed request returns no partial list.
    #[verifier::loop_isolation(false)]
    pub fn get_block_roots(&self, earliest_slot: u64, count: usize, skip: usize) -> (r: Result<
        Vec<u64>,
        BeaconChainError,
    >)
        requires
            self.wf(),
            0 < (count as int) * ((skip as int) + 1),
            (earliest_slot as int) + (count as int) * ((skip as int) + 1) <= u64::MAX as int,
        ensures
            r is Err ==> r == Err::<Vec<u64>, BeaconChainError>(
                BeaconChainError::BeaconStateError(BeaconStateError::SlotOutOfBounds),
            ),
            ({
                let step = (skip as int) + 1;
                let base = earliest_slot as int + step - 1;
                let top = earliest_slot as int + (count as int) * step - 1;
                &&& (top > self.state@.slot ==> r is Err)
                &&& (top == self.state@.slot && self.canonical_head@.beacon_block.slot
                    != self.state@.slot ==> r is Err)
                &&& (self.spec_roots_request_in_window(earliest_slot, count, skip) ==> r is Ok)
                &&& (r is Ok ==> r->Ok_0@.len() == count)
                &&& (r is Ok ==> forall|i: int|
                    0 <= i < count && self.state@.slot_in_window((base + i * step) as u64)
                        ==> r->Ok_0@[i] == self.state@.block_root_at((base + i * step) as u64))
                &&& (r is Ok ==> forall|i: int|
                    0 <= i < count && base + i * step == self.state@.slot
                        && self.canonical_head@.beacon_block.slot == self.state@.slot ==> r->Ok_0@[i]
                        == self.canonical_head@.beacon_block_root)
            }),
    {
        proof {
            assert((count as int) >= 1) by (nonlinear_arith)
                requires
                    0 < (count as int) * ((skip as int) + 1),
                    (count as int) >= 0,
                    (skip as int) >= 0,
            ;
            assert((skip as int) + 1 <= (count as int) * ((skip as int) + 1)) by (nonlinear_arith)
                requires
                    (count as int) >= 1,
                    (skip as int) >= 0,
            ;
        }
        let step: u64 = (skip as u64) + 1;
        let top: u64 = earliest_slot + (count as u64) * step - 1;

        if top > self.state.slot {
            proof {
                if self.spec_roots_request_in_window(earliest_slot, count, skip) {
                    assert(false);
                }
            }
            return Err(BeaconChainError::BeaconStateError(BeaconStateError::SlotOutOfBounds));
        }

        let ghost stepi = (skip as int) + 1;
        let ghost basei = earliest_slot as int + stepi - 1;
        let ghost topi = earliest_slot as int + (count as int) * stepi - 1;
        proof {
            assert((count as int) * stepi == ((count as int) - 1) * stepi + stepi)
                by (nonlinear_arith);
        }

        // Collect most-recent-first; reversed to chronological order below.
        let mut collected: Vec<u64> = Vec::new();
        let mut cur = self.state.clone();
        let mut slot: u64 = top;
        let mut k: usize = 0;
        proof {
            assert(0 * stepi == 0) by (nonlinear_arith);
        }
        while k < count
            invariant
                0 <= k <= count,
                collected@.len() == k,
                cur@.wf(),
                k < count ==> slot as int == topi - k * stepi,
                k < count ==> earliest_slot <= slot <= top,
                cur@ == self.state@ || (k < count ==> slot as int + crate::SLOTS_PER_HISTORICAL_ROOT
                    < self.state@.slot),
                self.spec_roots_request_in_window(earliest_slot, count, skip) ==> cur@
                    == self.state@,
                (topi == self.state@.slot && self.canonical_head@.beacon_block.slot
                    != self.state@.slot) ==> k == 0,
                forall|j: int|
                    0 <= j < k && self.state@.slot_in_window(
                        (basei + (count - 1 - j) * stepi) as u64,
                    ) ==> collected@[j] == self.state@.block_root_at(
                        (basei + (count - 1 - j) * stepi) as u64,
                    ),
                forall|j: int|
                    0 <= j < k && basei + (count - 1 - j) * stepi == self.state@.slot
                        && self.canonical_head@.beacon_block.slot == self.state@.slot
                        ==> collected@[j] == self.canonical_head@.beacon_block_root,
            decreases count - k, cur.slot,
        {
            proof {
                assert((count - 1 - (k as int)) * stepi == (count as int) * stepi - (k as int)
                    * stepi - stepi) by (nonlinear_arith);
                assert(slot as int == basei + (count - 1 - (k as int)) * stepi);
            }
            if slot == self.state.slot {
                // The top of the range is the working state's own slot: only
                // the head block can supply this root.
                if self.canonical_head.beacon_block.slot == slot {
                    collected.push(self.canonical_head.beacon_block_root);
                } else {
                    proof {
                        if self.spec_roots_request_in_window(earliest_slot, count, skip) {
                            assert(slot <= top <= self.state@.slot);
                            assert(topi == self.state@.slot);
                            assert(false);
                        }
                    }
                    return Err(
                        BeaconChainError::BeaconStateError(BeaconStateError::SlotOutOfBounds),
                    );
                }
            } else {
                match cur.get_block_root(slot) {
                    Ok(root) => {
                        proof {
                            if cur@ == self.state@ {
                                assert(self.state@.slot_in_window(slot));
                            } else {
                                assert(!self.state@.slot_in_window(slot));
                            }
                        }
                        collected.push(root);
                    },
                    Err(_) => {
                        proof {
                            // Under the in-window premise this miss cannot
                            // happen: the requested slot sits in the ring.
                            if self.spec_roots_request_in_window(earliest_slot, count, skip) {
                                assert(slot < self.state@.slot);
                                assert(self.state@.slot_in_window(
                                    ((basei + (count - 1 - (k as int)) * stepi)) as u64,
                                ));
                                assert(false);
                            }
                        }
                        // The slot fell out of the ring: load the oldest
                        // retained state and retry against it.
                        if cur.slot < crate::SLOTS_PER_HISTORICAL_ROOT {
                            return Err(
                                BeaconChainError::BeaconStateError(
                                    BeaconStateError::SlotOutOfBounds,
                                ),
                            );
                        }
                        let earliest_historic_slot = cur.slot - crate::SLOTS_PER_HISTORICAL_ROOT;
                        let new_state_root = match cur.get_state_root(earliest_historic_slot) {
                            Ok(root) => root,
                            Err(_) => {
                                return Err(
                                    BeaconChainError::BeaconStateError(
                                        BeaconStateError::SlotOutOfBounds,
                                    ),
                                );
                            },
                        };
                        let older = match self.store.get(new_state_root) {
                            Some(StoreValue::State(s)) => s,
                            _ => {
                                return Err(
                                    BeaconChainError::BeaconStateError(
                                        BeaconStateError::SlotOutOfBounds,
                                    ),
                                );
                            },
                        };
                        if !(older.latest_block_roots.len() as u64
                            == crate::SLOTS_PER_HISTORICAL_ROOT && older.latest_state_roots.len()
                            as u64 == crate::SLOTS_PER_HISTORICAL_ROOT
                            && older.validator_balances.len()
                            == older.validator_registry.len() && older.slot < cur.slot) {
                            return Err(
                                BeaconChainError::BeaconStateError(
                                    BeaconStateError::SlotOutOfBounds,
                                ),
                            );
                        }
                        proof {
                            // The missed slot lies below the working state's
                            // window, as will every later (smaller) slot.
                            if cur@ == self.state@ {
                                assert(!self.state@.slot_in_window(slot));
                                assert(slot < self.state@.slot);
                            }
                        }
                        cur = older;
                        continue ;
                    },
                }
            }
            if k + 1 < count {
                proof {
                    assert((k as int + 1) * stepi == (k as int) * stepi + stepi)
                        by (nonlinear_arith);
                    assert((count - 1 - (k as int + 1)) * stepi == (count - 1 - (k as int)) * stepi
                        - stepi) by (nonlinear_arith);
                    assert(topi - (k as int + 1) * stepi >= earliest_slot);
                }
                slot = slot - step;
            }
            k = k + 1;
        }

        // Reverse into chronological order.
        let mut roots: Vec<u64> = Vec::new();
        let mut i: usize = 0;
        while i < count
            invariant
                0 <= i <= count,
                collected@.len() == count,
                roots@.len() == i,
                forall|j: int| 0 <= j < i ==> roots@[j] == collected@[count - 1 - j],
            decreases count - i,
        {
            roots.push(collected[count - 1 - i]);
            i = i + 1;
        }
        proof {
            assert forall|i2: int|
                0 <= i2 < count && self.state@.slot_in_window(
                    (basei + i2 * stepi) as u64,
                ) implies roots@[i2] == self.state@.block_root_at((basei + i2 * stepi) as u64) by {
                let j = count - 1 - i2;
                assert(roots@[i2] == collected@[j]);
                assert(count - 1 - j == i2);
            }
            assert forall|i2: int|
                0 <= i2 < count && basei + i2 * stepi == self.state@.slot
                    && self.canonical_head@.beacon_block.slot == self.state@.slot implies roots@[i2]
                == self.canonical_head@.beacon_block_root by {
                let j = count - 1 - i2;
                assert(roots@[i2] == collected@[j]);
                assert(count - 1 - j == i2);
            }
        }
        Ok(roots)
    }

    /// Dumps the entire canonical chain, from genesis to the head, as
    /// checkpoints, for analysis. This walks the store block by block and is
    /// expensive; it is not a production path.
    ///
    /// The dump succeeds exactly when the parent walk from the head reaches
    /// the zero-hash sentinel through stored blocks with strictly decreasing
    /// slots, each with its stored post-state; a missing or malformed link
    /// is the local fault `DBInconsistent`.
    pub fn chain_dump(&self) -> (r: Result<Vec<CheckPoint>, BeaconChainError>)
        requires
            self.wf(),
        ensures
            spec_dump_reaches_genesis(
                self.store.contents(),
                self.canonical_head@.beacon_block.previous_block_root,
                u64::MAX as nat,
                self.spec.zero_hash,
            ) ==> r is Ok,
            r is Err ==> (r->Err_0 matches BeaconChainError::DBInconsistent(_))
                && !spec_dump_reaches_genesis(
                self.store.contents(),
                self.canonical_head@.beacon_block.previous_block_root,
                u64::MAX as nat,
                self.spec.zero_hash,
            ),
            r is Ok ==> ({
                let d = r->Ok_0@;
                &&& d.len() >= 1
                &&& d[d.len() - 1]@ == self.canonical_head@
                &&& d[0]@.beacon_block.previous_block_root == self.spec.zero_hash
                &&& (forall|i: int|
                    0 <= i < d.len() - 1 ==> (
                    #[trigger] d[i + 1])@.beacon_block.previous_block_root
                        == d[i]@.beacon_block_root)
                &&& (forall|i: int|
                    0 <= i < d.len() - 1 ==> self.store.contents().contains_key(
                        (#[trigger] d[i])@.beacon_block_root,
                    ) && as_block(self.store.contents()[d[i]@.beacon_block_root]) == Some(
                        d[i]@.beacon_block,
                    ) && d[i]@.beacon_state_root == d[i]@.beacon_block.state_root
                        && self.store.contents().contains_key(d[i]@.beacon_state_root)
                        && as_state(self.store.contents()[d[i]@.beacon_state_root]) == Some(
                        d[i]@.beacon_state,
                    ))
            }),
    {
        let ghost contents = self.store.contents();
        let ghost zero = self.spec.zero_hash;
        let ghost whole = spec_dump_reaches_genesis(
            contents,
            self.canonical_head@.beacon_block.previous_block_root,
            u64::MAX as nat,
            zero,
        );
        let mut dump: Vec<CheckPoint> = Vec::new();
        dump.push(self.canonical_head.clone());
        let mut bound: u64 = u64::MAX;

        loop
            invariant_except_break
                dump@.len() >= 1,
                dump@[0]@ == self.canonical_head@,
                contents == self.store.contents(),
                zero == self.spec.zero_hash,
                whole == spec_dump_reaches_genesis(
                    contents,
                    self.canonical_head@.beacon_block.previous_block_root,
                    u64::MAX as nat,
                    zero,
                ),
                forall|i: int|
                    0 <= i < dump@.len() - 1 ==> (
                    #[trigger] dump@[i])@.beacon_block.previous_block_root == dump@[i
                        + 1]@.beacon_block_root,
                forall|i: int|
                    1 <= i < dump@.len() ==> contents.contains_key(
                        (#[trigger] dump@[i])@.beacon_block_root,
                    ) && as_block(contents[dump@[i]@.beacon_block_root]) == Some(
                        dump@[i]@.beacon_block,
                    ) && dump@[i]@.beacon_state_root == dump@[i]@.beacon_block.state_root
                        && contents.contains_key(dump@[i]@.beacon_state_root) && as_state(
                        contents[dump@[i]@.beacon_state_root],
                    ) == Some(dump@[i]@.beacon_state),
                spec_dump_reaches_genesis(
                    contents,
                    dump@[dump@.len() - 1]@.beacon_block.previous_block_root,
                    bound as nat,
                    zero,
                ) == whole,
            ensures
                dump@.len() >= 1,
                dump@[0]@ == self.canonical_head@,
                forall|i: int|
                    0 <= i < dump@.len() - 1 ==> (
                    #[trigger] dump@[i])@.beacon_block.previous_block_root == dump@[i
                        + 1]@.beacon_block_root,
                forall|i: int|
                    1 <= i < dump@.len() ==> contents.contains_key(
                        (#[trigger] dump@[i])@.beacon_block_root,
                    ) && as_block(contents[dump@[i]@.beacon_block_root]) == Some(
                        dump@[i]@.beacon_block,
                    ) && dump@[i]@.beacon_state_root == dump@[i]@.beacon_block.state_root
                        && contents.contains_key(dump@[i]@.beacon_state_root) && as_state(
                        contents[dump@[i]@.beacon_state_root],
                    ) == Some(dump@[i]@.beacon_state),
                dump@[dump@.len() - 1]@.beacon_block.previous_block_root == self.spec.zero_hash,
            decreases bound,
        {
            let n = dump.len();
            let beacon_block_root = dump[n - 1].beacon_block.previous_block_root;

            if beacon_block_root == self.spec.zero_hash {
                break ;  // Genesis has been reached.
            }
            let beacon_block = match self.store.get(beacon_block_root) {
                Some(StoreValue::Block(b)) => b,
                _ => {
                    proof {
                        assert(!spec_dump_reaches_genesis(
                            contents,
                            beacon_block_root,
                            bound as nat,
                            zero,
                        ));
                    }
                    return Err(BeaconChainError::DBInconsistent(beacon_block_root));
                },
            };
            // Refuse a parent whose slot fails to move down the chain.
            if beacon_block.slot >= bound {
                proof {
                    assert(!spec_dump_reaches_genesis(
                        contents,
                        beacon_block_root,
                        bound as nat,
                        zero,
                    ));
                }
                return Err(BeaconChainError::DBInconsistent(beacon_block_root));
            }
            bound = beacon_block.slot;
            let beacon_state_root = beacon_block.state_root;
            let beacon_state = match self.store.get(beacon_state_root) {
                Some(StoreValue::State(st)) => st,
                _ => {
                    proof {
                        assert(!spec_dump_reaches_genesis(
                            contents,
                            beacon_block_root,
                            u64::MAX as nat,
                            zero,
                        ) || !spec_dump_reaches_genesis(
                            contents,
                            beacon_block_root,
                            bound as nat,
                            zero,
                        ));
                    }
                    return Err(BeaconChainError::DBInconsistent(beacon_state_root));
                },
            };
            dump.push(CheckPoint::new(beacon_block, beacon_block_root, beacon_state,
                beacon_state_root));
        }

        // Reverse into chronological order, genesis first.
        let total = dump.len();
        let mut chronological: Vec<CheckPoint> = Vec::new();
        let mut i: usize = 0;
        while i < total
            invariant
                0 <= i <= total,
                total == dump@.len(),
                chronological@.len() == i,
                forall|j: int| 0 <= j < i ==> (#[trigger] chronological@[j])@ == dump@[total - 1
                    - j]@,
            decreases total - i,
        {
            chronological.push(dump[total - 1 - i].clone());
            i = i + 1;
        }
        proof {
            assert forall|i2: int|
                0 <= i2 < total - 1 implies (
            #[trigger] chronological@[i2 + 1])@.beacon_block.previous_block_root
                == chronological@[i2]@.beacon_block_root by {
                let j = total - 1 - (i2 + 1);
                assert(chronological@[i2 + 1]@ == dump@[j]@);
                assert(chronological@[i2]@ == dump@[j + 1]@);
            }
            assert forall|i2: int|
                0 <= i2 < total - 1 implies contents.contains_key(
                (#[trigger] chronological@[i2])@.beacon_block_root,
            ) && as_block(contents[chronological@[i2]@.beacon_block_root]) == Some(
                chronological@[i2]@.beacon_block,
            ) && chronological@[i2]@.beacon_state_root
                == chronological@[i2]@.beacon_block.state_root && contents.contains_key(
                chronological@[i2]@.beacon_state_root,
            ) && as_state(contents[chronological@[i2]@.beacon_state_root]) == Some(
                chronological@[i2]@.beacon_state,
            ) by {
                let j = total - 1 - i2;
                assert(chronological@[i2]@ == dump@[j]@);
                assert(1 <= j < dump@.len());
            }
        }
        Ok(chronological)
    }

    /// Produce an `AttestationData` that is valid for the present slot and
    /// given shard: it votes for the canonical head, the epoch's target
    /// root, and the present justified source.
    pub fn produce_attestation_data(&self, shard: u64) -> (r: Result<
        crate::types::AttestationData,
        BeaconChainError,
    >)
        requires
            self.wf(),
            shard < self.state@.latest_crosslinks.len(),
        ensures
            ({
                let s = self.state@;
                let epoch_start = (s.slot / self.spec.slots_per_epoch)
                    * self.spec.slots_per_epoch;
                let target = if s.slot == epoch_start {
                    if self.canonical_head@.beacon_block.slot == s.slot {
                        Ok::<u64, BeaconChainError>(self.canonical_head@.beacon_block_root)
                    } else {
                        if epoch_start >= self.spec.slots_per_epoch && s.slot_in_window(
                            (epoch_start - self.spec.slots_per_epoch) as u64,
                        ) {
                            Ok(s.block_root_at((epoch_start - self.spec.slots_per_epoch) as u64))
                        } else {
                            Err(
                                BeaconChainError::BeaconStateError(
                                    BeaconStateError::SlotOutOfBounds,
                                ),
                            )
                        }
                    }
                } else {
                    if s.slot_in_window(epoch_start as u64) {
                        Ok(s.block_root_at(epoch_start as u64))
                    } else {
                        Err(BeaconChainError::BeaconStateError(BeaconStateError::SlotOutOfBounds))
                    }
                };
                match target {
                    Err(e) => r == Err::<crate::types::AttestationData, BeaconChainError>(e),
                    Ok(t) => r == Ok::<crate::types::AttestationData, BeaconChainError>(
                        crate::types::AttestationData {
                            slot: s.slot,
                            shard,
                            beacon_block_root: self.canonical_head@.beacon_block_root,
                            target_root: t,
                            crosslink_data_root: 0,
                            previous_crosslink: s.latest_crosslinks[shard as int],
                            source_epoch: s.current_justified_epoch,
                            source_root: s.current_justified_root,
                        },
                    ),
                }
            }),
    {
        let slot = self.state.slot;
        let spe = self.spec.slots_per_epoch;
        proof {
            assert((slot / spe) * spe <= slot) by (nonlinear_arith)
                requires
                    spe > 0,
            ;
        }
        let current_epoch_start_slot = (slot / spe) * spe;
        let crosslink_count = self.state.latest_crosslinks.len();

        let target_root = if self.state.slot == current_epoch_start_slot {
            // If we're on the first slot of the state's epoch:
            if self.canonical_head.beacon_block.slot == self.state.slot {
                // the head block is from this slot, so use its root;
                self.canonical_head.beacon_block_root
            } else {
                // otherwise use the start slot of the previous epoch.
                if current_epoch_start_slot < self.spec.slots_per_epoch {
                    return Err(
                        BeaconChainError::BeaconStateError(BeaconStateError::SlotOutOfBounds),
                    );
                }
                match self.state.get_block_root(
                    current_epoch_start_slot - self.spec.slots_per_epoch,
                ) {
                    Ok(root) => root,
                    Err(e) => {
                        return Err(BeaconChainError::BeaconStateError(e));
                    },
                }
            }
        } else {
            // Not on the first slot of the epoch: use the epoch's start slot.
            match self.state.get_block_root(current_epoch_start_slot) {
                Ok(root) => root,
                Err(e) => {
                    return Err(BeaconChainError::BeaconStateError(e));
                },
            }
        };

        Ok(
            crate::types::AttestationData {
                slot: self.state.slot,
                shard,
                beacon_block_root: self.canonical_head.beacon_block_root,
                target_root,
                crosslink_data_root: 0,
                previous_crosslink: self.state.latest_crosslinks[shard as usize],
                source_epoch: self.state.current_justified_epoch,
                source_root: self.state.current_justified_root,
            },
        )
    }
}

} // verus!

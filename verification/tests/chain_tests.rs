//! End-to-end scenarios over the chain orchestrator.

use beacon_core::beacon_chain::{
    genesis_beacon_block, genesis_block_and_state, BeaconChain, BlockProcessingOutcome,
    InvalidBlock, ValidBlock,
};
use beacon_core::bls::{sign, SecretKey};
use beacon_core::block::BeaconBlock;
use beacon_core::chain_spec::ChainSpec;
use beacon_core::fork_choice::HighestSlotForkChoice;
use beacon_core::slot_clock::TestingSlotClock;
use beacon_core::state::BeaconState;
use beacon_core::store::MemoryStore;
use beacon_core::types::{BeaconBlockHeader, Validator};

type Chain = BeaconChain<MemoryStore, TestingSlotClock, HighestSlotForkChoice>;

const VALIDATOR_SECRET: u64 = 7;

/// A genesis pair with one registered validator, so produced blocks can be
/// signed and accepted.
fn genesis_with_validator(spec: &ChainSpec) -> (BeaconBlock, BeaconState) {
    let (_stub_block, mut state) = genesis_block_and_state(spec, 0);
    state.validator_registry.push(Validator {
        pubkey: VALIDATOR_SECRET,
        activation_epoch: 0,
        exit_epoch: u64::MAX,
        initiated_exit: false,
    });
    state.validator_balances.push(32);
    let root = state.canonical_root();
    let block = genesis_beacon_block(root, spec);
    (block, state)
}

fn new_chain() -> Chain {
    let spec = ChainSpec::testing_spec();
    let (genesis_block, genesis_state) = genesis_with_validator(&spec);
    BeaconChain::from_genesis(
        MemoryStore::new(),
        TestingSlotClock::new(0),
        genesis_state,
        genesis_block,
        spec,
        HighestSlotForkChoice::new(),
    )
    .unwrap()
}

/// Produce and sign a valid block at the chain's present slot.
fn make_valid_block(chain: &Chain, randao: u64) -> BeaconBlock {
    let (mut block, _state) = chain.produce_block(randao).unwrap();
    let message = block.canonical_root();
    let sk = SecretKey { val: VALIDATOR_SECRET };
    block.signature = sign(&sk, message, chain.spec.domain_beacon_block);
    block
}

fn accept_block_at(chain: &mut Chain, slot: u64, randao: u64) -> (u64, BeaconBlock) {
    chain.slot_clock.set_slot(slot);
    chain.catchup_state().unwrap();
    let block = make_valid_block(chain, randao);
    let root = block.canonical_root();
    let outcome = chain.process_block(block.clone()).unwrap();
    assert_eq!(
        outcome,
        BlockProcessingOutcome::ValidBlock(ValidBlock::Processed)
    );
    (root, block)
}

#[test]
fn test_genesis() {
    let spec = ChainSpec::testing_spec();
    let (genesis_block, genesis_state) = genesis_with_validator(&spec);
    let genesis_root = genesis_block.canonical_root();
    let state_root = genesis_state.canonical_root();
    let chain = BeaconChain::from_genesis(
        MemoryStore::new(),
        TestingSlotClock::new(0),
        genesis_state,
        genesis_block.clone(),
        spec,
        HighestSlotForkChoice::new(),
    )
    .unwrap();

    // Both heads equal the genesis checkpoint.
    assert_eq!(chain.head().beacon_block, genesis_block);
    assert_eq!(chain.head().beacon_block_root, genesis_root);
    assert_eq!(chain.head().beacon_state_root, state_root);
    assert_eq!(chain.finalized_head().beacon_block, genesis_block);
    assert_eq!(chain.finalized_head().beacon_block_root, genesis_root);

    // The genesis block and state are retrievable by their roots.
    assert_eq!(chain.get_block(genesis_root), Some(genesis_block));
    assert!(!chain.is_new_block_root(genesis_root));
}

#[test]
fn future_slot_is_rejected_without_touching_the_store() {
    let mut chain = new_chain();
    // Build a valid block for slot 1 on a twin chain, then submit it while
    // the working state still sits at slot 0.
    let mut twin = new_chain();
    twin.slot_clock.set_slot(1);
    twin.catchup_state().unwrap();
    let block = make_valid_block(&twin, 3);
    let root = block.canonical_root();

    let outcome = chain.process_block(block).unwrap();
    assert_eq!(
        outcome,
        BlockProcessingOutcome::InvalidBlock(InvalidBlock::FutureSlot {
            present_slot: 0,
            block_slot: 1,
        })
    );
    assert!(outcome.is_invalid());
    assert!(!outcome.sucessfully_processed());
    // Nothing was persisted.
    assert!(chain.is_new_block_root(root));
    assert_eq!(chain.head().beacon_block.slot, 0);
}

#[test]
fn state_root_mismatch_is_rejected_and_head_unmoved() {
    let mut chain = new_chain();
    chain.slot_clock.set_slot(1);
    chain.catchup_state().unwrap();

    let (mut block, _state) = chain.produce_block(9).unwrap();
    // Declare a wrong post-state root, then re-sign so only the root check
    // can fail.
    block.state_root = block.state_root.wrapping_add(1);
    let message = block.canonical_root();
    let sk = SecretKey { val: VALIDATOR_SECRET };
    block.signature = sign(&sk, message, chain.spec.domain_beacon_block);
    let root = block.canonical_root();

    let outcome = chain.process_block(block).unwrap();
    assert_eq!(
        outcome,
        BlockProcessingOutcome::InvalidBlock(InvalidBlock::StateRootMismatch)
    );
    assert!(outcome.is_invalid());
    assert!(chain.is_new_block_root(root));
    assert_eq!(chain.head().beacon_block.slot, 0);
}

#[test]
fn parent_unknown_then_resubmission_succeeds() {
    // Chain A accepts block 1 and produces block 2.
    let mut a = new_chain();
    let (root1, block1) = accept_block_at(&mut a, 1, 11);
    a.slot_clock.set_slot(2);
    a.catchup_state().unwrap();
    let block2 = make_valid_block(&a, 22);

    // Chain B has only genesis: block 2's parent is unknown to it.
    let mut b = new_chain();
    b.slot_clock.set_slot(2);
    b.catchup_state().unwrap();
    let outcome = b.process_block(block2.clone()).unwrap();
    assert_eq!(
        outcome,
        BlockProcessingOutcome::InvalidBlock(InvalidBlock::ParentUnknown)
    );
    assert!(!outcome.is_invalid());
    assert_eq!(b.head().beacon_block.slot, 0);
    assert_eq!(b.finalized_head().beacon_block.slot, 0);

    // Once the parent arrives, the same block is accepted.
    let outcome1 = b.process_block(block1).unwrap();
    assert_eq!(
        outcome1,
        BlockProcessingOutcome::ValidBlock(ValidBlock::Processed)
    );
    assert_eq!(b.head().beacon_block_root, root1);
    let outcome2 = b.process_block(block2.clone()).unwrap();
    assert_eq!(
        outcome2,
        BlockProcessingOutcome::ValidBlock(ValidBlock::Processed)
    );
    assert_eq!(b.head().beacon_block_root, block2.canonical_root());
    assert_eq!(b.head().beacon_block.slot, 2);
}

#[test]
fn test_restart_chain() {
    let spec = ChainSpec::testing_spec();
    let (genesis_block, genesis_state) = genesis_with_validator(&spec);

    let mut chain = BeaconChain::from_genesis(
        MemoryStore::new(),
        TestingSlotClock::new(0),
        genesis_state.clone(),
        genesis_block.clone(),
        spec,
        HighestSlotForkChoice::new(),
    )
    .unwrap();

    let (root1, _block1) = accept_block_at(&mut chain, 1, 5);
    assert_eq!(chain.best_header(), root1);
    assert_eq!(chain.best_index(), 1);

    // Create a new chain instance that reads from the same storage,
    // replaying only the genesis constructor.
    let store = chain.store;
    let other = BeaconChain::from_genesis(
        store,
        TestingSlotClock::new(1),
        genesis_state,
        genesis_block,
        spec,
        HighestSlotForkChoice::new(),
    )
    .unwrap();
    assert_eq!(other.head().beacon_block_root, root1);
    assert_eq!(other.head().beacon_block.slot, 1);
    assert_eq!(other.best_index(), 1);
    assert_eq!(other.get_block(root1).map(|b| b.slot), Some(1));
}

#[test]
fn test_light_client() {
    let mut chain = new_chain();

    // A header-only reference at slot 1, built from a real block.
    chain.slot_clock.set_slot(1);
    chain.catchup_state().unwrap();
    let block1 = make_valid_block(&chain, 77);
    let header1 = block1.block_header();
    let root1 = chain.process_header(header1);
    assert_eq!(chain.best_index(), 1);
    assert!(chain.is_known_header(root1));
    assert!(!chain.is_known_block(root1));

    // A header-only reference at slot 2, on top of the first.
    let header2 = BeaconBlockHeader {
        slot: 2,
        previous_block_root: root1,
        state_root: 0,
        block_body_root: 0,
        signature: 0,
    };
    chain.process_header(header2);
    assert_eq!(chain.best_index(), 2);

    // Now insert the full slot-1 block: it becomes known as a block without
    // changing the best known header slot.
    let outcome = chain.process_block(block1).unwrap();
    assert_eq!(
        outcome,
        BlockProcessingOutcome::ValidBlock(ValidBlock::Processed)
    );
    assert_eq!(chain.best_index(), 2);
    assert!(chain.is_known_block(root1));
    assert!(chain.is_known_header(root1));
    assert_eq!(chain.head().beacon_block.slot, 1);
    assert_eq!(chain.head().beacon_block_root, root1);
}

#[test]
fn block_roots_are_chronological_with_exact_length() {
    let mut chain = new_chain();
    let (root1, _) = accept_block_at(&mut chain, 1, 1);
    let (root2, _) = accept_block_at(&mut chain, 2, 2);
    let (root3, _) = accept_block_at(&mut chain, 3, 3);

    let roots = chain.get_block_roots(1, 3, 0).unwrap();
    assert_eq!(roots.len(), 3);
    assert_eq!(roots, vec![root1, root2, root3]);

    // A range reaching above the working state's slot fails with a bounds
    // error instead of returning a short list.
    assert!(chain.get_block_roots(2, 3, 0).is_err());
}

#[test]
fn block_roots_respect_the_requested_spacing() {
    let mut chain = new_chain();
    let (_r1, _) = accept_block_at(&mut chain, 1, 1);
    let (root2, _) = accept_block_at(&mut chain, 2, 2);
    let (_r3, _) = accept_block_at(&mut chain, 3, 3);
    let (root4, _) = accept_block_at(&mut chain, 4, 4);

    // Two roots, one skipped slot apart.
    let roots = chain.get_block_roots(1, 2, 1).unwrap();
    assert_eq!(roots, vec![root2, root4]);
}

#[test]
fn produced_blocks_carry_the_pooled_operations() {
    let mut chain = new_chain();

    // Pool an attestation and a voluntary exit against the genesis state.
    let attestation = beacon_core::types::Attestation {
        aggregation_bitfield: 1,
        data: beacon_core::types::AttestationData {
            slot: 0,
            shard: 0,
            beacon_block_root: 0,
            target_root: 0,
            crosslink_data_root: 0,
            previous_crosslink: beacon_core::types::Crosslink { epoch: 0, crosslink_data_root: 0 },
            source_epoch: 0,
            source_root: 0,
        },
        custody_bitfield: 0,
        aggregate_signature: 0,
    };
    chain.process_attestation(attestation).unwrap();

    let mut exit = beacon_core::types::VoluntaryExit { epoch: 0, validator_index: 0, signature: 0 };
    let message = beacon_core::verify_exit::exit_message(&exit);
    exit.signature = sign(&SecretKey { val: VALIDATOR_SECRET }, message, chain.spec.domain_exit);
    chain.process_voluntary_exit(exit).unwrap();

    chain.slot_clock.set_slot(1);
    chain.catchup_state().unwrap();
    let block = make_valid_block(&chain, 8);
    assert_eq!(block.body.attestations.len(), 1);
    assert_eq!(block.body.voluntary_exits.len(), 1);

    let outcome = chain.process_block(block).unwrap();
    assert_eq!(
        outcome,
        BlockProcessingOutcome::ValidBlock(ValidBlock::Processed)
    );
    // The applied block initiated the validator's exit and collected the
    // attestation as pending.
    let head_state = &chain.head().beacon_state;
    assert!(head_state.validator_registry[0].initiated_exit);
    assert_eq!(head_state.current_epoch_attestations.len(), 1);
    assert_eq!(head_state.current_epoch_attestations[0].inclusion_slot, 1);
}

#[test]
fn chain_dump_walks_back_to_genesis() {
    let mut chain = new_chain();
    let genesis_root = chain.head().beacon_block_root;
    let (root1, _) = accept_block_at(&mut chain, 1, 1);
    let (root2, _) = accept_block_at(&mut chain, 2, 2);

    let dump = chain.chain_dump().unwrap();
    assert_eq!(dump.len(), 3);
    assert_eq!(dump[0].beacon_block_root, genesis_root);
    assert_eq!(dump[1].beacon_block_root, root1);
    assert_eq!(dump[2].beacon_block_root, root2);
    assert_eq!(dump[0].beacon_block.previous_block_root, 0);
}

#[test]
fn fork_choice_run_keeps_a_stored_head() {
    let mut chain = new_chain();
    let (root1, _) = accept_block_at(&mut chain, 1, 1);
    chain.fork_choice().unwrap();
    // The highest-slot fork choice picks the only added block.
    assert_eq!(chain.head().beacon_block_root, root1);
}

#[test]
fn queries_read_the_working_state() {
    let mut chain = new_chain();
    assert_eq!(chain.present_slot(), 0);
    assert_eq!(chain.read_slot_clock(), Some(0));
    assert_eq!(chain.slots_since_genesis(), Some(0));
    assert_eq!(chain.block_proposer(5).unwrap(), 0);

    let pk = beacon_core::bls::PublicKey {
        val: VALIDATOR_SECRET,
    };
    assert_eq!(chain.validator_index(&pk), Some(0));
    let other = beacon_core::bls::PublicKey { val: 12345 };
    assert_eq!(chain.validator_index(&other), None);

    assert_eq!(
        chain.validator_attestion_slot_and_shard(0).unwrap(),
        Some((0, 0))
    );
    assert_eq!(chain.validator_attestion_slot_and_shard(9).unwrap(), None);

    chain.slot_clock.set_slot(2);
    chain.catchup_state().unwrap();
    assert_eq!(chain.present_slot(), 2);
}

#[test]
fn an_unreadable_clock_stops_the_catchup() {
    let mut chain = new_chain();
    chain.slot_clock = TestingSlotClock::unavailable();
    assert_eq!(
        chain.catchup_state().unwrap_err(),
        beacon_core::beacon_chain::BeaconChainError::UnableToReadSlot
    );
    assert_eq!(chain.read_slot_clock(), None);
    assert_eq!(chain.slots_since_genesis(), None);
}

#[test]
fn production_needs_a_previous_slot() {
    let chain = new_chain();
    // At the genesis slot there is no previous block root to build on.
    assert_eq!(
        chain.produce_block(1).unwrap_err(),
        beacon_core::beacon_chain::BlockProductionError::UnableToGetBlockRootFromState
    );
}

#[test]
fn attestation_data_votes_for_the_head() {
    let spec = ChainSpec::testing_spec();
    let (_stub, mut state) = genesis_block_and_state(&spec, 0);
    state.validator_registry.push(Validator {
        pubkey: VALIDATOR_SECRET,
        activation_epoch: 0,
        exit_epoch: u64::MAX,
        initiated_exit: false,
    });
    state.validator_balances.push(32);
    state.latest_crosslinks.push(beacon_core::types::Crosslink {
        epoch: 0,
        crosslink_data_root: 3,
    });
    let root = state.canonical_root();
    let block = genesis_beacon_block(root, &spec);
    let mut chain: Chain = BeaconChain::from_genesis(
        MemoryStore::new(),
        TestingSlotClock::new(0),
        state,
        block,
        spec,
        HighestSlotForkChoice::new(),
    )
    .unwrap();

    let (root1, _) = accept_block_at(&mut chain, 1, 1);
    let data = chain.produce_attestation_data(0).unwrap();
    assert_eq!(data.slot, 1);
    assert_eq!(data.shard, 0);
    assert_eq!(data.beacon_block_root, root1);
    assert_eq!(data.previous_crosslink.crosslink_data_root, 3);
}

#[test]
fn block_bodies_and_headers_by_roots() {
    let mut chain = new_chain();
    let (root1, block1) = accept_block_at(&mut chain, 1, 1);

    let headers = chain.get_block_headers(&vec![root1]).unwrap();
    assert_eq!(headers, vec![block1.block_header()]);
    let bodies = chain.get_block_bodies(&vec![root1]).unwrap();
    assert_eq!(bodies.len(), 1);
    assert_eq!(bodies[0], block1.body);

    assert!(chain.get_block_bodies(&vec![9999]).is_err());
    assert!(chain.get_block_headers(&vec![9999]).is_err());
}

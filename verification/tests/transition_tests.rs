//! Tests of the per-slot transition and its history caching.

use beacon_core::chain_spec::ChainSpec;
use beacon_core::state::BeaconState;
use beacon_core::transition::per_slot_processing;
use beacon_core::types::BeaconBlockHeader;

fn genesis_state(spec: &ChainSpec) -> BeaconState {
    let header = BeaconBlockHeader {
        slot: 0,
        previous_block_root: 0,
        state_root: 0,
        block_body_root: 0,
        signature: 0,
    };
    BeaconState::genesis(spec, 0, header)
}

#[test]
fn per_slot_advances_the_slot() {
    let spec = ChainSpec::testing_spec();
    let mut state = genesis_state(&spec);
    per_slot_processing(&mut state, &spec).unwrap();
    assert_eq!(state.slot, 1);
}

#[test]
fn round_trip_records_the_previous_state_root() {
    // Applying the per-slot transition N times from slot S yields a state at
    // slot S + N whose state-root ring holds, at the ring index of slot
    // S + N - 1, the root of the state after N - 1 transitions.
    let spec = ChainSpec::testing_spec();
    let mut state = genesis_state(&spec);
    let n = 3u64;
    let mut root_before_last = 0;
    for step in 0..n {
        if step == n - 1 {
            root_before_last = state.canonical_root();
        }
        per_slot_processing(&mut state, &spec).unwrap();
    }
    assert_eq!(state.slot, n);
    assert_eq!(state.get_state_root(n - 1), Ok(root_before_last));
}

#[test]
fn ring_indices_wrap_around_their_window() {
    let spec = ChainSpec::testing_spec();
    let mut state = genesis_state(&spec);
    // Advance beyond one full ring so indices wrap.
    let n = beacon_core::SLOTS_PER_HISTORICAL_ROOT + 2;
    let mut previous_root = 0;
    for step in 0..n {
        if step == n - 1 {
            previous_root = state.canonical_root();
        }
        per_slot_processing(&mut state, &spec).unwrap();
    }
    assert_eq!(state.slot, n);
    assert_eq!(state.get_state_root(n - 1), Ok(previous_root));
    // Slots that have fallen out of the window report the bounds error.
    assert!(state.get_state_root(0).is_err());
    assert!(state.get_block_root(n).is_err());
}

#[test]
fn zero_header_state_root_is_backfilled() {
    let spec = ChainSpec::testing_spec();
    let mut state = genesis_state(&spec);
    assert_eq!(state.latest_block_header.state_root, spec.zero_hash);
    let root_before = state.canonical_root();
    per_slot_processing(&mut state, &spec).unwrap();
    assert_eq!(state.latest_block_header.state_root, root_before);
}

#[test]
fn epoch_boundaries_rotate_justification() {
    let spec = ChainSpec::testing_spec();
    let mut state = genesis_state(&spec);
    state.current_justified_epoch = 4;
    state.current_justified_root = 99;
    // Slots 0..4: the transition into slot 4 crosses the epoch boundary.
    for _ in 0..4 {
        per_slot_processing(&mut state, &spec).unwrap();
    }
    assert_eq!(state.previous_justified_epoch, 4);
    assert_eq!(state.previous_justified_root, 99);
}

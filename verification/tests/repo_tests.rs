//! Tests of the store, the repository columns, and the crate wiring.

use beacon_core::beacon_chain::genesis_beacon_block;
use beacon_core::block::BeaconBlock;
use beacon_core::chain_spec::ChainSpec;
use beacon_core::datastore::{Column, DBColumn as ChainColumn, RepoEvent};
use beacon_core::repo::DBColumn;
use beacon_core::store::{get_block_at_preceeding_slot, MemoryStore, Store, StoreValue};

#[test]
fn lib_it_works() {
    assert_eq!(2 + 2, 4);
}

#[test]
fn column_names_are_stable() {
    assert_eq!(DBColumn::Wallet.as_str(), "wat");
    assert_eq!(DBColumn::Keystore.as_str(), "kst");
    assert_eq!(DBColumn::BeaconBlock.as_str(), "blk");
    assert_eq!(DBColumn::BeaconState.as_str(), "ste");
    assert_eq!(DBColumn::BeaconChain.as_str(), "bch");
    // The sibling enums exist for their own columns and events.
    let _ = Column::Ipns;
    let _ = ChainColumn::ShardBlock;
    let _ = RepoEvent::WantBlock(1);
}

#[test]
fn memory_store_returns_the_latest_write() {
    let spec = ChainSpec::testing_spec();
    let mut store = MemoryStore::new();
    assert_eq!(store.get_head(), None);
    assert!(!store.contains(5));

    let b1 = genesis_beacon_block(11, &spec);
    let b2 = genesis_beacon_block(22, &spec);
    store.put(5, StoreValue::Block(b1));
    store.put(5, StoreValue::Block(b2));
    match store.get(5) {
        Some(StoreValue::Block(b)) => assert_eq!(b.state_root, 22),
        _ => panic!("expected the second write"),
    }
    assert!(store.contains(5));
    store.put_head(5);
    assert_eq!(store.get_head(), Some(5));
}

fn block_at(slot: u64, parent: u64, spec: &ChainSpec) -> BeaconBlock {
    let mut b = genesis_beacon_block(0, spec);
    b.slot = slot;
    b.previous_block_root = parent;
    b
}

#[test]
fn preceding_slot_lookup_walks_parents() {
    let spec = ChainSpec::testing_spec();
    let mut store = MemoryStore::new();

    let b1 = block_at(1, 0, &spec);
    let r1 = b1.canonical_root();
    let b2 = block_at(2, r1, &spec);
    let r2 = b2.canonical_root();
    let b3 = block_at(4, r2, &spec);
    let r3 = b3.canonical_root();
    store.put(r1, StoreValue::Block(b1));
    store.put(r2, StoreValue::Block(b2));
    store.put(r3, StoreValue::Block(b3));

    // An ancestor at the exact slot is found, with its root.
    let (root, block) = get_block_at_preceeding_slot(&store, 1, r3).unwrap();
    assert_eq!(root, r1);
    assert_eq!(block.slot, 1);

    // No ancestor sits at a skipped slot.
    assert!(get_block_at_preceeding_slot(&store, 3, r3).is_none());
    // A slot above the start block yields nothing.
    assert!(get_block_at_preceeding_slot(&store, 5, r3).is_none());
    // An unknown start root yields nothing.
    assert!(get_block_at_preceeding_slot(&store, 1, 424242).is_none());
}

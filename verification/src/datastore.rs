//! Column identifiers and events of the block-oriented data store.

use vstd::prelude::*;

verus! {

/// A unique column identifier.
#[derive(Clone, Copy, PartialEq, Eq, Structural, Debug)]
pub enum Column {
    Ipns,
}

/// The chain-data columns.
#[derive(Clone, Copy, PartialEq, Eq, Structural, Debug)]
pub enum DBColumn {
    BeaconBlock,
    BeaconState,
    ShardBlock,
}

/// An event the repository reports about a block, named by its content
/// root.
#[derive(Clone, Copy, PartialEq, Eq, Structural, Debug)]
pub enum RepoEvent {
    WantBlock(u64),
    ProvideBlock(u64),
    UnprovideBlock(u64),
}

} // verus!

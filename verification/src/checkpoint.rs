//! Checkpoints: an immutable pairing of a block and the state produced by
//! applying it, each with its content root.

use vstd::prelude::*;

use crate::block::{BeaconBlock, BlockView};
use crate::state::{BeaconState, StateView};

verus! {

/// A block and the state resulting from applying it, each paired with its
/// canonical root. Both the canonical head and the finalized head are
/// checkpoints, replaced atomically on update.
#[derive(Debug, PartialEq)]
pub struct CheckPoint {
    pub beacon_block: BeaconBlock,
    pub beacon_block_root: u64,
    pub beacon_state: BeaconState,
    pub beacon_state_root: u64,
}

/// The mathematical content of a checkpoint.
#[verifier::ext_equal]
pub ghost struct CheckPointView {
    pub beacon_block: BlockView,
    pub beacon_block_root: u64,
    pub beacon_state: StateView,
    pub beacon_state_root: u64,
}

impl View for CheckPoint {
    type V = CheckPointView;

    open spec fn view(&self) -> CheckPointView {
        CheckPointView {
            beacon_block: self.beacon_block@,
            beacon_block_root: self.beacon_block_root,
            beacon_state: self.beacon_state@,
            beacon_state_root: self.beacon_state_root,
        }
    }
}

impl CheckPoint {
    /// A new checkpoint from its four fields.
    pub fn new(
        beacon_block: BeaconBlock,
        beacon_block_root: u64,
        beacon_state: BeaconState,
        beacon_state_root: u64,
    ) -> (r: CheckPoint)
        ensures
            r@.beacon_block == beacon_block@,
            r@.beacon_block_root == beacon_block_root,
            r@.beacon_state == beacon_state@,
            r@.beacon_state_root == beacon_state_root,
    {
        CheckPoint { beacon_block, beacon_block_root, beacon_state, beacon_state_root }
    }

    /// Replace all four fields at once; readers never observe a partial
    /// update.
    pub fn update(
        &mut self,
        beacon_block: BeaconBlock,
        beacon_block_root: u64,
        beacon_state: BeaconState,
        beacon_state_root: u64,
    )
        ensures
            final(self)@.beacon_block == beacon_block@,
            final(self)@.beacon_block_root == beacon_block_root,
            final(self)@.beacon_state == beacon_state@,
            final(self)@.beacon_state_root == beacon_state_root,
    {
        self.beacon_block = beacon_block;
        self.beacon_block_root = beacon_block_root;
        self.beacon_state = beacon_state;
        self.beacon_state_root = beacon_state_root;
    }
}

impl Clone for CheckPoint {
    /// A clone carries exactly the same content.
    fn clone(&self) -> (r: Self)
        ensures
            r@ == self@,
    {
        let r = CheckPoint {
            beacon_block: self.beacon_block.clone(),
            beacon_block_root: self.beacon_block_root,
            beacon_state: self.beacon_state.clone(),
            beacon_state_root: self.beacon_state_root,
        };
        proof {
            assert(r@ =~= self@);
        }
        r
    }
}

} // verus!

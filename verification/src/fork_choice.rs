//! The fork-choice decision procedure, as a pluggable interface with one
//! in-memory implementation.
//!
//! The core requires only the interface contract: a head found by the
//! procedure is the root of a previously added block, or the start root
//! itself.

use vstd::prelude::*;

use crate::block::BeaconBlock;
use crate::chain_spec::ChainSpec;

verus! {

/// A failure of the fork-choice procedure.
#[derive(Clone, Copy, PartialEq, Eq, Structural, Debug)]
pub enum ForkChoiceError {
    /// A referenced block was never added to the graph.
    MissingBlock(u64),
}

/// The fork-choice interface: blocks are added to a graph, and a head is
/// chosen starting from a root.
pub trait ForkChoice: Sized {
    /// The roots of the blocks added so far.
    spec fn blocks(&self) -> Set<u64>;

    /// Add a block to the graph.
    fn add_block(&mut self, block: &BeaconBlock, block_root: u64, spec: &ChainSpec) -> (r: Result<
        (),
        ForkChoiceError,
    >)
        ensures
            r is Ok ==> final(self).blocks() == old(self).blocks().insert(block_root),
            r is Err ==> final(self).blocks() == old(self).blocks(),
    ;

    /// Find the best head starting from `start_root`. A returned head is the
    /// root of a previously added block, or `start_root` itself.
    fn find_head(&self, start_root: u64, spec: &ChainSpec) -> (r: Result<u64, ForkChoiceError>)
        ensures
            r is Ok ==> self.blocks().contains(r->Ok_0) || r->Ok_0 == start_root,
    ;
}

/// The roots held in an entry list.
pub open spec fn roots_of(s: Seq<(u64, u64)>) -> Set<u64>
    decreases s.len(),
{
    if s.len() == 0 {
        Set::<u64>::empty()
    } else {
        roots_of(s.drop_last()).insert(s.last().0)
    }
}

/// Every entry's root is in the set.
proof fn lemma_roots_of_contains(s: Seq<(u64, u64)>, j: int)
    requires
        0 <= j < s.len(),
    ensures
        roots_of(s).contains(s[j].0),
    decreases s.len(),
{
    if j == s.len() - 1 {
    } else {
        lemma_roots_of_contains(s.drop_last(), j);
    }
}

/// A first-cut fork choice: the head is the added block with the highest
/// slot, the earliest added winning a tie.
pub struct HighestSlotForkChoice {
    /// The added blocks, as pairs of root and slot.
    pub entries: Vec<(u64, u64)>,
}

impl HighestSlotForkChoice {
    /// An empty graph.
    pub fn new() -> (r: HighestSlotForkChoice)
        ensures
            r.blocks() == Set::<u64>::empty(),
    {
        HighestSlotForkChoice { entries: Vec::new() }
    }
}

impl ForkChoice for HighestSlotForkChoice {
    open spec fn blocks(&self) -> Set<u64> {
        roots_of(self.entries@)
    }

    fn add_block(&mut self, block: &BeaconBlock, block_root: u64, spec: &ChainSpec) -> (r: Result<
        (),
        ForkChoiceError,
    >) {
        self.entries.push((block_root, block.slot));
        proof {
            assert(self.entries@.drop_last() =~= old(self).entries@);
        }
        Ok(())
    }

    fn find_head(&self, start_root: u64, spec: &ChainSpec) -> (r: Result<u64, ForkChoiceError>) {
        let mut best_root = start_root;
        let mut best_slot: u64 = 0;
        let mut found = false;
        let mut i: usize = 0;
        while i < self.entries.len()
            invariant
                0 <= i <= self.entries@.len(),
                !found ==> best_root == start_root,
                found ==> roots_of(self.entries@).contains(best_root),
            decreases self.entries@.len() - i,
        {
            let e = self.entries[i];
            if !found || e.1 > best_slot {
                best_root = e.0;
                best_slot = e.1;
                found = true;
                proof {
                    lemma_roots_of_contains(self.entries@, i as int);
                }
            }
            i = i + 1;
        }
        Ok(best_root)
    }
}

} // verus!

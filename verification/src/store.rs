//! The content-addressed store interface and its in-memory implementation.
//!
//! A store maps 32-byte content hashes (modelled as words) to blocks, states
//! and header-only references, and additionally remembers the root of the
//! best head so a restarted chain can find its tip again.

use vstd::prelude::*;

use crate::block::{BeaconBlock, BlockView};
use crate::state::{BeaconState, StateView};
use crate::types::BeaconBlockHeader;

verus! {

/// A value a store can hold.
pub enum StoreValue {
    /// A full block.
    Block(BeaconBlock),
    /// A state.
    State(BeaconState),
    /// A header-only reference to a block whose body is not yet known.
    Header(BeaconBlockHeader),
}

/// The mathematical content of a stored value.
pub ghost enum StoreValueView {
    Block(BlockView),
    State(StateView),
    Header(BeaconBlockHeader),
}

impl View for StoreValue {
    type V = StoreValueView;

    open spec fn view(&self) -> StoreValueView {
        match self {
            StoreValue::Block(b) => StoreValueView::Block(b@),
            StoreValue::State(s) => StoreValueView::State(s@),
            StoreValue::Header(h) => StoreValueView::Header(*h),
        }
    }
}

impl Clone for StoreValue {
    /// A clone carries exactly the same content.
    fn clone(&self) -> (r: Self)
        ensures
            r@ == self@,
    {
        match self {
            StoreValue::Block(b) => StoreValue::Block(b.clone()),
            StoreValue::State(s) => StoreValue::State(s.clone()),
            StoreValue::Header(h) => StoreValue::Header(*h),
        }
    }
}

/// A content-addressed persistent key-value interface: put and get by
/// content hash, plus the persisted best-head pointer.
///
/// `put` is durable before the call returns; `get` on an unknown hash
/// returns `None`, never an error.
pub trait Store: Sized {
    /// The mapping from content hash to stored value.
    spec fn contents(&self) -> Map<u64, StoreValueView>;

    /// The persisted best-head root, if one was ever recorded.
    spec fn head_root(&self) -> Option<u64>;

    /// Store `value` under `key`.
    fn put(&mut self, key: u64, value: StoreValue)
        ensures
            final(self).contents() == old(self).contents().insert(key, value@),
            final(self).head_root() == old(self).head_root();

    /// Retrieve the value stored under `key`, if any.
    fn get(&self, key: u64) -> (r: Option<StoreValue>)
        ensures
            match r {
                Some(v) => self.contents().contains_key(key) && v@ == self.contents()[key],
                None => !self.contents().contains_key(key),
            },
    ;

    /// Whether a value is stored under `key`.
    fn contains(&self, key: u64) -> (r: bool)
        ensures
            r == self.contents().contains_key(key),
    ;

    /// Persist `root` as the best-head pointer.
    fn put_head(&mut self, root: u64)
        ensures
            final(self).contents() == old(self).contents(),
            final(self).head_root() == Some(root),
    ;

    /// The persisted best-head pointer, if any.
    fn get_head(&self) -> (r: Option<u64>)
        ensures
            r == self.head_root(),
    ;
}

/// The block a stored value holds, if it is a block.
pub open spec fn as_block(v: StoreValueView) -> Option<BlockView> {
    match v {
        StoreValueView::Block(b) => Some(b),
        _ => None,
    }
}

/// The state a stored value holds, if it is a state.
pub open spec fn as_state(v: StoreValueView) -> Option<StateView> {
    match v {
        StoreValueView::State(s) => Some(s),
        _ => None,
    }
}

/// The header a stored value holds: a header-only entry yields it directly,
/// a full block yields its summarizing header.
pub open spec fn as_header(v: StoreValueView) -> Option<BeaconBlockHeader> {
    match v {
        StoreValueView::Header(h) => Some(h),
        StoreValueView::Block(b) => Some(crate::block::spec_header_of(b)),
        _ => None,
    }
}

/// The map an entry list denotes; a later entry for the same key wins.
pub open spec fn entries_map(s: Seq<(u64, StoreValue)>) -> Map<u64, StoreValueView>
    decreases s.len(),
{
    if s.len() == 0 {
        Map::<u64, StoreValueView>::empty()
    } else {
        entries_map(s.drop_last()).insert(s.last().0, s.last().1@)
    }
}

/// A match at `i` with no later entry holding `key` fixes the lookup.
proof fn lemma_entries_map_match(s: Seq<(u64, StoreValue)>, key: u64, i: int)
    requires
        0 <= i < s.len(),
        s[i].0 == key,
        forall|j: int| i < j < s.len() ==> (#[trigger] s[j]).0 != key,
    ensures
        entries_map(s).contains_key(key),
        entries_map(s)[key] == s[i].1@,
    decreases s.len(),
{
    if i == s.len() - 1 {
    } else {
        assert(s.last().0 != key);
        assert(forall|j: int|
            i < j < s.drop_last().len() ==> (#[trigger] s.drop_last()[j]).0 != key);
        lemma_entries_map_match(s.drop_last(), key, i);
    }
}

/// When no entry holds `key`, the lookup fails.
proof fn lemma_entries_map_no_match(s: Seq<(u64, StoreValue)>, key: u64)
    requires
        forall|j: int| 0 <= j < s.len() ==> (#[trigger] s[j]).0 != key,
    ensures
        !entries_map(s).contains_key(key),
    decreases s.len(),
{
    if s.len() == 0 {
    } else {
        assert(s.last().0 != key);
        lemma_entries_map_no_match(s.drop_last(), key);
    }
}

/// An in-memory store: an append-only entry list where the latest entry for
/// a key wins.
pub struct MemoryStore {
    pub entries: Vec<(u64, StoreValue)>,
    pub head: Option<u64>,
}

impl MemoryStore {
    /// An empty store.
    pub fn new() -> (r: MemoryStore)
        ensures
            r.contents() == Map::<u64, StoreValueView>::empty(),
            r.head_root() is None,
    {
        MemoryStore { entries: Vec::new(), head: None }
    }
}

impl Store for MemoryStore {
    open spec fn contents(&self) -> Map<u64, StoreValueView> {
        entries_map(self.entries@)
    }

    open spec fn head_root(&self) -> Option<u64> {
        self.head
    }

    fn put(&mut self, key: u64, value: StoreValue) {
        self.entries.push((key, value));
        proof {
            assert(self.entries@.drop_last() =~= old(self).entries@);
            assert(self.contents() =~= old(self).contents().insert(
                key,
                self.entries@.last().1@,
            ));
        }
    }

    fn get(&self, key: u64) -> (r: Option<StoreValue>) {
        let mut i: usize = self.entries.len();
        while i > 0
            invariant
                0 <= i <= self.entries@.len(),
                forall|j: int|
                    i <= j < self.entries@.len() ==> (#[trigger] self.entries@[j]).0 != key,
            decreases i,
        {
            i = i - 1;
            let hit = self.entries[i].0 == key;
            if hit {
                let v = self.entries[i].1.clone();
                proof {
                    lemma_entries_map_match(self.entries@, key, i as int);
                }
                return Some(v);
            }
        }
        proof {
            lemma_entries_map_no_match(self.entries@, key);
        }
        None
    }

    fn contains(&self, key: u64) -> (r: bool) {
        let mut i: usize = self.entries.len();
        while i > 0
            invariant
                0 <= i <= self.entries@.len(),
                forall|j: int|
                    i <= j < self.entries@.len() ==> (#[trigger] self.entries@[j]).0 != key,
            decreases i,
        {
            i = i - 1;
            let hit = self.entries[i].0 == key;
            if hit {
                proof {
                    lemma_entries_map_match(self.entries@, key, i as int);
                }
                return true;
            }
        }
        proof {
            lemma_entries_map_no_match(self.entries@, key);
        }
        false
    }

    fn put_head(&mut self, root: u64) {
        self.head = Some(root);
    }

    fn get_head(&self) -> (r: Option<u64>) {
        self.head
    }
}

/// The parent walk from `root` towards slot `slot`, bounded above by
/// `bound`: the walk stops with the block it finds at exactly `slot`, and
/// finds nothing on a missing or header-only entry, on a block below the
/// slot, or on a parent whose slot fails to stay below its child's.
pub open spec fn spec_block_at_preceding_slot(
    contents: Map<u64, StoreValueView>,
    root: u64,
    slot: u64,
    bound: nat,
) -> Option<(u64, BlockView)>
    decreases bound,
{
    if !contents.contains_key(root) || as_block(contents[root]) is None {
        None
    } else {
        let b = as_block(contents[root]).unwrap();
        if (b.slot as nat) >= bound {
            None
        } else if b.slot == slot {
            Some((root, b))
        } else if b.slot < slot {
            None
        } else {
            spec_block_at_preceding_slot(contents, b.previous_block_root, slot, b.slot as nat)
        }
    }
}

/// Given the root of a block in the store, return the ancestor block at
/// exactly `slot`, with its root: the result of the parent walk
/// [`spec_block_at_preceding_slot`].
///
/// Returns `None` if the walk meets a missing or header-only entry, if the
/// start block sits below `slot`, if no ancestor at `slot` exists, or if a
/// parent's slot fails to decrease (a corrupt chain).
pub fn get_block_at_preceeding_slot<T: Store>(store: &T, slot: u64, start_block_root: u64) -> (r:
    Option<(u64, BeaconBlock)>)
    ensures
        match r {
            Some(p) => spec_block_at_preceding_slot(
                store.contents(),
                start_block_root,
                slot,
                u64::MAX as nat,
            ) == Some((p.0, p.1@)),
            None => spec_block_at_preceding_slot(
                store.contents(),
                start_block_root,
                slot,
                u64::MAX as nat,
            ) is None,
        },
{
    let mut root = start_block_root;
    let mut bound: u64 = u64::MAX;
    loop
        invariant
            spec_block_at_preceding_slot(store.contents(), root, slot, bound as nat)
                == spec_block_at_preceding_slot(
                store.contents(),
                start_block_root,
                slot,
                u64::MAX as nat,
            ),
        decreases bound,
    {
        let block = match store.get(root) {
            Some(StoreValue::Block(b)) => b,
            _ => {
                return None;
            },
        };
        // Refuse a parent link that does not move down the chain.
        if block.slot >= bound {
            return None;
        }
        if block.slot == slot {
            return Some((root, block));
        }
        if block.slot < slot {
            return None;
        }
        bound = block.slot;
        root = block.previous_block_root;
    }
}

} // verus!

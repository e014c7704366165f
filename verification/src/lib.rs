//! Consensus core of a proof-of-stake blockchain node.
//!
//! The library maintains a single validated chain of blocks and their
//! associated states: it advances states slot by slot, validates and stores
//! incoming blocks, keeps canonical and finalized head checkpoints, pools
//! pending operations for block production, and answers the queries a block
//! proposer needs.

use vstd::prelude::*;

pub mod aes;
pub mod api_types;
pub mod beacon_chain;
pub mod bls;
pub mod block;
pub mod cbor;
pub mod chain_spec;
pub mod checkpoint;
pub mod datastore;
pub mod fork_choice;
pub mod hashing;
pub mod ipld;
pub mod op_pool;
pub mod repo;
pub mod roots;
pub mod shuffle;
pub mod slot_clock;
pub mod state;
pub mod store;
pub mod transition;
pub mod types;
pub mod verify_exit;

verus! {

/// Number of slots retained in the historical block-root and state-root ring
/// buffers of a state.
pub const SLOTS_PER_HISTORICAL_ROOT: u64 = 8;

/// Root used as the "no parent" / "not yet known" sentinel.
pub const ZERO_HASH: u64 = 0;

/// Number of shards attestation duties are spread over.
pub const SHARD_COUNT: u64 = 8;

/// Copy the elements of a vector into a fresh vector with the same content.
pub fn clone_copy_vec<T: Copy>(v: &Vec<T>) -> (r: Vec<T>)
    ensures
        r@ == v@,
{
    let mut r: Vec<T> = Vec::new();
    let mut i: usize = 0;
    proof {
        assert(r@ =~= v@.subrange(0, 0));
    }
    while i < v.len()
        invariant
            0 <= i <= v.len(),
            r@ == v@.subrange(0, i as int),
        decreases v.len() - i,
    {
        r.push(v[i]);
        proof {
            assert(r@ =~= v@.subrange(0, i as int + 1));
        }
        i = i + 1;
    }
    proof {
        assert(v@.subrange(0, v@.len() as int) =~= v@);
    }
    r
}

} // verus!

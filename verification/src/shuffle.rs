//! The "swap or not" shuffle: the position of one index in a pseudorandom
//! permutation of `0..list_size`, driven by a seed.

use vstd::prelude::*;

use crate::hashing::{bytes_to_int64, hash, hash_of, int_to_bytes1, int_to_bytes4, le_bytes4};

verus! {

/// Largest list the shuffle accepts.
pub const MAX_SHUFFLE_LIST_SIZE: usize = 0x1000000;

/// The pivot a round derives from the seed: the first eight digest bytes of
/// the seed extended with the round number, reduced into the list.
pub open spec fn spec_pivot(seed: Seq<u8>, round: u8, list_size: usize) -> usize
    recommends
        list_size > 0,
{
    (((crate::hashing::spec_le64(hash_of(seed + seq![round])) as usize) as int) % (
    list_size as int)) as usize
}

/// The mirror of an index around the pivot.
pub open spec fn spec_flip(pivot: usize, index: usize, list_size: usize) -> usize
    recommends
        0 < list_size,
        index < list_size,
        pivot < list_size,
{
    ((pivot + list_size - index) % (list_size as int)) as usize
}

/// Whether the round digest's bit at the decision position orders a swap.
pub open spec fn spec_round_bit(seed: Seq<u8>, round: u8, position: int) -> bool {
    let source = hash_of(seed + seq![round] + le_bytes4((position / 256) as u32));
    let byte = source[(position % 256) / 8];
    ((byte >> ((position % 8) as u8)) % 2u8) == 1
}

/// One round of the swap-or-not network for a given pivot: the index swaps
/// with its mirror exactly when the digest bit at the higher of the two
/// says so.
pub open spec fn spec_do_round_given(
    seed: Seq<u8>,
    index: usize,
    pivot: usize,
    list_size: usize,
    round: u8,
) -> usize
    recommends
        0 < list_size,
        index < list_size,
        pivot < list_size,
{
    let flip = spec_flip(pivot, index, list_size);
    let position = if index >= flip {
        index as int
    } else {
        flip as int
    };
    if spec_round_bit(seed, round, position) {
        flip
    } else {
        index
    }
}

/// One round of the swap-or-not network, with its pivot derived from the
/// seed.
pub open spec fn spec_do_round(seed: Seq<u8>, index: usize, list_size: usize, round: u8) -> usize
    recommends
        0 < list_size,
        index < list_size,
{
    spec_do_round_given(seed, index, spec_pivot(seed, round, list_size), list_size, round)
}

/// The position of an index after the rounds `round..count`, applied in
/// order: the value the shuffle owes.
pub open spec fn spec_permutated_from(
    seed: Seq<u8>,
    index: usize,
    list_size: usize,
    round: u8,
    count: u8,
) -> usize
    recommends
        0 < list_size,
        index < list_size,
    decreases count - round,
{
    if round >= count {
        index
    } else {
        spec_permutated_from(
            seed,
            spec_do_round(seed, index, list_size, round),
            list_size,
            (round + 1) as u8,
            count,
        )
    }
}

/// The pivot lies inside the list.
proof fn lemma_pivot_in_range(seed: Seq<u8>, round: u8, n: usize)
    requires
        0 < n,
    ensures
        spec_pivot(seed, round, n) < n,
{
}

/// Mirroring is an involution: the mirror of the mirror is the index
/// itself, and mirrors stay inside the list.
pub proof fn lemma_flip_involution(pivot: usize, index: usize, n: usize)
    requires
        0 < n,
        index < n,
        pivot < n,
    ensures
        spec_flip(pivot, index, n) < n,
        spec_flip(pivot, spec_flip(pivot, index, n), n) == index,
{
    let x = pivot + n - index;
    assert(0 <= x < 2 * n);
    if x < n {
        vstd::arithmetic::div_mod::lemma_small_mod(x as nat, n as nat);
    } else {
        vstd::arithmetic::div_mod::lemma_mod_sub_multiples_vanish(x as int, n as int);
        vstd::arithmetic::div_mod::lemma_small_mod((x - n) as nat, n as nat);
    }
    let f = spec_flip(pivot, index, n);
    assert(f == (if x < n {
        x
    } else {
        x - n
    }));
    let y = pivot + n - f;
    assert(0 <= y < 2 * n);
    if y < n {
        vstd::arithmetic::div_mod::lemma_small_mod(y as nat, n as nat);
    } else {
        vstd::arithmetic::div_mod::lemma_mod_sub_multiples_vanish(y as int, n as int);
        vstd::arithmetic::div_mod::lemma_small_mod((y - n) as nat, n as nat);
    }
    assert((y % (n as int)) == (if y < n {
        y as int
    } else {
        y - n
    }));
}

/// One round is an involution: running it twice returns the index. The two
/// partners mirror each other, so they share the decision position and its
/// digest bit, and either both swap or both stay.
pub proof fn lemma_round_involution(seed: Seq<u8>, index: usize, n: usize, round: u8)
    requires
        0 < n,
        index < n,
    ensures
        spec_do_round(seed, index, n, round) < n,
        spec_do_round(seed, spec_do_round(seed, index, n, round), n, round) == index,
{
    let pivot = spec_pivot(seed, round, n);
    lemma_pivot_in_range(seed, round, n);
    lemma_flip_involution(pivot, index, n);
    let f = spec_flip(pivot, index, n);
    if f != index {
        lemma_flip_involution(pivot, f, n);
    }
}

/// One round maps distinct indices to distinct positions.
pub proof fn lemma_round_injective(seed: Seq<u8>, i: usize, j: usize, n: usize, round: u8)
    requires
        0 < n,
        i < n,
        j < n,
        i != j,
    ensures
        spec_do_round(seed, i, n, round) != spec_do_round(seed, j, n, round),
{
    lemma_round_involution(seed, i, n, round);
    lemma_round_involution(seed, j, n, round);
}

/// The rounds from `round` on map distinct indices to distinct positions.
proof fn lemma_permutated_from_injective(
    seed: Seq<u8>,
    i: usize,
    j: usize,
    n: usize,
    round: u8,
    count: u8,
)
    requires
        0 < n,
        i < n,
        j < n,
        i != j,
    ensures
        spec_permutated_from(seed, i, n, round, count) != spec_permutated_from(
            seed,
            j,
            n,
            round,
            count,
        ),
    decreases count - round,
{
    if round < count {
        lemma_round_injective(seed, i, j, n, round);
        lemma_round_involution(seed, i, n, round);
        lemma_round_involution(seed, j, n, round);
        lemma_permutated_from_injective(
            seed,
            spec_do_round(seed, i, n, round),
            spec_do_round(seed, j, n, round),
            n,
            (round + 1) as u8,
            count,
        );
    }
}

/// The shuffle is a permutation: for one seed, list size and round count,
/// distinct indices land on distinct positions.
pub proof fn lemma_shuffle_is_permutation(
    seed: Seq<u8>,
    i: usize,
    j: usize,
    n: usize,
    count: u8,
)
    requires
        0 < n,
        i < n,
        j < n,
        i != j,
    ensures
        spec_permutated_from(seed, i, n, 0, count) != spec_permutated_from(seed, j, n, 0, count),
{
    lemma_permutated_from_injective(seed, i, j, n, 0, count);
}

/// Copy the bytes of a slice into a fresh vector.
fn slice_to_vec(s: &[u8]) -> (r: Vec<u8>)
    ensures
        r@ == s@,
{
    let mut r: Vec<u8> = Vec::new();
    let mut i: usize = 0;
    proof {
        assert(r@ =~= s@.subrange(0, 0));
    }
    while i < s.len()
        invariant
            0 <= i <= s@.len(),
            r@ == s@.subrange(0, i as int),
        decreases s@.len() - i,
    {
        r.push(s[i]);
        proof {
            assert(r@ =~= s@.subrange(0, i as int + 1));
        }
        i = i + 1;
    }
    proof {
        assert(s@.subrange(0, s@.len() as int) =~= s@);
    }
    r
}

/// The digest of the seed extended with the round number.
fn hash_with_round(seed: &[u8], round: u8) -> (r: Vec<u8>)
    ensures
        r@ == hash_of(seed@ + seq![round]),
        r@.len() == 32,
{
    let mut input = slice_to_vec(seed);
    let mut round_bytes = int_to_bytes1(round);
    input.append(&mut round_bytes);
    proof {
        assert(input@ =~= seed@ + seq![round]);
    }
    hash(input.as_slice())
}

/// The digest of the seed extended with the round number and the position
/// block.
fn hash_with_round_and_position(seed: &[u8], round: u8, position: usize) -> (r: Option<Vec<u8>>)
    requires
        position < MAX_SHUFFLE_LIST_SIZE,
    ensures
        r is Some,
        r.unwrap()@ == hash_of(seed@ + seq![round] + le_bytes4((position / 256) as u32)),
        r.unwrap()@.len() == 32,
{
    let mut input = slice_to_vec(seed);
    let mut round_bytes = int_to_bytes1(round);
    input.append(&mut round_bytes);
    let mut position_bytes = int_to_bytes4((position / 256) as u32);
    input.append(&mut position_bytes);
    proof {
        assert(input@ =~= seed@ + seq![round] + le_bytes4((position / 256) as u32));
    }
    Some(hash(input.as_slice()))
}

/// One round of the swap-or-not network: either keep the index or swap it
/// with its mirror around the pivot, as one bit of the round digest decides.
fn do_round(seed: &[u8], index: usize, pivot: usize, round: u8, list_size: usize) -> (r: Option<
    usize,
>)
    requires
        0 < list_size <= MAX_SHUFFLE_LIST_SIZE,
        index < list_size,
        pivot < list_size,
    ensures
        r is Some,
        r.unwrap() < list_size,
        r == Some(spec_do_round_given(seed@, index, pivot, list_size, round)),
{
    let flip = (pivot + list_size - index) % list_size;
    let position = if index >= flip {
        index
    } else {
        flip
    };
    let source = match hash_with_round_and_position(seed, round, position) {
        Some(source) => source,
        None => {
            return None;
        },
    };
    let byte = source[(position % 256) / 8];
    let bit = (byte >> ((position % 8) as u8)) % 2;
    Some(
        if bit == 1 {
            flip
        } else {
            index
        },
    )
}

/// Return the position of `index` in a pseudorandom permutation of
/// `0..list_size`, with `seed` as entropy.
///
/// Returns `None` under any of the following conditions:
///  - `list_size == 0`
///  - `index >= list_size`
///  - `list_size > usize::MAX / 2`
///  - `list_size` exceeds the supported maximum
pub fn get_permutated_index(
    index: usize,
    list_size: usize,
    seed: &[u8],
    shuffle_round_count: u8,
) -> (r: Option<usize>)
    ensures
        (list_size == 0 || index >= list_size || list_size > usize::MAX / 2 || list_size
            > MAX_SHUFFLE_LIST_SIZE) <==> r is None,
        r is Some ==> r.unwrap() < list_size,
        r is Some ==> r == Some(
            spec_permutated_from(seed@, index, list_size, 0, shuffle_round_count),
        ),
{
    if list_size == 0 || index >= list_size || list_size > usize::MAX / 2 || list_size
        > MAX_SHUFFLE_LIST_SIZE {
        return None;
    }
    let ghost index0 = index;
    let mut index = index;
    let mut round: u8 = 0;
    while round < shuffle_round_count
        invariant
            0 < list_size <= MAX_SHUFFLE_LIST_SIZE,
            index < list_size,
            round <= shuffle_round_count,
            spec_permutated_from(seed@, index, list_size, round, shuffle_round_count)
                == spec_permutated_from(seed@, index0, list_size, 0, shuffle_round_count),
        decreases shuffle_round_count - round,
    {
        let digest = hash_with_round(seed, round);
        let pivot = (bytes_to_int64(digest.as_slice()) as usize) % list_size;
        proof {
            assert(pivot == spec_pivot(seed@, round, list_size));
        }
        index = match do_round(seed, index, pivot, round, list_size) {
            Some(i) => i,
            None => {
                return None;
            },
        };
        round = round + 1;
    }
    Some(index)
}

} // verus!

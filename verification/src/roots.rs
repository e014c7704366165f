//! Canonical roots: the deterministic content digests that identify blocks,
//! headers and states in storage.
//!
//! Every consensus object is first flattened to a sequence of words and then
//! folded with a rotate-and-xor mixer, seeded with a tag that separates the
//! object kinds. The digest is a pure function of the object's fields, which
//! is all the rest of the library relies on.

use vstd::prelude::*;

verus! {

/// Seed for header (and block) digests.
pub const HEADER_TAG: u64 = 0x68656164;
/// Seed for state digests.
pub const STATE_TAG: u64 = 0x73746174;
/// Seed for block-body digests.
pub const BODY_TAG: u64 = 0x626f6479;

/// One mixing step: rotate the accumulator and fold in a word.
pub open spec fn mix(h: u64, x: u64) -> u64 {
    (((h << 5) | (h >> 59)) ^ x) as u64
}

/// One mixing step: rotate the accumulator and fold in a word.
pub fn mix_word(h: u64, x: u64) -> (r: u64)
    ensures
        r == mix(h, x),
{
    ((h << 5) | (h >> 59)) ^ x
}

/// Left fold of [`mix`] over a word sequence.
pub open spec fn fold_words(h: u64, s: Seq<u64>) -> u64
    decreases s.len(),
{
    if s.len() == 0 {
        h
    } else {
        fold_words(mix(h, s[0]), s.subrange(1, s.len() as int))
    }
}

/// Flattening of a sequence of objects, each contributing the words `f`
/// assigns to it.
pub open spec fn words_of<T>(s: Seq<T>, f: spec_fn(T) -> Seq<u64>) -> Seq<u64>
    decreases s.len(),
{
    if s.len() == 0 {
        Seq::<u64>::empty()
    } else {
        f(s[0]) + words_of(s.subrange(1, s.len() as int), f)
    }
}

/// Extending the flattened prefix by one object appends that object's words.
pub proof fn lemma_words_of_take_step<T>(s: Seq<T>, f: spec_fn(T) -> Seq<u64>, i: int)
    requires
        0 <= i < s.len(),
    ensures
        words_of(s.subrange(0, i + 1), f) == words_of(s.subrange(0, i), f) + f(s[i]),
    decreases i,
{
    let a = s.subrange(0, i + 1);
    if i == 0 {
        assert(a[0] == s[0]);
        assert(a.subrange(1, a.len() as int) =~= Seq::<T>::empty());
        assert(words_of(a, f) == f(s[0]) + words_of(Seq::<T>::empty(), f));
        assert(words_of(s.subrange(0, 0), f) =~= Seq::<u64>::empty());
        assert(f(s[0]) + Seq::<u64>::empty() =~= Seq::<u64>::empty() + f(s[0]));
    } else {
        let t = s.subrange(1, s.len() as int);
        lemma_words_of_take_step(t, f, i - 1);
        assert(a.subrange(1, a.len() as int) =~= t.subrange(0, i));
        assert(s.subrange(0, i).subrange(1, i) =~= t.subrange(0, i - 1));
        assert(t[i - 1] == s[i]);
        assert(words_of(a, f) == f(s[0]) + words_of(t.subrange(0, i), f));
        assert(words_of(s.subrange(0, i), f) == f(s[0]) + words_of(t.subrange(0, i - 1), f));
        assert(f(s[0]) + (words_of(t.subrange(0, i - 1), f) + f(t[i - 1])) =~= (f(s[0]) + words_of(
            t.subrange(0, i - 1),
            f,
        )) + f(t[i - 1]));
    }
}

/// Fold the words held in a vector onto an accumulator.
pub fn fold_words_vec(h0: u64, v: &Vec<u64>) -> (r: u64)
    ensures
        r == fold_words(h0, v@),
{
    let mut h = h0;
    let mut i: usize = 0;
    proof {
        assert(v@.subrange(0, v@.len() as int) =~= v@);
    }
    while i < v.len()
        invariant
            0 <= i <= v.len(),
            fold_words(h, v@.subrange(i as int, v@.len() as int)) == fold_words(h0, v@),
        decreases v.len() - i,
    {
        let ghost tail = v@.subrange(i as int, v@.len() as int);
        h = mix_word(h, v[i]);
        i = i + 1;
        proof {
            assert(tail.subrange(1, tail.len() as int) =~= v@.subrange(
                i as int,
                v@.len() as int,
            ));
        }
    }
    proof {
        assert(v@.subrange(v@.len() as int, v@.len() as int) =~= Seq::<u64>::empty());
    }
    h
}

} // verus!

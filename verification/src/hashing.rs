//! Byte-level hashing and the small integer/byte conversions used with it.
//!
//! The digest itself is computed by an outside cryptographic library; this
//! module gives its result a name (`hash_of`) and states only what that
//! library documents: the digest is a pure function of the input bytes and is
//! 32 bytes long.

use vstd::prelude::*;

use sha2::Digest;

verus! {

/// The 32-byte digest of a byte string, as the outside hash library computes
/// it.
pub uninterp spec fn hash_of(input: Seq<u8>) -> Seq<u8>;

/// Relies on sha2::Sha256::digest: the digest is a pure function of the
/// input bytes alone and is exactly 32 bytes long.
#[verifier::external_body]
pub fn hash(input: &[u8]) -> (r: Vec<u8>)
    ensures
        r@ == hash_of(input@),
        r@.len() == 32,
{
    sha2::Sha256::digest(input).to_vec()
}

/// The little-endian bytes of a 32-bit integer.
pub open spec fn le_bytes4(x: u32) -> Seq<u8> {
    seq![(x & 0xffu32) as u8, ((x >> 8u32) & 0xffu32) as u8, ((x >> 16u32) & 0xffu32) as u8, ((x
        >> 24u32) & 0xffu32) as u8]
}

/// The little-endian bytes of a 64-bit integer.
pub open spec fn le_bytes8(x: u64) -> Seq<u8> {
    seq![
        (x & 0xffu64) as u8,
        ((x >> 8u64) & 0xffu64) as u8,
        ((x >> 16u64) & 0xffu64) as u8,
        ((x >> 24u64) & 0xffu64) as u8,
        ((x >> 32u64) & 0xffu64) as u8,
        ((x >> 40u64) & 0xffu64) as u8,
        ((x >> 48u64) & 0xffu64) as u8,
        ((x >> 56u64) & 0xffu64) as u8,
    ]
}

/// Returns `value` as a little-endian byte vector of length 1.
pub fn int_to_bytes1(value: u8) -> (r: Vec<u8>)
    ensures
        r@ == seq![value],
{
    let mut v: Vec<u8> = Vec::new();
    v.push(value);
    proof {
        assert(v@ =~= seq![value]);
    }
    v
}

/// Returns `value` as a little-endian byte vector of length 4.
pub fn int_to_bytes4(value: u32) -> (r: Vec<u8>)
    ensures
        r@ == le_bytes4(value),
{
    let mut v: Vec<u8> = Vec::new();
    v.push((value & 0xff) as u8);
    v.push(((value >> 8) & 0xff) as u8);
    v.push(((value >> 16) & 0xff) as u8);
    v.push(((value >> 24) & 0xff) as u8);
    proof {
        assert(v@ =~= le_bytes4(value));
    }
    v
}

/// Returns `value` as a little-endian byte vector of length 8.
pub fn int_to_bytes8(value: u64) -> (r: Vec<u8>)
    ensures
        r@ == le_bytes8(value),
{
    let mut v: Vec<u8> = Vec::new();
    v.push((value & 0xff) as u8);
    v.push(((value >> 8) & 0xff) as u8);
    v.push(((value >> 16) & 0xff) as u8);
    v.push(((value >> 24) & 0xff) as u8);
    v.push(((value >> 32) & 0xff) as u8);
    v.push(((value >> 40) & 0xff) as u8);
    v.push(((value >> 48) & 0xff) as u8);
    v.push(((value >> 56) & 0xff) as u8);
    proof {
        assert(v@ =~= le_bytes8(value));
    }
    v
}

/// The 64-bit integer held little-endian in the first 8 bytes.
pub open spec fn spec_le64(s: Seq<u8>) -> u64
    recommends
        s.len() >= 8,
{
    (s[0] as u64) | ((s[1] as u64) << 8u64) | ((s[2] as u64) << 16u64) | ((s[3] as u64)
        << 24u64) | ((s[4] as u64) << 32u64) | ((s[5] as u64) << 40u64) | ((s[6] as u64)
        << 48u64) | ((s[7] as u64) << 56u64)
}

/// Read the first 8 bytes as a little-endian 64-bit integer.
pub fn bytes_to_int64(bytes: &[u8]) -> (r: u64)
    requires
        bytes@.len() >= 8,
    ensures
        r == spec_le64(bytes@),
{
    (bytes[0] as u64) | ((bytes[1] as u64) << 8) | ((bytes[2] as u64) << 16) | ((
    bytes[3] as u64) << 24) | ((bytes[4] as u64) << 32) | ((bytes[5] as u64) << 40) | ((
    bytes[6] as u64) << 48) | ((bytes[7] as u64) << 56)
}

} // verus!

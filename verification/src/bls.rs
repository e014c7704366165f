//! A deterministic model of the aggregate-signature scheme.
//!
//! The real scheme is an external collaborator: the core only relies on
//! `verify` being a pure, deterministic function with no side effects. The
//! model represents keys and signatures as single words: a key pair carries
//! one value for both halves, a signature is a digest of the secret value,
//! the message and the domain, and verification recomputes that digest from
//! the public value.

use vstd::prelude::*;

use crate::hashing::{hash, hash_of, int_to_bytes8, le_bytes8};
use crate::roots::{fold_words, mix_word};

verus! {

/// Seed separating signature digests from other digests.
pub const SIG_TAG: u64 = 0x736967;

/// A secret key.
#[derive(Clone, Copy, PartialEq, Eq, Structural, Debug)]
pub struct SecretKey {
    pub val: u64,
}

/// A public key.
#[derive(Clone, Copy, PartialEq, Eq, Structural, Debug)]
pub struct PublicKey {
    pub val: u64,
}

/// A key pair. In the model the public value equals the secret value.
#[derive(Clone, Copy, PartialEq, Eq, Structural, Debug)]
pub struct Keypair {
    pub sk: SecretKey,
    pub pk: PublicKey,
}

impl Keypair {
    /// The key pair grown from one secret value.
    pub fn from_secret(val: u64) -> (r: Keypair)
        ensures
            r.sk.val == val,
            r.pk.val == val,
    {
        Keypair { sk: SecretKey { val }, pk: PublicKey { val } }
    }
}

/// An aggregate of public keys.
#[derive(Clone, Copy, PartialEq, Eq, Structural, Debug)]
pub struct AggregatePublicKey {
    pub val: u64,
}

/// An aggregate signature.
#[derive(Clone, Copy, PartialEq, Eq, Structural, Debug)]
pub struct AggregateSignature {
    pub val: u64,
}

/// The signature a key produces over a message under a domain.
pub open spec fn spec_sign(key: u64, message: u64, domain: u64) -> u64 {
    fold_words(SIG_TAG, seq![key, message, domain])
}

/// Whether a signature verifies for the given public value, message and
/// domain.
pub open spec fn spec_verify(pk: u64, message: u64, domain: u64, signature: u64) -> bool {
    signature == spec_sign(pk, message, domain)
}

/// Sign a message under a domain.
pub fn sign(sk: &SecretKey, message: u64, domain: u64) -> (r: u64)
    ensures
        r == spec_sign(sk.val, message, domain),
{
    let h1 = mix_word(SIG_TAG, sk.val);
    let h2 = mix_word(h1, message);
    let r = mix_word(h2, domain);
    proof {
        reveal_with_fuel(fold_words, 4);
        assert(seq![sk.val, message, domain].subrange(1, 3) =~= seq![message, domain]);
        assert(seq![message, domain].subrange(1, 2) =~= seq![domain]);
        assert(seq![domain].subrange(1, 1) =~= Seq::<u64>::empty());
    }
    r
}

/// Verify a signature: recompute the digest from the public value.
pub fn verify(pk: &PublicKey, message: u64, domain: u64, signature: u64) -> (r: bool)
    ensures
        r == spec_verify(pk.val, message, domain, signature),
{
    let h1 = mix_word(SIG_TAG, pk.val);
    let h2 = mix_word(h1, message);
    let expected = mix_word(h2, domain);
    proof {
        reveal_with_fuel(fold_words, 4);
        assert(seq![pk.val, message, domain].subrange(1, 3) =~= seq![message, domain]);
        assert(seq![message, domain].subrange(1, 2) =~= seq![domain]);
        assert(seq![domain].subrange(1, 1) =~= Seq::<u64>::empty());
    }
    signature == expected
}

impl AggregateSignature {
    /// Whether the aggregate signature verifies against the aggregate public
    /// key for the message under the domain.
    pub fn verify(&self, message: u64, domain: u64, pubkey: &AggregatePublicKey) -> (r: bool)
        ensures
            r == spec_verify(pubkey.val, message, domain, self.val),
    {
        let pk = PublicKey { val: pubkey.val };
        verify(&pk, message, domain, self.val)
    }
}

/// Whether an aggregate signature over `message` under `domain` verifies
/// against the aggregate public key.
pub fn bls_verify_aggregate(
    pubkey: &AggregatePublicKey,
    message: u64,
    signature: &AggregateSignature,
    domain: u64,
) -> (r: bool)
    ensures
        r == spec_verify(pubkey.val, message, domain, signature.val),
{
    signature.verify(message, domain, pubkey)
}

/// Returns the withdrawal credentials for a given public key: the prefix
/// byte followed by all but the first byte of the key's digest.
pub fn get_withdrawal_credentials(pubkey: &PublicKey, prefix_byte: u8) -> (r: Vec<u8>)
    ensures
        r@ == seq![prefix_byte] + hash_of(le_bytes8(pubkey.val)).subrange(1, 32),
        r@.len() == 32,
{
    let encoded = int_to_bytes8(pubkey.val);
    let hashed = hash(encoded.as_slice());
    let mut prefixed: Vec<u8> = Vec::new();
    prefixed.push(prefix_byte);
    let mut i: usize = 1;
    proof {
        assert(prefixed@ =~= seq![prefix_byte] + hashed@.subrange(1, 1));
    }
    while i < 32
        invariant
            1 <= i <= 32,
            hashed@.len() == 32,
            hashed@ == hash_of(le_bytes8(pubkey.val)),
            prefixed@ == seq![prefix_byte] + hashed@.subrange(1, i as int),
        decreases 32 - i,
    {
        prefixed.push(hashed[i]);
        proof {
            assert(prefixed@ =~= seq![prefix_byte] + hashed@.subrange(1, i as int + 1));
        }
        i = i + 1;
    }
    proof {
        assert(prefixed@ =~= seq![prefix_byte] + hashed@.subrange(1, 32));
    }
    prefixed
}

} // verus!

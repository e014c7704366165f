//! Tests of the model signature scheme and the hashing boundary.

use beacon_core::bls::{
    bls_verify_aggregate, get_withdrawal_credentials, sign, verify, AggregatePublicKey,
    AggregateSignature, Keypair, PublicKey, SecretKey,
};
use beacon_core::hashing::{bytes_to_int64, hash, int_to_bytes1, int_to_bytes4, int_to_bytes8};
use sha2::Digest;

#[test]
fn signatures_verify_for_the_signer_only() {
    let pair = Keypair::from_secret(42);
    let signature = sign(&pair.sk, 1000, 3);
    assert!(verify(&pair.pk, 1000, 3, signature));
    // Any change of message, domain or key breaks verification.
    assert!(!verify(&pair.pk, 1001, 3, signature));
    assert!(!verify(&pair.pk, 1000, 4, signature));
    assert!(!verify(&PublicKey { val: 43 }, 1000, 3, signature));
}

#[test]
fn aggregate_verification_follows_the_aggregate_key() {
    let sk = SecretKey { val: 9 };
    let signature = AggregateSignature { val: sign(&sk, 77, 2) };
    let agg_pk = AggregatePublicKey { val: 9 };
    assert!(bls_verify_aggregate(&agg_pk, 77, &signature, 2));
    assert!(!bls_verify_aggregate(&AggregatePublicKey { val: 10 }, 77, &signature, 2));
}

#[test]
fn hashing_matches_the_outside_digest() {
    let input = vec![1u8, 2, 3, 4];
    let digest = hash(&input);
    assert_eq!(digest.len(), 32);
    let expected: Vec<u8> = sha2::Sha256::digest(&[1u8, 2, 3, 4]).to_vec();
    assert_eq!(digest, expected);
}

#[test]
fn withdrawal_credentials_prefix_the_key_digest() {
    let pk = PublicKey { val: 5 };
    let creds = get_withdrawal_credentials(&pk, 0xbb);
    assert_eq!(creds.len(), 32);
    assert_eq!(creds[0], 0xbb);
    let digest: Vec<u8> = sha2::Sha256::digest(&5u64.to_le_bytes()).to_vec();
    assert_eq!(&creds[1..], &digest[1..32]);
}

#[test]
fn byte_conversions_round_trip() {
    assert_eq!(int_to_bytes1(0xab), vec![0xab]);
    assert_eq!(int_to_bytes4(0x0403_0201), vec![1, 2, 3, 4]);
    assert_eq!(
        int_to_bytes8(0x0807_0605_0403_0201),
        vec![1, 2, 3, 4, 5, 6, 7, 8]
    );
    assert_eq!(bytes_to_int64(&[1, 2, 3, 4, 5, 6, 7, 8]), 0x0807_0605_0403_0201);
}

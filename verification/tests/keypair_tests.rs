//! Key management: generation, signing, verification, and the fixed-width
//! byte round trip.

use vts::VtsError;
use vts::keypair::KeyPair;

#[test]
fn test_signature_verification() {
    let keypair = KeyPair::generate();
    let message = b"Hello, World!";
    let signature = keypair.sign(message);
    assert!(keypair.verify(message, &signature));
}

#[test]
fn test_generate_produces_distinct_keys() {
    let first = KeyPair::generate();
    let second = KeyPair::generate();
    assert_ne!(first.public_key(), second.public_key());
}

#[test]
fn test_key_byte_lengths() {
    let keypair = KeyPair::generate();
    let (signing_bytes, verification_bytes) = keypair.to_bytes();
    assert_eq!(signing_bytes.len(), 32);
    assert_eq!(verification_bytes.len(), 33);
    // a compressed SEC1 point starts with its parity byte
    assert!(verification_bytes[0] == 0x02 || verification_bytes[0] == 0x03);
    assert_eq!(keypair.public_key().as_slice(), verification_bytes.as_slice());
}

#[test]
fn test_keypair_bytes_roundtrip() {
    let keypair = KeyPair::generate();
    let (signing_bytes, verification_bytes) = keypair.to_bytes();
    let rebuilt = KeyPair::from_bytes(signing_bytes, verification_bytes)
        .expect("round trip must reconstruct");

    // indistinguishable sign/verify behavior, in both directions
    let message = b"Hello, World!";
    let signature = keypair.sign(message);
    assert!(rebuilt.verify(message, &signature));
    let signature2 = rebuilt.sign(message);
    assert!(keypair.verify(message, &signature2));
    // deterministic signing: the same key bytes give the same signature
    assert_eq!(signature, signature2);
}

#[test]
fn test_from_bytes_rejects_wrong_lengths() {
    let keypair = KeyPair::generate();
    let (signing_bytes, verification_bytes) = keypair.to_bytes();

    let mut short_signing = signing_bytes.clone();
    short_signing.pop();
    assert_eq!(
        KeyPair::from_bytes(short_signing, verification_bytes.clone()).err(),
        Some(VtsError::InvalidKeyEncoding)
    );

    let mut long_verification = verification_bytes.clone();
    long_verification.push(0);
    assert_eq!(
        KeyPair::from_bytes(signing_bytes, long_verification).err(),
        Some(VtsError::InvalidKeyEncoding)
    );
}

#[test]
fn test_from_bytes_rejects_zero_scalar() {
    let keypair = KeyPair::generate();
    let (_, verification_bytes) = keypair.to_bytes();
    let zero_scalar = vec![0u8; 32];
    assert_eq!(
        KeyPair::from_bytes(zero_scalar, verification_bytes).err(),
        Some(VtsError::InvalidKeyEncoding)
    );
}

#[test]
fn test_from_bytes_rejects_off_curve_point() {
    let keypair = KeyPair::generate();
    let (signing_bytes, _) = keypair.to_bytes();
    let garbage_point = vec![0xFFu8; 33];
    assert_eq!(
        KeyPair::from_bytes(signing_bytes, garbage_point).err(),
        Some(VtsError::InvalidKeyEncoding)
    );
}

#[test]
fn test_from_bytes_does_not_cross_check_halves() {
    // reconstruction does not verify that the point derives from the scalar:
    // a mismatched pair is accepted, signs with one key and reports another
    let first = KeyPair::generate();
    let second = KeyPair::generate();
    let (signing_bytes, _) = first.to_bytes();
    let (_, verification_bytes) = second.to_bytes();
    let mismatched = KeyPair::from_bytes(signing_bytes, verification_bytes)
        .expect("mismatched halves are not rejected");

    // its signatures fail under the verification key it reports
    let message = b"Hello, World!";
    let signature = mismatched.sign(message);
    assert!(!mismatched.verify(message, &signature));
    // and succeed under the verification key its scalar derives
    assert!(first.verify(message, &signature));
}

#[test]
fn test_signature_is_64_bytes() {
    let keypair = KeyPair::generate();
    let signature = keypair.sign(b"Hello, World!");
    assert_eq!(signature.len(), 64);
    assert_ne!(signature.as_slice(), b"Hello, World!".as_slice());
}

#[test]
fn test_verify_rejects_malformed_signature_bytes() {
    let keypair = KeyPair::generate();
    // wrong length, and 64 bytes that are no valid (r, s) pair
    assert!(!keypair.verify(b"Hello, World!", b"short"));
    assert!(!keypair.verify(b"Hello, World!", &[0u8; 64]));
}

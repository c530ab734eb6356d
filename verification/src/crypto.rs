//! Trusted boundary to the ECDSA implementation (secp256k1): byte-level
//! wrappers around key generation, key parsing, signing and verification.
//!
//! Keys and signatures cross this boundary as plain byte strings in the fixed
//! encodings of the protocol: a 32-byte big-endian scalar, a 33-byte
//! compressed curve point, a 64-byte big-endian `r ‖ s` pair.

use vstd::prelude::*;

verus! {

/// Whether a byte string is a valid signing key: exactly what
/// `SigningKey::from_slice` accepts — a 24- to 32-byte big-endian encoding
/// (shorter ones zero-padded to 32) of a scalar in `[1, n-1]`. The protocol's
/// own key format is the exact 32-byte form; `KeyPair::from_bytes` checks the
/// length separately.
pub uninterp spec fn valid_sk(b: Seq<u8>) -> bool;

/// Whether a byte string is a valid SEC1-encoded verification key (a point on
/// the curve), exactly what `VerifyingKey::from_sec1_bytes` accepts.
pub uninterp spec fn valid_vk(b: Seq<u8>) -> bool;

/// Whether a byte string is a valid signature encoding: 64 bytes with both
/// halves in `[1, n-1]`, exactly what `Signature::from_slice` accepts.
pub uninterp spec fn valid_sig(b: Seq<u8>) -> bool;

/// The compressed SEC1 encoding of the verification key derived from a
/// signing key: the scalar times the curve's base point.
pub uninterp spec fn vk_of(sk: Seq<u8>) -> Seq<u8>;

/// The signature a signing key produces over a message: deterministic ECDSA
/// (RFC 6979 nonces), so a function of key and message alone.
pub uninterp spec fn sig_of(sk: Seq<u8>, msg: Seq<u8>) -> Seq<u8>;

/// Whether ECDSA verification accepts a signature over a message under a
/// verification key; a function of the three byte strings alone.
pub uninterp spec fn sig_ok(vk: Seq<u8>, msg: Seq<u8>, sig: Seq<u8>) -> bool;

/// Relies on k256's `SigningKey::random` over the operating system's secure
/// source: every drawn key is a nonzero in-range scalar, so its 32-byte
/// big-endian serialization (`to_bytes`) parses back via `from_slice`.
#[verifier::external_body]
pub(crate) fn random_signing_key() -> (r: Vec<u8>)
    ensures
        r@.len() == 32,
        valid_sk(r@),
{
    let signing_key = k256::ecdsa::SigningKey::random(&mut rand_core::OsRng);
    signing_key.to_bytes().to_vec()
}

/// Relies on k256's `SigningKey::from_slice`: it succeeds exactly on 24- to
/// 32-byte big-endian encodings (shorter ones zero-padded) of scalars in
/// `[1, n-1]`; used here only to test validity.
#[verifier::external_body]
pub(crate) fn check_signing_key(b: &[u8]) -> (r: bool)
    ensures
        r == valid_sk(b@),
{
    k256::ecdsa::SigningKey::from_slice(b).is_ok()
}

/// Relies on k256's `VerifyingKey::from_sec1_bytes`: it succeeds exactly on
/// SEC1 encodings of points on the curve.
#[verifier::external_body]
pub(crate) fn check_verifying_key(b: &[u8]) -> (r: bool)
    ensures
        r == valid_vk(b@),
{
    k256::ecdsa::VerifyingKey::from_sec1_bytes(b).is_ok()
}

/// Relies on k256's `Signature::from_slice`: it succeeds exactly on 64-byte
/// strings whose `r` and `s` halves are big-endian scalars in `[1, n-1]`.
#[verifier::external_body]
pub(crate) fn check_signature_bytes(b: &[u8]) -> (r: bool)
    ensures
        r == valid_sig(b@),
{
    k256::ecdsa::Signature::from_slice(b).is_ok()
}

/// Relies on k256's `VerifyingKey::from(&SigningKey)` (held inside the signing
/// key) and `to_encoded_point(true)`: the derived public point, compressed to
/// 33 bytes, which `from_sec1_bytes` accepts back.
#[verifier::external_body]
pub(crate) fn derive_verifying_key(sk: &[u8]) -> (r: Vec<u8>)
    requires
        valid_sk(sk@),
    ensures
        r@ == vk_of(sk@),
        r@.len() == 33,
        valid_vk(r@),
{
    let signing_key = k256::ecdsa::SigningKey::from_slice(sk).unwrap();
    let point = signing_key.verifying_key().to_encoded_point(true);
    point.as_bytes().to_vec()
}

/// Relies on k256's `Signer::sign` (deterministic ECDSA per RFC 6979, which
/// succeeds for every valid signing key) and `Signature::to_vec`: 64 bytes of
/// big-endian `r ‖ s`, both in range, that `verify` accepts over the same
/// message under the key's derived verification key.
#[verifier::external_body]
pub(crate) fn ecdsa_sign(sk: &[u8], msg: &[u8]) -> (r: Vec<u8>)
    requires
        valid_sk(sk@),
    ensures
        r@ == sig_of(sk@, msg@),
        r@.len() == 64,
        valid_sig(r@),
        sig_ok(vk_of(sk@), msg@, r@),
{
    let signing_key = k256::ecdsa::SigningKey::from_slice(sk).unwrap();
    let signature: k256::ecdsa::Signature =
        k256::ecdsa::signature::Signer::sign(&signing_key, msg);
    signature.to_vec()
}

/// Relies on k256's `Verifier::verify`: a boolean check, a function of the
/// key, message and signature bytes alone.
#[verifier::external_body]
pub(crate) fn ecdsa_verify(vk: &[u8], msg: &[u8], sig: &[u8]) -> (r: bool)
    requires
        valid_vk(vk@),
        valid_sig(sig@),
    ensures
        r == sig_ok(vk@, msg@, sig@),
{
    let verifying_key = k256::ecdsa::VerifyingKey::from_sec1_bytes(vk).unwrap();
    let signature = k256::ecdsa::Signature::from_slice(sig).unwrap();
    k256::ecdsa::signature::Verifier::verify(&verifying_key, msg, &signature).is_ok()
}

} // verus!

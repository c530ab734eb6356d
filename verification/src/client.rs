//! The verification client: rebuilds the canonical signed bytes from a signed
//! response and checks the signature against a retrieved key. Every decode
//! step collapses to `false`; nothing on this path can fail with an error.

use vstd::prelude::*;
use crate::{EcdsaSignedTimestamp, EcdsaVerificationKey};
use crate::codec::{b64_decode, b64_decoded};
use crate::crypto::{check_signature_bytes, check_verifying_key, ecdsa_verify, sig_ok, valid_sig, valid_vk};
use crate::payload::{build_signed_payload, payload_of};

verus! {

/// Whether a signed response verifies under raw verification-key bytes: its
/// signature field is valid base64 of a well-formed signature that ECDSA
/// accepts over the canonical payload of its message and timestamp.
pub open spec fn wire_verifies(
    key_bytes: Seq<u8>,
    message: Seq<char>,
    time_signed: Seq<char>,
    sig_b64: Seq<char>,
) -> bool {
    match b64_decoded(sig_b64) {
        Some(sig) => valid_vk(key_bytes) && valid_sig(sig) && sig_ok(
            key_bytes,
            payload_of(message, time_signed),
            sig,
        ),
        None => false,
    }
}

/// Whether a signed response verifies under a base64-encoded verification
/// key; a key field that is not valid base64 verifies nothing.
pub open spec fn response_verifies(
    key_b64: Seq<char>,
    message: Seq<char>,
    time_signed: Seq<char>,
    sig_b64: Seq<char>,
) -> bool {
    match b64_decoded(key_b64) {
        Some(key_bytes) => wire_verifies(key_bytes, message, time_signed, sig_b64),
        None => false,
    }
}

/// Checks that `signed.signature` is a valid ECDSA signature over the bytes
/// of `signed.message ++ signed.time_signed`, using only `key.public_key`.
/// Total: malformed base64, off-curve key bytes or malformed signature bytes
/// all yield `false`, never an error.
pub fn verify_signature(signed: &EcdsaSignedTimestamp, key: &EcdsaVerificationKey) -> (r: bool)
    ensures
        r == response_verifies(
            key.public_key@,
            signed.message@,
            signed.time_signed@,
            signed.signature@,
        ),
{
    let key_bytes = match b64_decode(key.public_key.as_str()) {
        Some(b) => b,
        None => {
            return false;
        },
    };
    let sig_bytes = match b64_decode(signed.signature.as_str()) {
        Some(b) => b,
        None => {
            return false;
        },
    };
    if !check_verifying_key(key_bytes.as_slice()) {
        return false;
    }
    if !check_signature_bytes(sig_bytes.as_slice()) {
        return false;
    }
    let data = build_signed_payload(signed.message.as_str(), signed.time_signed.as_str());
    ecdsa_verify(key_bytes.as_slice(), data.as_slice(), sig_bytes.as_slice())
}

} // verus!

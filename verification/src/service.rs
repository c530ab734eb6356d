//! The signing service: the server-side key-retrieval and signing paths, and
//! the protocol laws that tie them to the verification client.
//!
//! Each path splits into a pure response builder, verified for every
//! timestamp text, and a handler that feeds it the checked clock reading; a
//! clock whose text falls outside the fixed grammar fails the request as a
//! service-level error.

use vstd::prelude::*;
use crate::{EcdsaSignedTimestamp, EcdsaVerificationKey, VtsError};
use crate::client::{verify_signature, wire_verifies};
use crate::codec::{b64_decoded, b64_encode, b64_of};
use crate::crypto::sig_of;
use crate::keypair::KeyPair;
use crate::payload::{build_signed_payload, payload_of};
use crate::timestamp::{current_timestamp, is_timestamp};

verus! {

/// The pure part of the key-retrieval path: the service's fixed verification
/// key in its base64 wire form, under a given timestamp text. The key field
/// depends on the key pair alone.
pub fn build_key_response(keypair: &KeyPair, time_requested: String) -> (r: EcdsaVerificationKey)
    requires
        keypair.wf(),
    ensures
        r.request@ == "GET"@,
        r.time_requested@ == time_requested@,
        r.public_key@ == b64_of(keypair.vk()),
        b64_decoded(r.public_key@) == Some(keypair.vk()),
        r.public_key@.len() == 44,
{
    EcdsaVerificationKey {
        request: "GET".to_owned(),
        time_requested,
        public_key: b64_encode(keypair.public_key().as_slice()),
    }
}

/// The key-retrieval path: the verification key under the time of the
/// request. Fails only if the clock's text falls outside the fixed grammar.
pub fn handle_key_request(keypair: &KeyPair) -> (r: Result<EcdsaVerificationKey, VtsError>)
    requires
        keypair.wf(),
    ensures
        r matches Ok(resp) ==> {
            &&& resp.request@ == "GET"@
            &&& is_timestamp(resp.time_requested@)
            &&& resp.public_key@ == b64_of(keypair.vk())
            &&& b64_decoded(resp.public_key@) == Some(keypair.vk())
            &&& resp.public_key@.len() == 44
        },
        r matches Err(e) ==> e == VtsError::InvalidTimestamp,
{
    let time_requested = match current_timestamp() {
        Ok(t) => t,
        Err(e) => {
            return Err(e);
        },
    };
    Ok(build_key_response(keypair, time_requested))
}

/// The pure part of the signing path: for a given timestamp text, builds the
/// canonical payload, signs it, and assembles the response around the exact
/// same timestamp text — the response's signature field is the base64 of the
/// signature over `message ++ time_signed`, so a consistent key pair's
/// response verifies under its verification key bytes.
pub fn build_signed_response(keypair: &KeyPair, message: String, time_signed: String) -> (r:
    EcdsaSignedTimestamp)
    requires
        keypair.wf(),
    ensures
        r.request@ == "POST"@,
        r.message@ == message@,
        r.time_signed@ == time_signed@,
        r.signature@ == b64_of(sig_of(keypair.sk(), payload_of(message@, time_signed@))),
        b64_decoded(r.signature@) == Some(sig_of(keypair.sk(), payload_of(message@, time_signed@))),
        keypair.consistent() ==> wire_verifies(
            keypair.vk(),
            message@,
            time_signed@,
            r.signature@,
        ),
{
    let data = build_signed_payload(message.as_str(), time_signed.as_str());
    let signature = keypair.sign(data.as_slice());
    let signature_b64 = b64_encode(signature.as_slice());
    EcdsaSignedTimestamp {
        request: "POST".to_owned(),
        message,
        time_signed,
        signature: signature_b64,
    }
}

/// The signing path: captures the current time in the fixed grammar, then
/// signs `message ++ timestamp` with that exact timestamp text in the
/// response. Fails only if the clock's text falls outside the fixed grammar.
pub fn handle_sign_request(message: String, keypair: &KeyPair) -> (r: Result<
    EcdsaSignedTimestamp,
    VtsError,
>)
    requires
        keypair.wf(),
    ensures
        r matches Ok(resp) ==> {
            &&& resp.request@ == "POST"@
            &&& resp.message@ == message@
            &&& is_timestamp(resp.time_signed@)
            &&& resp.signature@ == b64_of(
                sig_of(keypair.sk(), payload_of(message@, resp.time_signed@)),
            )
            &&& b64_decoded(resp.signature@) == Some(
                sig_of(keypair.sk(), payload_of(message@, resp.time_signed@)),
            )
            &&& (keypair.consistent() ==> wire_verifies(
                keypair.vk(),
                message@,
                resp.time_signed@,
                resp.signature@,
            ))
        },
        r matches Err(e) ==> e == VtsError::InvalidTimestamp,
{
    let time_signed = match current_timestamp() {
        Ok(t) => t,
        Err(e) => {
            return Err(e);
        },
    };
    Ok(build_signed_response(keypair, message, time_signed))
}

/// Law: key retrieval is idempotent — two retrievals against the same key
/// pair return the same `public-key` field, whatever their timestamps.
pub fn retrieve_key_twice(keypair: &KeyPair, t1: String, t2: String) -> (r: (
    EcdsaVerificationKey,
    EcdsaVerificationKey,
))
    requires
        keypair.wf(),
    ensures
        r.0.public_key@ == r.1.public_key@,
{
    (build_key_response(keypair, t1), build_key_response(keypair, t2))
}

/// Law: key retrieval is idempotent for every generated key pair.
pub fn generated_retrieve_key_twice(t1: String, t2: String) -> (r: (
    EcdsaVerificationKey,
    EcdsaVerificationKey,
))
    ensures
        r.0.public_key@ == r.1.public_key@,
{
    let keypair = KeyPair::generate();
    retrieve_key_twice(&keypair, t1, t2)
}

/// Law: for every message, every timestamp and every consistent key pair,
/// verifying the canonical payload against its own signature succeeds.
pub fn sign_verify_roundtrip(keypair: &KeyPair, message: &str, timestamp: &str) -> (r: bool)
    requires
        keypair.wf(),
        keypair.consistent(),
    ensures
        r,
{
    let data = build_signed_payload(message, timestamp);
    let signature = keypair.sign(data.as_slice());
    keypair.verify(data.as_slice(), signature.as_slice())
}

/// Law: the sign/verify round trip holds of every generated key pair.
pub fn generated_sign_verify_roundtrip(message: &str, timestamp: &str) -> (r: bool)
    ensures
        r,
{
    let keypair = KeyPair::generate();
    sign_verify_roundtrip(&keypair, message, timestamp)
}

/// Law: the full protocol round trip — generate a key pair, build its key
/// response and a signed response, under any timestamp texts whatever, and
/// the verification client accepts the response under the retrieved key.
pub fn generated_response_verifies(
    message: String,
    time_requested: String,
    time_signed: String,
) -> (r: bool)
    ensures
        r,
{
    let keypair = KeyPair::generate();
    let key_response = build_key_response(&keypair, time_requested);
    let signed = build_signed_response(&keypair, message, time_signed);
    verify_signature(&signed, &key_response)
}

/// Law: the protocol round trip against the live clock — when the clock's
/// texts fit the grammar, a generated pair's key-retrieval and signing
/// responses verify together.
pub fn generated_live_roundtrip(message: String) -> (r: Option<bool>)
    ensures
        r matches Some(accepted) ==> accepted,
{
    let keypair = KeyPair::generate();
    let key_response = match handle_key_request(&keypair) {
        Ok(k) => k,
        Err(_) => {
            return None;
        },
    };
    let signed = match handle_sign_request(message, &keypair) {
        Ok(s) => s,
        Err(_) => {
            return None;
        },
    };
    Some(verify_signature(&signed, &key_response))
}

} // verus!

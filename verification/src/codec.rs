//! The wire codec: keys and signatures travel as base64 text (standard
//! alphabet, padded) inside the transport payload.

use vstd::prelude::*;
use crate::VtsError;

verus! {

/// The standard padded base64 encoding of a byte string.
pub uninterp spec fn b64_of(b: Seq<u8>) -> Seq<char>;

/// What strict base64 decoding yields for a text: the encoded bytes for a
/// canonical encoding, nothing for any other text.
pub uninterp spec fn b64_decoded(s: Seq<char>) -> Option<Seq<u8>>;

/// Relies on base64's `Engine::encode` with the `STANDARD` engine (standard
/// alphabet, padded): the result is a function of the input bytes alone, four
/// characters for every started group of three bytes, and the same engine's
/// strict `decode` inverts it. The length bound keeps the output size
/// computation from overflowing.
#[verifier::external_body]
pub(crate) fn b64_encode(b: &[u8]) -> (r: String)
    requires
        b@.len() < usize::MAX / 4,
    ensures
        r@ == b64_of(b@),
        r@.len() == 4 * ((b@.len() + 2) / 3),
        b64_decoded(r@) == Some(b@),
{
    base64::Engine::encode(&base64::engine::general_purpose::STANDARD, b)
}

/// Relies on base64's `Engine::decode` with the `STANDARD` engine, which
/// requires canonical padding and rejects non-zero trailing bits: it returns
/// bytes exactly for valid encodings and an error for every other text.
#[verifier::external_body]
pub(crate) fn b64_decode(s: &str) -> (r: Option<Vec<u8>>)
    ensures
        match r {
            Some(v) => b64_decoded(s@) == Some(v@),
            None => b64_decoded(s@) is None,
        },
{
    match base64::Engine::decode(&base64::engine::general_purpose::STANDARD, s) {
        Ok(v) => Some(v),
        Err(_) => None,
    }
}

/// Decodes a base64 text from the wire; malformed text is a `DecodeError`.
pub fn decode_base64(s: &str) -> (r: Result<Vec<u8>, VtsError>)
    ensures
        r matches Ok(v) ==> b64_decoded(s@) == Some(v@),
        r is Ok <==> b64_decoded(s@) is Some,
        r matches Err(e) ==> e == VtsError::DecodeError,
{
    match b64_decode(s) {
        Some(v) => Ok(v),
        None => Err(VtsError::DecodeError),
    }
}

} // verus!

//! The canonical message builder: the single source of truth for the exact
//! byte sequence that a signature covers. Signer and verifier must both build
//! it from the same function, or verification silently breaks.

use vstd::prelude::*;
use vstd::string::StrSliceExecFns;
use vstd::utf8::encode_utf8;

verus! {

/// The canonical signed bytes for a message and a timestamp string: the UTF-8
/// bytes of the message followed directly by the UTF-8 bytes of the
/// timestamp, with no separator and no length prefix.
pub open spec fn payload_of(message: Seq<char>, timestamp: Seq<char>) -> Seq<u8> {
    encode_utf8(message) + encode_utf8(timestamp)
}

/// Builds the canonical signed bytes: `utf8(message) ++ utf8(timestamp)`.
pub fn build_signed_payload(message: &str, timestamp: &str) -> (r: Vec<u8>)
    ensures
        r@ == payload_of(message@, timestamp@),
{
    let mut bytes = message.as_bytes_vec();
    let mut tail = timestamp.as_bytes_vec();
    bytes.append(&mut tail);
    bytes
}

} // verus!

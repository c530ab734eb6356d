//! A verifiable timestamping service: a signer attests, over a message plus a
//! server-generated timestamp, that the message existed at that time.
//!
//! The crate covers the key-management discipline (generation, fixed-width
//! byte encoding, reconstruction), the canonical byte sequence that gets
//! signed, the wire codec for keys and signatures, and the server-side
//! signing and verification paths.

pub mod client;
pub mod codec;
pub mod config;
pub mod crypto;
pub mod keypair;
pub mod payload;
pub mod service;
pub mod timestamp;

use vstd::prelude::*;

verus! {

/// The key-retrieval response on the wire: `{ "request": "GET",
/// "time-requested": ..., "public-key": base64 of the 33-byte compressed
/// point }`.
pub struct EcdsaVerificationKey {
    pub request: String,
    pub time_requested: String,
    pub public_key: String,
}

/// The signing response on the wire: `{ "request": "POST", "message": ...,
/// "time-signed": ..., "signature": base64 of the 64-byte r ‖ s pair }`. The
/// timestamp here is byte-identical to the one inside the signed payload.
pub struct EcdsaSignedTimestamp {
    pub request: String,
    pub message: String,
    pub time_signed: String,
    pub signature: String,
}

/// Errors of the library, per the protocol's taxonomy: a key that cannot be
/// reconstructed from bytes, and malformed text at the wire boundary.
#[derive(Clone, Copy, Debug, PartialEq, Eq, Structural)]
pub enum VtsError {
    /// Wrong length, out-of-range scalar, or off-curve point bytes.
    InvalidKeyEncoding,
    /// Malformed base64 at the wire boundary.
    DecodeError,
    /// The clock produced a text outside the fixed timestamp grammar (a year
    /// beyond four digits): the protocol's timestamp type cannot carry it, so
    /// the request fails as a service-level error.
    InvalidTimestamp,
}

} // verus!

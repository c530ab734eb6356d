//! Key management: a signing key and its verification key, with generation,
//! fixed-width byte serialization, reconstruction, signing and verification.

use vstd::prelude::*;
use vstd::slice::slice_to_vec;
use crate::VtsError;
use crate::crypto::{
    check_signing_key, check_verifying_key, check_signature_bytes, derive_verifying_key,
    ecdsa_sign, ecdsa_verify, random_signing_key, sig_of, sig_ok, valid_sig, valid_sk, valid_vk,
    vk_of,
};

verus! {

/// A key pair: a 32-byte big-endian signing scalar and a 33-byte compressed
/// verification point. Reconstruction from bytes does not cross-check that the
/// point derives from the scalar, so a reconstructed pair may be inconsistent;
/// a generated pair never is (see [`KeyPair::consistent`]).
pub struct KeyPair {
    signing: Vec<u8>,
    verifying: Vec<u8>,
}

impl KeyPair {
    /// The signing (private) key bytes.
    pub closed spec fn sk(&self) -> Seq<u8> {
        self.signing@
    }

    /// The verification (public) key bytes.
    pub closed spec fn vk(&self) -> Seq<u8> {
        self.verifying@
    }

    /// Well-formedness: both halves have their fixed width and parse as a
    /// scalar in range and a point on the curve.
    pub open spec fn wf(&self) -> bool {
        &&& self.sk().len() == 32
        &&& valid_sk(self.sk())
        &&& self.vk().len() == 33
        &&& valid_vk(self.vk())
    }

    /// Consistency: the verification key is the one derived from the signing
    /// key, i.e. the scalar times the curve's base point.
    pub open spec fn consistent(&self) -> bool {
        self.vk() == vk_of(self.sk())
    }

    /// Generates a key pair from a fresh random scalar; the verification key
    /// is derived from it, so the pair is consistent.
    pub fn generate() -> (r: KeyPair)
        ensures
            r.wf(),
            r.consistent(),
    {
        let signing = random_signing_key();
        let verifying = derive_verifying_key(signing.as_slice());
        KeyPair { signing, verifying }
    }

    /// The fixed-width byte forms: the 32-byte signing scalar and the 33-byte
    /// compressed verification point. Deterministic and total.
    pub fn to_bytes(&self) -> (r: (Vec<u8>, Vec<u8>))
        ensures
            r.0@ == self.sk(),
            r.1@ == self.vk(),
    {
        (slice_to_vec(self.signing.as_slice()), slice_to_vec(self.verifying.as_slice()))
    }

    /// Reconstructs a key pair from stored bytes. Fails with
    /// `InvalidKeyEncoding` exactly when a buffer has the wrong length, the
    /// scalar is zero or not below the curve order, or the point bytes do not
    /// decode to a point on the curve. Does not check that the two halves
    /// belong together.
    pub fn from_bytes(signing_bytes: Vec<u8>, verification_bytes: Vec<u8>) -> (r: Result<
        KeyPair,
        VtsError,
    >)
        ensures
            r is Ok <==> {
                &&& signing_bytes@.len() == 32
                &&& valid_sk(signing_bytes@)
                &&& verification_bytes@.len() == 33
                &&& valid_vk(verification_bytes@)
            },
            r matches Ok(kp) ==> kp.wf() && kp.sk() == signing_bytes@ && kp.vk()
                == verification_bytes@,
            r matches Err(e) ==> e == VtsError::InvalidKeyEncoding,
    {
        if signing_bytes.len() != 32 || verification_bytes.len() != 33 {
            return Err(VtsError::InvalidKeyEncoding);
        }
        if !check_signing_key(signing_bytes.as_slice()) {
            return Err(VtsError::InvalidKeyEncoding);
        }
        if !check_verifying_key(verification_bytes.as_slice()) {
            return Err(VtsError::InvalidKeyEncoding);
        }
        Ok(KeyPair { signing: signing_bytes, verifying: verification_bytes })
    }

    /// Signs a message with the signing key: deterministic ECDSA, so the
    /// signature is a function of the key and the message; verification under
    /// the key's derived verification key accepts it.
    pub fn sign(&self, message: &[u8]) -> (r: Vec<u8>)
        requires
            self.wf(),
        ensures
            r@ == sig_of(self.sk(), message@),
            r@.len() == 64,
            valid_sig(r@),
            sig_ok(vk_of(self.sk()), message@, r@),
    {
        ecdsa_sign(self.signing.as_slice(), message)
    }

    /// Checks a signature over a message with the verification key. Total:
    /// bytes that are no signature encoding yield `false`, never an error.
    pub fn verify(&self, message: &[u8], signature: &[u8]) -> (r: bool)
        requires
            self.wf(),
        ensures
            r == (valid_sig(signature@) && sig_ok(self.vk(), message@, signature@)),
    {
        if !check_signature_bytes(signature) {
            return false;
        }
        ecdsa_verify(self.verifying.as_slice(), message, signature)
    }

    /// The verification (public) key bytes: the 33-byte compressed point.
    pub fn public_key(&self) -> (r: &Vec<u8>)
        ensures
            r@ == self.vk(),
    {
        &self.verifying
    }
}

/// Law: serializing a well-formed key pair and reconstructing it yields a key
/// pair with the same signing and verification key bytes — and signing and
/// verification are functions of those bytes alone, so its behavior is
/// indistinguishable from the original's.
pub fn keypair_bytes_roundtrip(kp: &KeyPair) -> (r: KeyPair)
    requires
        kp.wf(),
    ensures
        r.wf(),
        r.sk() == kp.sk(),
        r.vk() == kp.vk(),
{
    let (signing_bytes, verification_bytes) = kp.to_bytes();
    match KeyPair::from_bytes(signing_bytes, verification_bytes) {
        Ok(rebuilt) => rebuilt,
        Err(_) => vstd::pervasive::unreached(),
    }
}

/// Law: the bytes round trip holds of every generated key pair; the result is
/// as well-formed and consistent as the original.
pub fn generated_keypair_roundtrip() -> (r: (KeyPair, KeyPair))
    ensures
        r.0.wf() && r.0.consistent(),
        r.1.wf() && r.1.consistent(),
        r.1.sk() == r.0.sk(),
        r.1.vk() == r.0.vk(),
{
    let kp = KeyPair::generate();
    let rebuilt = keypair_bytes_roundtrip(&kp);
    (kp, rebuilt)
}

} // verus!

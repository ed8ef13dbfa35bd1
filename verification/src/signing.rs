//! Signature algorithms and the secp256k1 signer and verifier used for
//! attestations.
//!
//! The cryptography is the `k256` crate's; it enters only through the
//! trusted wrappers below. Signing with RFC 6979 derivation and verifying
//! are deterministic in their inputs, so their results are named by
//! uninterpreted spec functions that the contracts of the attestation
//! protocol then relate.

use k256::ecdsa::signature::{Signer, Verifier};
use vstd::prelude::*;

verus! {

/// Identifier of a signature algorithm an attestation can carry.
#[derive(Debug, Clone, Copy, PartialEq, Eq, Structural)]
pub enum SignatureAlgId {
    Secp256k1,
    Secp256r1,
}

/// Identifier of the encoding of a verifying key.
#[derive(Debug, Clone, Copy, PartialEq, Eq, Structural)]
pub enum KeyAlgId {
    K256,
    P256,
}

/// Failure of a signing-key operation.
#[derive(Debug, Clone, Copy, PartialEq, Eq, Structural)]
pub enum SigningError {
    /// The 32 bytes are not a valid secp256k1 private scalar.
    InvalidKey,
}

/// Whether 32 bytes are a valid secp256k1 private scalar (nonzero and
/// below the group order), as `SigningKey::from_slice` decides it.
pub uninterp spec fn spec_k256_key_valid(key: Seq<u8>) -> bool;

/// The compact 64-byte ECDSA/secp256k1 signature the deterministic signer
/// produces for a key and message.
pub uninterp spec fn spec_k256_sign(key: Seq<u8>, msg: Seq<u8>) -> Seq<u8>;

/// The uncompressed SEC1 encoding of the verifying key of a private scalar.
pub uninterp spec fn spec_k256_verifying_key(key: Seq<u8>) -> Seq<u8>;

/// Whether a compact signature verifies over a message under an
/// SEC1-encoded verifying key; false also when key or signature bytes are
/// malformed.
pub uninterp spec fn spec_k256_verify(vk: Seq<u8>, msg: Seq<u8>, sig: Seq<u8>) -> bool;

/// Relies on k256::ecdsa::SigningKey::from_slice and its `Signer` impl:
/// signing is deterministic (RFC 6979 with SHA-256), yields a compact
/// 64-byte low-S signature, and only a valid private scalar is accepted.
/// Also relies on the documented round trip of the signature API: the
/// verifier accepts what the signer produced under the matching key.
#[verifier::external_body]
pub(crate) fn k256_sign(key: &[u8; 32], msg: &[u8]) -> (result: Result<Vec<u8>, SigningError>)
    ensures
        result is Ok <==> spec_k256_key_valid(key@),
        result matches Ok(sig) ==> sig@ == spec_k256_sign(key@, msg@) && sig@.len() == 64,
        result matches Ok(sig) ==> spec_k256_verify(spec_k256_verifying_key(key@), msg@, sig@),
{
    match k256::ecdsa::SigningKey::from_slice(key) {
        Ok(sk) => {
            let sig: k256::ecdsa::Signature = sk.sign(msg);
            Ok(sig.to_bytes().to_vec())
        },
        Err(_) => Err(SigningError::InvalidKey),
    }
}

/// Relies on k256::ecdsa::SigningKey::from_slice and
/// VerifyingKey::to_encoded_point: the public key of a valid private
/// scalar, as an uncompressed SEC1 point (65 bytes, leading byte 0x04).
#[verifier::external_body]
pub(crate) fn k256_verifying_key_sec1(key: &[u8; 32]) -> (result: Result<Vec<u8>, SigningError>)
    ensures
        result is Ok <==> spec_k256_key_valid(key@),
        result matches Ok(vk) ==> vk@ == spec_k256_verifying_key(key@) && vk@.len() == 65
            && vk@[0] == 4u8,
{
    match k256::ecdsa::SigningKey::from_slice(key) {
        Ok(sk) => Ok(sk.verifying_key().to_encoded_point(false).as_bytes().to_vec()),
        Err(_) => Err(SigningError::InvalidKey),
    }
}

/// Relies on k256::ecdsa::VerifyingKey::from_sec1_bytes,
/// Signature::from_slice and the `Verifier` impl: whether `sig` is a valid
/// ECDSA/secp256k1 signature over `msg` under the key `vk`, a result
/// determined by the three arguments alone.
#[verifier::external_body]
pub(crate) fn k256_verify(vk: &[u8], msg: &[u8], sig: &[u8]) -> (result: bool)
    ensures
        result == spec_k256_verify(vk@, msg@, sig@),
{
    let vk = match k256::ecdsa::VerifyingKey::from_sec1_bytes(vk) {
        Ok(vk) => vk,
        Err(_) => return false,
    };
    let sig = match k256::ecdsa::Signature::from_slice(sig) {
        Ok(sig) => sig,
        Err(_) => return false,
    };
    vk.verify(msg, &sig).is_ok()
}

} // verus!

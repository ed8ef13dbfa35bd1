//! Assembly of the persisted artifact: every cryptographic component of a
//! validated attestation, hex-encoded, next to the disclosed response body
//! and connection metadata.

use vstd::prelude::*;
use vstd::string::*;

use crate::attestation::{encode_attestation_body, spec_encode_body, Attestation};
use crate::hexcodec::{hex_encode, spec_hex_encode};
use crate::signing::{KeyAlgId, SignatureAlgId};
use crate::split_signature_64;

verus! {

/// The signature of an attestation, raw and split into its halves.
#[derive(Debug, Clone)]
pub struct SignatureOutput {
    pub raw_hex: String,
    pub r_hex: String,
    pub s_hex: String,
}

/// The Notary's public key, SEC1-encoded and split into coordinates.
#[derive(Debug, Clone)]
pub struct PublicKeyOutput {
    pub sec1_hex: String,
    pub x_hex: String,
    pub y_hex: String,
}

/// The persisted artifact of a successful run.
#[derive(Debug, Clone)]
pub struct AttestationOutput {
    pub session_header_bytes_hex: String,
    pub signature: SignatureOutput,
    pub notary_public_key: PublicKeyOutput,
    pub response_body: String,
    pub server_name: String,
    pub timestamp: u64,
    pub signature_alg: String,
}

/// Why the artifact could not be assembled from an attestation.
#[derive(Debug, Clone, Copy, PartialEq, Eq, Structural)]
pub enum OutputError {
    /// The attestation's signature algorithm is not secp256k1.
    UnexpectedSignatureAlg,
    /// The embedded key's algorithm is not k256.
    UnexpectedKeyAlg,
    /// The signature is not 64 bytes.
    BadSignatureLength { got: usize },
    /// The embedded key is not an uncompressed 65-byte SEC1 point.
    BadKeyEncoding,
}

/// The disclosed response body: the one parsed out of the committed
/// transcript when there is one, else the body read directly from the
/// connection.
pub fn choose_response_body(primary: Option<String>, fallback: String) -> (result: String)
    ensures
        primary matches Some(p) ==> result == p,
        primary is None ==> result == fallback,
{
    match primary {
        Some(p) => p,
        None => fallback,
    }
}

/// A validated attestation has an uncompressed SEC1 key and a compact
/// 64-byte signature.
pub open spec fn spec_output_shape_ok(attestation: Attestation) -> bool {
    &&& attestation.signature.alg is Secp256k1
    &&& attestation.body.verifying_key.alg is K256
    &&& attestation.signature.data@.len() == 64
    &&& attestation.body.verifying_key.data@.len() == 65
    &&& attestation.body.verifying_key.data@[0] == 4u8
}

/// Assemble the persisted artifact from a validated attestation: the
/// header bytes, the signature with its halves, and the public key with
/// its coordinates, each hex-encoded exactly.
pub fn build_attestation_output(
    attestation: &Attestation,
    response_body: String,
    timestamp: u64,
) -> (result: Result<AttestationOutput, OutputError>)
    ensures
        result is Ok <==> spec_output_shape_ok(*attestation),
        result matches Ok(out) ==> {
            &&& out.session_header_bytes_hex@ == spec_hex_encode(
                spec_encode_body(attestation.body),
            )
            &&& out.signature.raw_hex@ == spec_hex_encode(attestation.signature.data@)
            &&& out.signature.r_hex@ == spec_hex_encode(attestation.signature.data@.subrange(0, 32))
            &&& out.signature.s_hex@ == spec_hex_encode(
                attestation.signature.data@.subrange(32, 64),
            )
            &&& out.notary_public_key.sec1_hex@ == spec_hex_encode(
                attestation.body.verifying_key.data@,
            )
            &&& out.notary_public_key.x_hex@ == spec_hex_encode(
                attestation.body.verifying_key.data@.subrange(1, 33),
            )
            &&& out.notary_public_key.y_hex@ == spec_hex_encode(
                attestation.body.verifying_key.data@.subrange(33, 65),
            )
            &&& out.response_body == response_body
            &&& out.server_name@ == attestation.body.server_name@
            &&& out.timestamp == timestamp
            &&& out.signature_alg@ == "secp256k1"@
        },
        result matches Err(e) ==> match e {
            OutputError::UnexpectedSignatureAlg => !(attestation.signature.alg is Secp256k1),
            OutputError::UnexpectedKeyAlg => attestation.signature.alg is Secp256k1 && !(
            attestation.body.verifying_key.alg is K256),
            OutputError::BadSignatureLength { got } => attestation.signature.alg is Secp256k1
                && attestation.body.verifying_key.alg is K256
                && attestation.signature.data@.len() != 64 && got
                == attestation.signature.data@.len(),
            OutputError::BadKeyEncoding => attestation.signature.alg is Secp256k1
                && attestation.body.verifying_key.alg is K256
                && attestation.signature.data@.len() == 64 && !(
            attestation.body.verifying_key.data@.len() == 65
                && attestation.body.verifying_key.data@[0] == 4u8),
        },
{
    let sig_alg_ok = match attestation.signature.alg {
        SignatureAlgId::Secp256k1 => true,
        _ => false,
    };
    if !sig_alg_ok {
        return Err(OutputError::UnexpectedSignatureAlg);
    }
    let key_alg_ok = match attestation.body.verifying_key.alg {
        KeyAlgId::K256 => true,
        _ => false,
    };
    if !key_alg_ok {
        return Err(OutputError::UnexpectedKeyAlg);
    }

    let header = encode_attestation_body(&attestation.body);
    let signature_raw = attestation.signature.data.as_slice();
    let (r, s) = match split_signature_64(signature_raw) {
        Ok(halves) => halves,
        Err(_) => {
            return Err(OutputError::BadSignatureLength { got: attestation.signature.data.len() });
        },
    };

    let key = attestation.body.verifying_key.data.as_slice();
    if key.len() != 65 || key[0] != 4 {
        return Err(OutputError::BadKeyEncoding);
    }
    let x = &key[1..33];
    let y = &key[33..65];

    Ok(AttestationOutput {
        session_header_bytes_hex: hex_encode(header.as_slice()),
        signature: SignatureOutput {
            raw_hex: hex_encode(signature_raw),
            r_hex: hex_encode(r.as_slice()),
            s_hex: hex_encode(s.as_slice()),
        },
        notary_public_key: PublicKeyOutput {
            sec1_hex: hex_encode(key),
            x_hex: hex_encode(x),
            y_hex: hex_encode(y),
        },
        response_body,
        server_name: String::from_str(attestation.body.server_name.as_str()),
        timestamp,
        signature_alg: String::from_str("secp256k1"),
    })
}

} // verus!

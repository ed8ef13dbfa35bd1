//! The attestation protocol objects and the three operations around them:
//! the Prover builds a request from its own transcript, the Notary accepts
//! a request and builds a signed attestation from its own observation, and
//! the Prover validates the returned attestation against its request.

use vstd::bytes::{spec_u32_to_le_bytes, spec_u64_to_le_bytes, u32_to_le_bytes, u64_to_le_bytes};
use vstd::prelude::*;
use vstd::slice::slice_to_vec;
use vstd::string::*;
use vstd::utf8::encode_utf8;

use crate::signing::{
    k256_sign, k256_verify, k256_verifying_key_sec1, spec_k256_key_valid, spec_k256_sign,
    spec_k256_verify, spec_k256_verifying_key, KeyAlgId, SignatureAlgId,
};
use crate::transcript::{
    spec_app_data_len, observed_transcript_length, TlsTranscript, TlsVersion, TranscriptLength,
};

verus! {

/// Direction of the transcript bytes a commitment covers.
#[derive(Debug, Clone, Copy, PartialEq, Eq, Structural)]
pub enum Direction {
    Sent,
    Received,
}

/// The byte range of one direction of the transcript that a commitment
/// covers.
#[derive(Debug, Clone, Copy, PartialEq, Eq, Structural)]
pub struct CommitmentRegion {
    pub direction: Direction,
    pub start: u64,
    pub end: u64,
}

/// A cryptographic commitment to one transcript region. The opening
/// secrets stay with the Prover; only the digest travels.
#[derive(Debug, Clone)]
pub struct TranscriptCommitment {
    pub region: CommitmentRegion,
    pub digest: Vec<u8>,
}

/// The handshake evidence embedded in a request: certificate chain, the
/// server's handshake signature, and the value binding the TLS handshake
/// to the commit-phase execution.
#[derive(Debug, Clone)]
pub struct HandshakeData {
    pub certs: Vec<Vec<u8>>,
    pub sig: Vec<u8>,
    pub binding: Vec<u8>,
}

/// The Prover's ask for a signed attestation.
#[derive(Debug, Clone)]
pub struct AttestationRequest {
    pub server_name: String,
    pub handshake: HandshakeData,
    pub commitments: Vec<TranscriptCommitment>,
    pub signature_algs: Vec<SignatureAlgId>,
}

/// Connection metadata the Notary computes from its own observation.
#[derive(Debug, Clone, Copy, PartialEq, Eq, Structural)]
pub struct ConnectionInfo {
    pub time: u64,
    pub version: TlsVersion,
    pub transcript_length: TranscriptLength,
}

/// The verifying key embedded in an attestation body.
#[derive(Debug, Clone)]
pub struct VerifyingKeyInfo {
    pub alg: KeyAlgId,
    pub data: Vec<u8>,
}

/// The signed payload of an attestation.
#[derive(Debug, Clone)]
pub struct AttestationBody {
    pub server_name: String,
    pub connection_info: ConnectionInfo,
    pub server_ephemeral_key: Vec<u8>,
    pub verifying_key: VerifyingKeyInfo,
    pub commitments: Vec<TranscriptCommitment>,
}

/// The signature over an attestation header.
#[derive(Debug, Clone)]
pub struct SignatureInfo {
    pub alg: SignatureAlgId,
    pub data: Vec<u8>,
}

/// The Notary's signed assertion.
#[derive(Debug, Clone)]
pub struct Attestation {
    pub body: AttestationBody,
    pub signature: SignatureInfo,
}

/// Two commitments carry the same region and digest.
pub open spec fn spec_commitment_eq(a: TranscriptCommitment, b: TranscriptCommitment) -> bool {
    a.region == b.region && a.digest@ == b.digest@
}

/// Two commitment lists agree elementwise.
pub open spec fn spec_commitments_eq(
    a: Seq<TranscriptCommitment>,
    b: Seq<TranscriptCommitment>,
) -> bool {
    a.len() == b.len() && forall|i: int| 0 <= i < a.len() ==> spec_commitment_eq(a[i], b[i])
}

/// A commitment region lies within the observed transcript bounds of its
/// direction.
pub open spec fn spec_region_in_bounds(r: CommitmentRegion, len: TranscriptLength) -> bool {
    r.start <= r.end && r.end <= (match r.direction {
        Direction::Sent => len.sent,
        Direction::Received => len.received,
    }) as u64
}

/// Every commitment of the list lies within the observed bounds.
pub open spec fn spec_commitments_in_bounds(
    cs: Seq<TranscriptCommitment>,
    len: TranscriptLength,
) -> bool {
    forall|i: int| 0 <= i < cs.len() ==> spec_region_in_bounds(cs[i].region, len)
}

/// Header encoding: a byte string prefixed with its 64-bit length.
pub open spec fn spec_len_prefixed(b: Seq<u8>) -> Seq<u8> {
    spec_u64_to_le_bytes(b.len() as u64) + b
}

/// The byte tag of a TLS version in the header encoding.
pub open spec fn spec_version_byte(v: TlsVersion) -> u8 {
    match v {
        TlsVersion::V1_2 => 1u8,
        TlsVersion::V1_3 => 2u8,
    }
}

/// The byte tag of a commitment direction in the header encoding.
pub open spec fn spec_direction_byte(d: Direction) -> u8 {
    match d {
        Direction::Sent => 0u8,
        Direction::Received => 1u8,
    }
}

/// The byte tag of a key algorithm in the header encoding.
pub open spec fn spec_key_alg_byte(a: KeyAlgId) -> u8 {
    match a {
        KeyAlgId::K256 => 1u8,
        KeyAlgId::P256 => 2u8,
    }
}

/// The header encoding of one commitment.
pub open spec fn spec_encode_commitment(c: TranscriptCommitment) -> Seq<u8> {
    seq![spec_direction_byte(c.region.direction)] + spec_u64_to_le_bytes(c.region.start)
        + spec_u64_to_le_bytes(c.region.end) + spec_len_prefixed(c.digest@)
}

/// The header encoding of a commitment list.
pub open spec fn spec_encode_commitment_list(cs: Seq<TranscriptCommitment>) -> Seq<u8>
    decreases cs.len(),
{
    if cs.len() == 0 {
        Seq::empty()
    } else {
        spec_encode_commitment_list(cs.drop_last()) + spec_encode_commitment(cs.last())
    }
}

/// The fixed leading fields of the header encoding.
pub open spec fn spec_body_prefix(b: AttestationBody) -> Seq<u8> {
    spec_u64_to_le_bytes(b.connection_info.time) + seq![spec_version_byte(
        b.connection_info.version,
    )] + spec_u32_to_le_bytes(b.connection_info.transcript_length.sent) + spec_u32_to_le_bytes(
        b.connection_info.transcript_length.received,
    ) + spec_len_prefixed(encode_utf8(b.server_name@)) + spec_len_prefixed(
        b.server_ephemeral_key@,
    ) + seq![spec_key_alg_byte(b.verifying_key.alg)] + spec_len_prefixed(b.verifying_key.data@)
        + spec_u64_to_le_bytes(b.commitments@.len() as u64)
}

/// The header: the byte encoding of an attestation body that the Notary
/// signs and the Prover re-derives.
pub open spec fn spec_encode_body(b: AttestationBody) -> Seq<u8> {
    spec_body_prefix(b) + spec_encode_commitment_list(b.commitments@)
}

fn push_bytes(out: &mut Vec<u8>, b: &[u8])
    ensures
        final(out)@ == old(out)@ + b@,
{
    let mut i: usize = 0;
    while i < b.len()
        invariant
            i <= b@.len(),
            out@ == old(out)@ + b@.take(i as int),
        decreases b@.len() - i,
    {
        out.push(b[i]);
        proof {
            assert(old(out)@ + b@.take(i as int) + seq![b@[i as int]] =~= old(out)@ + b@.take(
                i + 1,
            ));
            assert((old(out)@ + b@.take(i as int)).push(b@[i as int]) =~= old(out)@ + b@.take(
                i as int,
            ) + seq![b@[i as int]]);
        }
        i = i + 1;
    }
    proof {
        assert(b@.take(b@.len() as int) =~= b@);
    }
}

fn push_u64_le(out: &mut Vec<u8>, x: u64)
    ensures
        final(out)@ == old(out)@ + spec_u64_to_le_bytes(x),
{
    let b = u64_to_le_bytes(x);
    push_bytes(out, b.as_slice());
}

fn push_u32_le(out: &mut Vec<u8>, x: u32)
    ensures
        final(out)@ == old(out)@ + spec_u32_to_le_bytes(x),
{
    let b = u32_to_le_bytes(x);
    push_bytes(out, b.as_slice());
}

fn push_len_prefixed(out: &mut Vec<u8>, b: &[u8])
    ensures
        final(out)@ == old(out)@ + spec_len_prefixed(b@),
{
    push_u64_le(out, b.len() as u64);
    push_bytes(out, b);
    proof {
        assert(old(out)@ + spec_u64_to_le_bytes(b@.len() as u64) + b@ =~= old(out)@
            + spec_len_prefixed(b@));
    }
}

/// Compute the header bytes of an attestation body.
pub fn encode_attestation_body(body: &AttestationBody) -> (result: Vec<u8>)
    ensures
        result@ == spec_encode_body(*body),
{
    let mut out: Vec<u8> = Vec::new();
    push_u64_le(&mut out, body.connection_info.time);
    let version_byte: u8 = match body.connection_info.version {
        TlsVersion::V1_2 => 1u8,
        TlsVersion::V1_3 => 2u8,
    };
    out.push(version_byte);
    push_u32_le(&mut out, body.connection_info.transcript_length.sent);
    push_u32_le(&mut out, body.connection_info.transcript_length.received);
    push_len_prefixed(&mut out, body.server_name.as_str().as_bytes());
    push_len_prefixed(&mut out, body.server_ephemeral_key.as_slice());
    let key_alg_byte: u8 = match body.verifying_key.alg {
        KeyAlgId::K256 => 1u8,
        KeyAlgId::P256 => 2u8,
    };
    out.push(key_alg_byte);
    push_len_prefixed(&mut out, body.verifying_key.data.as_slice());
    push_u64_le(&mut out, body.commitments.len() as u64);
    proof {
        assert(out@ =~= spec_body_prefix(*body));
    }

    let ghost prefix = out@;
    let mut i: usize = 0;
    while i < body.commitments.len()
        invariant
            i <= body.commitments@.len(),
            out@ == prefix + spec_encode_commitment_list(body.commitments@.take(i as int)),
        decreases body.commitments@.len() - i,
    {
        let ghost before = out@;
        let c = &body.commitments[i];
        let direction_byte: u8 = match c.region.direction {
            Direction::Sent => 0u8,
            Direction::Received => 1u8,
        };
        out.push(direction_byte);
        push_u64_le(&mut out, c.region.start);
        push_u64_le(&mut out, c.region.end);
        push_len_prefixed(&mut out, c.digest.as_slice());
        proof {
            assert(out@ =~= before + spec_encode_commitment(body.commitments@[i as int]));
            assert(body.commitments@.take(i + 1).drop_last() =~= body.commitments@.take(i as int));
            assert(body.commitments@.take(i + 1).last() == body.commitments@[i as int]);
            assert(before + spec_encode_commitment(body.commitments@[i as int]) =~= prefix
                + spec_encode_commitment_list(body.commitments@.take(i + 1)));
        }
        i = i + 1;
    }
    proof {
        assert(body.commitments@.take(body.commitments@.len() as int) =~= body.commitments@);
    }
    out
}

fn bytes_eq(a: &[u8], b: &[u8]) -> (result: bool)
    ensures
        result == (a@ == b@),
{
    if a.len() != b.len() {
        return false;
    }
    let mut i: usize = 0;
    while i < a.len()
        invariant
            a@.len() == b@.len(),
            i <= a@.len(),
            forall|j: int| 0 <= j < i ==> a@[j] == b@[j],
        decreases a@.len() - i,
    {
        if a[i] != b[i] {
            return false;
        }
        i = i + 1;
    }
    proof {
        assert(a@ =~= b@);
    }
    true
}

fn algs_contain(algs: &Vec<SignatureAlgId>, alg: SignatureAlgId) -> (result: bool)
    ensures
        result == algs@.contains(alg),
{
    let mut i: usize = 0;
    while i < algs.len()
        invariant
            i <= algs@.len(),
            forall|j: int| 0 <= j < i ==> algs@[j] != alg,
        decreases algs@.len() - i,
    {
        if algs[i] == alg {
            return true;
        }
        i = i + 1;
    }
    false
}

fn commitments_equal(a: &Vec<TranscriptCommitment>, b: &Vec<TranscriptCommitment>) -> (result:
    bool)
    ensures
        result == spec_commitments_eq(a@, b@),
{
    if a.len() != b.len() {
        return false;
    }
    let mut i: usize = 0;
    while i < a.len()
        invariant
            a@.len() == b@.len(),
            i <= a@.len(),
            forall|j: int| 0 <= j < i ==> spec_commitment_eq(a@[j], b@[j]),
        decreases a@.len() - i,
    {
        let same_region = a[i].region == b[i].region;
        let same_digest = bytes_eq(a[i].digest.as_slice(), b[i].digest.as_slice());
        if !same_region || !same_digest {
            return false;
        }
        i = i + 1;
    }
    true
}

fn copy_commitments(v: &Vec<TranscriptCommitment>) -> (result: Vec<TranscriptCommitment>)
    ensures
        spec_commitments_eq(result@, v@),
{
    let mut out: Vec<TranscriptCommitment> = Vec::new();
    let mut i: usize = 0;
    while i < v.len()
        invariant
            i <= v@.len(),
            out@.len() == i,
            forall|j: int| 0 <= j < i ==> spec_commitment_eq(out@[j], v@[j]),
        decreases v@.len() - i,
    {
        let digest = slice_to_vec(v[i].digest.as_slice());
        out.push(TranscriptCommitment { region: v[i].region, digest });
        i = i + 1;
    }
    out
}

/// Rejection of an attestation request by the Notary, before any signing.
#[derive(Debug, Clone, Copy, PartialEq, Eq, Structural)]
pub enum AcceptError {
    /// The commitment at `index` reaches beyond the observed transcript.
    OutOfBounds { index: usize },
}

/// The Notary's admission check: every commitment of the request must lie
/// within the transcript bounds the Notary itself observed. The first
/// offending commitment is named; nothing is signed before this passes.
pub fn accept_request(request: &AttestationRequest, observed: &TranscriptLength) -> (result:
    Result<(), AcceptError>)
    ensures
        result is Ok <==> spec_commitments_in_bounds(request.commitments@, *observed),
        result matches Err(e) ==> {
            let i = e->index;
            &&& i < request.commitments@.len()
            &&& !spec_region_in_bounds(request.commitments@[i as int].region, *observed)
            &&& forall|j: int|
                0 <= j < i ==> spec_region_in_bounds(request.commitments@[j].region, *observed)
        },
{
    let mut i: usize = 0;
    while i < request.commitments.len()
        invariant
            i <= request.commitments@.len(),
            forall|j: int|
                0 <= j < i ==> spec_region_in_bounds(request.commitments@[j].region, *observed),
        decreases request.commitments@.len() - i,
    {
        let region = request.commitments[i].region;
        let limit: u64 = match region.direction {
            Direction::Sent => observed.sent as u64,
            Direction::Received => observed.received as u64,
        };
        if region.start > region.end || region.end > limit {
            return Err(AcceptError::OutOfBounds { index: i });
        }
        i = i + 1;
    }
    Ok(())
}

/// Why the Notary refused to build an attestation.
#[derive(Debug, Clone, Copy, PartialEq, Eq, Structural)]
pub enum BuildError {
    /// A direction of the observed transcript overflows the recordable
    /// length.
    TranscriptTooLong,
    /// A commitment reaches beyond the observed transcript.
    OutOfBounds { index: usize },
    /// The requested algorithms and the configured signer share no
    /// algorithm.
    UnsupportedAlgorithm,
    /// The configured signing key is not a valid private scalar.
    InvalidKey,
}

/// The transcript length a party records, as a spec value.
pub open spec fn spec_observed_length(t: TlsTranscript) -> TranscriptLength {
    TranscriptLength {
        sent: spec_app_data_len(t.sent@) as u32,
        received: spec_app_data_len(t.recv@) as u32,
    }
}

/// Both directions of the observed transcript fit the recordable range.
pub open spec fn spec_lengths_fit(t: TlsTranscript) -> bool {
    spec_app_data_len(t.sent@) <= u32::MAX && spec_app_data_len(t.recv@) <= u32::MAX
}

/// The Notary's construction of a signed attestation from a validated
/// request. The connection info is computed from the Notary's own
/// transcript observation, never taken from the request; the request is
/// bounds-checked before the signer is touched; the signature algorithm
/// must be requested as well as configured; and the signature covers the
/// header encoding of the exact body returned.
pub fn build_attestation(
    request: &AttestationRequest,
    transcript: &TlsTranscript,
    signing_key: &[u8; 32],
    supported_algs: &Vec<SignatureAlgId>,
) -> (result: Result<Attestation, BuildError>)
    ensures
        result is Ok <==> spec_lengths_fit(*transcript) && spec_commitments_in_bounds(
            request.commitments@,
            spec_observed_length(*transcript),
        ) && request.signature_algs@.contains(SignatureAlgId::Secp256k1)
            && supported_algs@.contains(SignatureAlgId::Secp256k1) && spec_k256_key_valid(
            signing_key@,
        ),
        result matches Ok(att) ==> {
            &&& att.body.server_name@ == request.server_name@
            &&& att.body.connection_info.time == transcript.time
            &&& att.body.connection_info.version == transcript.version
            &&& att.body.connection_info.transcript_length == spec_observed_length(*transcript)
            &&& att.body.server_ephemeral_key@ == transcript.server_ephemeral_key@
            &&& att.body.verifying_key.alg is K256
            &&& att.body.verifying_key.data@ == spec_k256_verifying_key(signing_key@)
            &&& spec_commitments_eq(att.body.commitments@, request.commitments@)
            &&& att.signature.alg is Secp256k1
            &&& att.signature.data@ == spec_k256_sign(signing_key@, spec_encode_body(att.body))
            &&& spec_k256_verify(
                att.body.verifying_key.data@,
                spec_encode_body(att.body),
                att.signature.data@,
            )
        },
        result matches Err(e) ==> match e {
            BuildError::TranscriptTooLong => !spec_lengths_fit(*transcript),
            BuildError::OutOfBounds { index } => spec_lengths_fit(*transcript)
                && !spec_commitments_in_bounds(
                request.commitments@,
                spec_observed_length(*transcript),
            ),
            BuildError::UnsupportedAlgorithm => spec_lengths_fit(*transcript)
                && spec_commitments_in_bounds(
                request.commitments@,
                spec_observed_length(*transcript),
            ) && !(request.signature_algs@.contains(SignatureAlgId::Secp256k1)
                && supported_algs@.contains(SignatureAlgId::Secp256k1)),
            BuildError::InvalidKey => spec_lengths_fit(*transcript) && spec_commitments_in_bounds(
                request.commitments@,
                spec_observed_length(*transcript),
            ) && request.signature_algs@.contains(SignatureAlgId::Secp256k1)
                && supported_algs@.contains(SignatureAlgId::Secp256k1) && !spec_k256_key_valid(
                signing_key@,
            ),
        },
{
    let length = match observed_transcript_length(transcript) {
        Some(length) => length,
        None => {
            return Err(BuildError::TranscriptTooLong);
        },
    };
    if let Err(e) = accept_request(request, &length) {
        let index = match e {
            AcceptError::OutOfBounds { index } => index,
        };
        return Err(BuildError::OutOfBounds { index });
    }
    if !algs_contain(&request.signature_algs, SignatureAlgId::Secp256k1) || !algs_contain(
        supported_algs,
        SignatureAlgId::Secp256k1,
    ) {
        return Err(BuildError::UnsupportedAlgorithm);
    }
    let verifying_key = match k256_verifying_key_sec1(signing_key) {
        Ok(vk) => vk,
        Err(_) => {
            return Err(BuildError::InvalidKey);
        },
    };
    let body = AttestationBody {
        server_name: String::from_str(request.server_name.as_str()),
        connection_info: ConnectionInfo {
            time: transcript.time,
            version: transcript.version,
            transcript_length: length,
        },
        server_ephemeral_key: slice_to_vec(transcript.server_ephemeral_key.as_slice()),
        verifying_key: VerifyingKeyInfo { alg: KeyAlgId::K256, data: verifying_key },
        commitments: copy_commitments(&request.commitments),
    };
    let header = encode_attestation_body(&body);
    let signature = match k256_sign(signing_key, header.as_slice()) {
        Ok(sig) => sig,
        Err(_) => {
            return Err(BuildError::InvalidKey);
        },
    };
    Ok(Attestation { body, signature: SignatureInfo { alg: SignatureAlgId::Secp256k1, data: signature } })
}

fn copy_byte_lists(v: &Vec<Vec<u8>>) -> (result: Vec<Vec<u8>>)
    ensures
        result@.len() == v@.len(),
        forall|i: int| 0 <= i < v@.len() ==> result@[i]@ == v@[i]@,
{
    let mut out: Vec<Vec<u8>> = Vec::new();
    let mut i: usize = 0;
    while i < v.len()
        invariant
            i <= v@.len(),
            out@.len() == i,
            forall|j: int| 0 <= j < i ==> out@[j]@ == v@[j]@,
        decreases v@.len() - i,
    {
        out.push(slice_to_vec(v[i].as_slice()));
        i = i + 1;
    }
    out
}

/// Why the Prover could not build an attestation request.
#[derive(Debug, Clone, Copy, PartialEq, Eq, Structural)]
pub enum RequestError {
    /// The transcript carries no server certificate chain.
    MissingCertChain,
    /// The transcript carries no server handshake signature.
    MissingServerSignature,
    /// A direction of the observed transcript overflows the recordable
    /// length.
    TranscriptTooLong,
    /// The commitment at `index` reaches beyond the Prover's own
    /// transcript.
    OutOfBounds { index: usize },
    /// No signature algorithm is supported.
    NoSupportedAlgorithm,
}

/// The Prover's construction of an attestation request: the handshake
/// evidence comes from the Prover's own transcript, the commitments must
/// lie within that transcript's bounds, and at least one signature
/// algorithm must be offered.
pub fn build_attestation_request(
    transcript: &TlsTranscript,
    server_name: &str,
    commitments: &Vec<TranscriptCommitment>,
    signature_algs: &Vec<SignatureAlgId>,
) -> (result: Result<AttestationRequest, RequestError>)
    ensures
        result is Ok <==> transcript.server_cert_chain is Some
            && transcript.server_signature is Some && spec_lengths_fit(*transcript)
            && spec_commitments_in_bounds(commitments@, spec_observed_length(*transcript))
            && signature_algs@.len() > 0,
        result matches Ok(request) ==> {
            &&& request.server_name@ == server_name@
            &&& request.handshake.certs@.len() == transcript.server_cert_chain.unwrap()@.len()
            &&& forall|i: int|
                0 <= i < request.handshake.certs@.len() ==> request.handshake.certs@[i]@
                    == transcript.server_cert_chain.unwrap()@[i]@
            &&& request.handshake.sig@ == transcript.server_signature.unwrap()@
            &&& request.handshake.binding@ == transcript.certificate_binding@
            &&& spec_commitments_eq(request.commitments@, commitments@)
            &&& request.signature_algs@ == signature_algs@
        },
        result matches Err(e) ==> match e {
            RequestError::MissingCertChain => transcript.server_cert_chain is None,
            RequestError::MissingServerSignature => transcript.server_cert_chain is Some
                && transcript.server_signature is None,
            RequestError::TranscriptTooLong => transcript.server_cert_chain is Some
                && transcript.server_signature is Some && !spec_lengths_fit(*transcript),
            RequestError::OutOfBounds { index } => transcript.server_cert_chain is Some
                && transcript.server_signature is Some && spec_lengths_fit(*transcript)
                && !spec_commitments_in_bounds(commitments@, spec_observed_length(*transcript)),
            RequestError::NoSupportedAlgorithm => transcript.server_cert_chain is Some
                && transcript.server_signature is Some && spec_lengths_fit(*transcript)
                && spec_commitments_in_bounds(commitments@, spec_observed_length(*transcript))
                && signature_algs@.len() == 0,
        },
{
    let certs = match &transcript.server_cert_chain {
        Some(certs) => certs,
        None => {
            return Err(RequestError::MissingCertChain);
        },
    };
    let server_sig = match &transcript.server_signature {
        Some(sig) => sig,
        None => {
            return Err(RequestError::MissingServerSignature);
        },
    };
    let length = match observed_transcript_length(transcript) {
        Some(length) => length,
        None => {
            return Err(RequestError::TranscriptTooLong);
        },
    };
    let probe = AttestationRequest {
        server_name: String::from_str(server_name),
        handshake: HandshakeData {
            certs: copy_byte_lists(certs),
            sig: slice_to_vec(server_sig.as_slice()),
            binding: slice_to_vec(transcript.certificate_binding.as_slice()),
        },
        commitments: copy_commitments(commitments),
        signature_algs: slice_to_vec(signature_algs.as_slice()),
    };
    if let Err(e) = accept_request(&probe, &length) {
        let index = match e {
            AcceptError::OutOfBounds { index } => index,
        };
        return Err(RequestError::OutOfBounds { index });
    }
    if probe.signature_algs.len() == 0 {
        return Err(RequestError::NoSupportedAlgorithm);
    }
    Ok(probe)
}

/// Why the Prover rejected a returned attestation.
#[derive(Debug, Clone, Copy, PartialEq, Eq, Structural)]
pub enum ValidateError {
    /// The attestation's algorithm is none the request listed.
    AlgorithmMismatch,
    /// The body does not carry what was requested.
    BodyMismatch,
    /// The signature does not verify under the embedded key.
    InvalidSignature,
}

/// The outcome of validating an attestation against the request it
/// answers: a function of the two values alone, so validating the same
/// pair again always returns the same outcome.
pub open spec fn spec_validate(request: AttestationRequest, attestation: Attestation) -> Result<
    (),
    ValidateError,
> {
    if !request.signature_algs@.contains(attestation.signature.alg) {
        Err(ValidateError::AlgorithmMismatch)
    } else if !(attestation.body.server_name@ == request.server_name@ && spec_commitments_eq(
        attestation.body.commitments@,
        request.commitments@,
    )) {
        Err(ValidateError::BodyMismatch)
    } else if attestation.signature.alg is Secp256k1 && spec_k256_verify(
        attestation.body.verifying_key.data@,
        spec_encode_body(attestation.body),
        attestation.signature.data@,
    ) {
        Ok(())
    } else {
        Err(ValidateError::InvalidSignature)
    }
}

/// A notarization round trip succeeds: an attestation with the shape that
/// a fresh build guarantees — answering the request's server name and
/// commitment set, carrying an algorithm the request listed, and whose
/// signature verifies over its own header under its embedded key —
/// validates against that request.
pub proof fn lemma_fresh_attestation_validates(
    request: AttestationRequest,
    attestation: Attestation,
)
    requires
        request.signature_algs@.contains(SignatureAlgId::Secp256k1),
        attestation.signature.alg is Secp256k1,
        attestation.body.server_name@ == request.server_name@,
        spec_commitments_eq(attestation.body.commitments@, request.commitments@),
        spec_k256_verify(
            attestation.body.verifying_key.data@,
            spec_encode_body(attestation.body),
            attestation.signature.data@,
        ),
    ensures
        spec_validate(request, attestation) == Ok::<(), ValidateError>(()),
{
}

/// Validating one request/attestation pair any number of times gives the
/// same accept/reject outcome: `validate_attestation` returns
/// `spec_validate` of the pair, a function of the two values alone, so
/// any two of its results on the same unmodified pair are equal.
pub proof fn lemma_validate_deterministic(
    request: AttestationRequest,
    attestation: Attestation,
    first: Result<(), ValidateError>,
    second: Result<(), ValidateError>,
)
    requires
        first == spec_validate(request, attestation),
        second == spec_validate(request, attestation),
    ensures
        first == second,
{
}

/// The Prover's validation of a returned attestation: the declared
/// algorithm must be one the request listed, the body must carry the
/// requested server name and commitment set, and the signature must
/// verify over the re-derived header under the embedded key. Any failure
/// discards the attestation.
pub fn validate_attestation(request: &AttestationRequest, attestation: &Attestation) -> (result:
    Result<(), ValidateError>)
    ensures
        result == spec_validate(*request, *attestation),
        result is Ok <==> spec_validate(*request, *attestation) is Ok,
{
    if !algs_contain(&request.signature_algs, attestation.signature.alg) {
        return Err(ValidateError::AlgorithmMismatch);
    }
    let same_name = request.server_name == attestation.body.server_name;
    let same_commitments = commitments_equal(&attestation.body.commitments, &request.commitments);
    if !same_name || !same_commitments {
        return Err(ValidateError::BodyMismatch);
    }
    let header = encode_attestation_body(&attestation.body);
    let verified = match attestation.signature.alg {
        SignatureAlgId::Secp256k1 => k256_verify(
            attestation.body.verifying_key.data.as_slice(),
            header.as_slice(),
            attestation.signature.data.as_slice(),
        ),
        SignatureAlgId::Secp256r1 => false,
    };
    if verified {
        Ok(())
    } else {
        Err(ValidateError::InvalidSignature)
    }
}

} // verus!

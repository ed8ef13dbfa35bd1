use tlsnotary::attestation::{
    accept_request, build_attestation, build_attestation_request, encode_attestation_body,
    validate_attestation, AcceptError, BuildError, CommitmentRegion, Direction, RequestError,
    TranscriptCommitment, ValidateError,
};
use tlsnotary::output::{build_attestation_output, choose_response_body, OutputError};
use tlsnotary::signing::{KeyAlgId, SignatureAlgId};
use tlsnotary::transcript::{
    app_data_len, observed_transcript_length, ContentType, TlsRecord, TlsTranscript, TlsVersion,
    TranscriptLength,
};

fn record(typ: ContentType, len: usize) -> TlsRecord {
    TlsRecord { typ, ciphertext: vec![0x5a; len] }
}

fn sample_transcript() -> TlsTranscript {
    TlsTranscript {
        sent: vec![
            record(ContentType::Handshake, 64),
            record(ContentType::ApplicationData, 5),
        ],
        recv: vec![
            record(ContentType::Handshake, 80),
            record(ContentType::ApplicationData, 7),
            record(ContentType::Alert, 2),
            record(ContentType::ApplicationData, 5),
        ],
        time: 1_700_000_000,
        version: TlsVersion::V1_2,
        server_cert_chain: Some(vec![vec![0x30, 0x82, 0x01, 0x02]]),
        server_signature: Some(vec![0x99; 72]),
        certificate_binding: vec![0x42; 32],
        server_ephemeral_key: vec![0x04; 65],
    }
}

fn sample_commitments() -> Vec<TranscriptCommitment> {
    vec![TranscriptCommitment {
        region: CommitmentRegion { direction: Direction::Received, start: 0, end: 12 },
        digest: vec![0xaa; 32],
    }]
}

const SIGNING_KEY: [u8; 32] = [0x11; 32];

#[test]
fn transcript_length_sums_only_application_data() {
    let transcript = sample_transcript();
    assert_eq!(app_data_len(&transcript.sent), Some(5));
    assert_eq!(app_data_len(&transcript.recv), Some(12));
    let length = observed_transcript_length(&transcript).expect("lengths fit");
    assert_eq!(length, TranscriptLength { sent: 5, received: 12 });
}

#[test]
fn notarization_round_trip_attests_the_observed_lengths() {
    let transcript = sample_transcript();
    let algs = vec![SignatureAlgId::Secp256k1];
    let request =
        build_attestation_request(&transcript, "localhost", &sample_commitments(), &algs)
            .expect("request should build");
    assert_eq!(request.server_name, "localhost");

    let attestation = build_attestation(&request, &transcript, &SIGNING_KEY, &algs)
        .expect("attestation should build");
    assert_eq!(attestation.body.connection_info.transcript_length.sent, 5);
    assert_eq!(attestation.body.connection_info.transcript_length.received, 12);
    assert_eq!(attestation.body.connection_info.time, 1_700_000_000);
    assert_eq!(attestation.signature.alg, SignatureAlgId::Secp256k1);
    assert_eq!(attestation.body.verifying_key.alg, KeyAlgId::K256);

    let signing_key = k256::ecdsa::SigningKey::from_slice(&SIGNING_KEY).expect("valid scalar");
    let embedded = signing_key.verifying_key().to_encoded_point(false);
    assert_eq!(attestation.body.verifying_key.data, embedded.as_bytes().to_vec());

    validate_attestation(&request, &attestation).expect("attestation should validate");
}

#[test]
fn out_of_bounds_commitment_is_rejected_before_signing() {
    let transcript = sample_transcript();
    let observed = observed_transcript_length(&transcript).expect("lengths fit");
    let oversized = vec![TranscriptCommitment {
        region: CommitmentRegion { direction: Direction::Received, start: 0, end: 9999 },
        digest: vec![0xaa; 32],
    }];

    let algs = vec![SignatureAlgId::Secp256k1];
    let probe = build_attestation_request(&transcript, "localhost", &sample_commitments(), &algs)
        .expect("request should build");
    let mut request = probe;
    request.commitments = oversized.clone();

    assert_eq!(
        accept_request(&request, &observed),
        Err(AcceptError::OutOfBounds { index: 0 })
    );
    assert_eq!(
        build_attestation(&request, &transcript, &SIGNING_KEY, &algs).unwrap_err(),
        BuildError::OutOfBounds { index: 0 }
    );
    assert_eq!(
        build_attestation_request(&transcript, "localhost", &oversized, &algs).unwrap_err(),
        RequestError::OutOfBounds { index: 0 }
    );
}

#[test]
fn tampered_signature_algorithm_fails_with_a_mismatch_not_a_bad_signature() {
    let transcript = sample_transcript();
    let algs = vec![SignatureAlgId::Secp256k1];
    let request =
        build_attestation_request(&transcript, "localhost", &sample_commitments(), &algs)
            .expect("request should build");
    let attestation = build_attestation(&request, &transcript, &SIGNING_KEY, &algs)
        .expect("attestation should build");

    let mut tampered = attestation.clone();
    tampered.signature.alg = SignatureAlgId::Secp256r1;
    assert_eq!(
        validate_attestation(&request, &tampered),
        Err(ValidateError::AlgorithmMismatch)
    );
}

#[test]
fn tampered_body_or_signature_is_discarded() {
    let transcript = sample_transcript();
    let algs = vec![SignatureAlgId::Secp256k1];
    let request =
        build_attestation_request(&transcript, "localhost", &sample_commitments(), &algs)
            .expect("request should build");
    let attestation = build_attestation(&request, &transcript, &SIGNING_KEY, &algs)
        .expect("attestation should build");

    let mut renamed = attestation.clone();
    renamed.body.server_name = "elsewhere".to_string();
    assert_eq!(
        validate_attestation(&request, &renamed),
        Err(ValidateError::BodyMismatch)
    );

    let mut forged = attestation.clone();
    forged.signature.data[0] ^= 0x01;
    assert_eq!(
        validate_attestation(&request, &forged),
        Err(ValidateError::InvalidSignature)
    );

    let mut stretched = attestation.clone();
    stretched.body.connection_info.transcript_length.received += 1;
    assert_eq!(
        validate_attestation(&request, &stretched),
        Err(ValidateError::InvalidSignature)
    );
}

#[test]
fn validation_outcome_is_the_same_on_every_run() {
    let transcript = sample_transcript();
    let algs = vec![SignatureAlgId::Secp256k1];
    let request =
        build_attestation_request(&transcript, "localhost", &sample_commitments(), &algs)
            .expect("request should build");
    let attestation = build_attestation(&request, &transcript, &SIGNING_KEY, &algs)
        .expect("attestation should build");

    let first = validate_attestation(&request, &attestation);
    let second = validate_attestation(&request, &attestation);
    let third = validate_attestation(&request, &attestation);
    assert_eq!(first, second);
    assert_eq!(second, third);
    assert!(first.is_ok());

    let mut tampered = attestation.clone();
    tampered.signature.data[5] ^= 0xff;
    let first = validate_attestation(&request, &tampered);
    let second = validate_attestation(&request, &tampered);
    assert_eq!(first, second);
    assert_eq!(first, Err(ValidateError::InvalidSignature));
}

#[test]
fn unsupported_algorithm_and_invalid_key_are_build_errors() {
    let transcript = sample_transcript();
    let only_r1 = vec![SignatureAlgId::Secp256r1];
    let k1 = vec![SignatureAlgId::Secp256k1];
    let request = build_attestation_request(&transcript, "localhost", &sample_commitments(), &k1)
        .expect("request should build");

    let mut r1_request = request.clone();
    r1_request.signature_algs = only_r1;
    assert_eq!(
        build_attestation(&r1_request, &transcript, &SIGNING_KEY, &k1).unwrap_err(),
        BuildError::UnsupportedAlgorithm
    );

    let zero_key = [0_u8; 32];
    assert_eq!(
        build_attestation(&request, &transcript, &zero_key, &k1).unwrap_err(),
        BuildError::InvalidKey
    );
}

#[test]
fn request_building_requires_the_handshake_evidence() {
    let mut no_chain = sample_transcript();
    no_chain.server_cert_chain = None;
    let algs = vec![SignatureAlgId::Secp256k1];
    assert_eq!(
        build_attestation_request(&no_chain, "localhost", &sample_commitments(), &algs)
            .unwrap_err(),
        RequestError::MissingCertChain
    );

    let mut no_sig = sample_transcript();
    no_sig.server_signature = None;
    assert_eq!(
        build_attestation_request(&no_sig, "localhost", &sample_commitments(), &algs)
            .unwrap_err(),
        RequestError::MissingServerSignature
    );

    let none: Vec<SignatureAlgId> = Vec::new();
    assert_eq!(
        build_attestation_request(&sample_transcript(), "localhost", &sample_commitments(), &none)
            .unwrap_err(),
        RequestError::NoSupportedAlgorithm
    );
}

#[test]
fn attestation_output_carries_every_component_hex_encoded() {
    let transcript = sample_transcript();
    let algs = vec![SignatureAlgId::Secp256k1];
    let request =
        build_attestation_request(&transcript, "localhost", &sample_commitments(), &algs)
            .expect("request should build");
    let attestation = build_attestation(&request, &transcript, &SIGNING_KEY, &algs)
        .expect("attestation should build");

    let output = build_attestation_output(&attestation, "hello world".to_string(), 1_700_000_123)
        .expect("output should build");

    let header = encode_attestation_body(&attestation.body);
    assert_eq!(output.session_header_bytes_hex, hex::encode(&header));
    assert_eq!(output.signature.raw_hex, hex::encode(&attestation.signature.data));
    assert_eq!(output.signature.r_hex, hex::encode(&attestation.signature.data[0..32]));
    assert_eq!(output.signature.s_hex, hex::encode(&attestation.signature.data[32..64]));
    let key = &attestation.body.verifying_key.data;
    assert_eq!(output.notary_public_key.sec1_hex, hex::encode(key));
    assert_eq!(output.notary_public_key.x_hex, hex::encode(&key[1..33]));
    assert_eq!(output.notary_public_key.y_hex, hex::encode(&key[33..65]));
    assert_eq!(output.response_body, "hello world");
    assert_eq!(output.server_name, "localhost");
    assert_eq!(output.timestamp, 1_700_000_123);
    assert_eq!(output.signature_alg, "secp256k1");
}

#[test]
fn attestation_output_rejects_malformed_components() {
    let transcript = sample_transcript();
    let algs = vec![SignatureAlgId::Secp256k1];
    let request =
        build_attestation_request(&transcript, "localhost", &sample_commitments(), &algs)
            .expect("request should build");
    let attestation = build_attestation(&request, &transcript, &SIGNING_KEY, &algs)
        .expect("attestation should build");

    let mut wrong_alg = attestation.clone();
    wrong_alg.signature.alg = SignatureAlgId::Secp256r1;
    assert_eq!(
        build_attestation_output(&wrong_alg, String::new(), 0).unwrap_err(),
        OutputError::UnexpectedSignatureAlg
    );

    let mut wrong_key_alg = attestation.clone();
    wrong_key_alg.body.verifying_key.alg = KeyAlgId::P256;
    assert_eq!(
        build_attestation_output(&wrong_key_alg, String::new(), 0).unwrap_err(),
        OutputError::UnexpectedKeyAlg
    );

    let mut short_sig = attestation.clone();
    short_sig.signature.data.truncate(63);
    assert_eq!(
        build_attestation_output(&short_sig, String::new(), 0).unwrap_err(),
        OutputError::BadSignatureLength { got: 63 }
    );

    let mut bad_key = attestation.clone();
    bad_key.body.verifying_key.data.truncate(33);
    assert_eq!(
        build_attestation_output(&bad_key, String::new(), 0).unwrap_err(),
        OutputError::BadKeyEncoding
    );
}

#[test]
fn response_body_prefers_the_committed_transcript() {
    assert_eq!(
        choose_response_body(Some("from transcript".to_string()), "fallback".to_string()),
        "from transcript"
    );
    assert_eq!(
        choose_response_body(None, "fallback".to_string()),
        "fallback"
    );
}

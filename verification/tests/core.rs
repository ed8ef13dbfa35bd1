#![allow(non_snake_case)]

use tlsnotary::certs::{load_root_cert_store, CertStoreError};
use tlsnotary::http::{parse_http_200_response, HttpError};
use tlsnotary::session::{advance_phase, PhaseError, SessionOp, SessionPhase};
use tlsnotary::{parse_hex32, required_env, split_signature_64, Hex32Error};

#[test]
fn Given_valid_32_byte_hex_When_parsed_Then_array_is_returned() {
    let payload = "11".repeat(32);
    let parsed = parse_hex32(&payload).expect("parse should succeed");
    assert_eq!(parsed.len(), 32);
    assert_eq!(parsed[0], 0x11);
}

#[test]
fn Given_invalid_hex_size_When_parsed_Then_error_is_returned() {
    let payload = "aa".repeat(10);
    assert!(parse_hex32(&payload).is_err());
}

#[test]
fn Given_compact_signature_When_split_Then_r_and_s_are_extracted() {
    let payload = vec![1_u8; 64];
    let (r, s) = split_signature_64(&payload).expect("split should succeed");
    assert_eq!(r.len(), 32);
    assert_eq!(s.len(), 32);
    assert_eq!(r[0], 1);
    assert_eq!(s[0], 1);
}

#[test]
fn Given_missing_TLSNOTARY_SIGNING_KEY_HEX_When_loading_required_env_Then_error_uses_fail_fast_contract(
) {
    let error = required_env("TLSNOTARY_SIGNING_KEY_HEX", None).expect_err(
        "missing env var should fail",
    );
    assert_eq!(error.missing, "TLSNOTARY_SIGNING_KEY_HEX");
    assert_eq!(
        error.message(),
        "missing required env var: TLSNOTARY_SIGNING_KEY_HEX"
    );
}

#[test]
fn required_env_passes_a_present_value_through() {
    let value = required_env("TLSN_NOTARY_HOST", Some("127.0.0.1".to_string()));
    assert_eq!(value.unwrap(), "127.0.0.1");
}

#[test]
fn parse_hex32_accepts_0x_prefix_and_whitespace_and_round_trips() {
    let hex_string = "ab".repeat(32);
    let parsed = parse_hex32(&format!("  0x{}\n", hex_string)).expect("prefixed parse");
    assert_eq!(hex::encode(parsed), hex_string);

    let bare = parse_hex32(&hex_string).expect("bare parse");
    assert_eq!(bare, parsed);
}

#[test]
fn parse_hex32_strips_every_leading_0x_and_accepts_upper_case() {
    let hex_string = "ab".repeat(32);
    let doubled = parse_hex32(&format!("0x0x{}", hex_string)).expect("doubled prefix");
    assert_eq!(hex::encode(doubled), hex_string);

    let upper = parse_hex32(&"AB".repeat(32)).expect("upper-case digits");
    assert_eq!(upper, doubled);
}

#[test]
fn parse_hex32_rejects_non_hex_and_odd_length() {
    assert!(matches!(
        parse_hex32(&"zz".repeat(32)),
        Err(Hex32Error::Hex(_))
    ));
    let odd = "1".repeat(63);
    assert!(matches!(parse_hex32(&odd), Err(Hex32Error::Hex(_))));
}

#[test]
fn parse_hex32_reports_decoded_length_on_mismatch() {
    let error = parse_hex32(&"aa".repeat(31)).expect_err("31 bytes should fail");
    assert_eq!(error, Hex32Error::WrongLength { got: 31 });
}

#[test]
fn split_signature_rejects_other_lengths() {
    let error = split_signature_64(&[0_u8; 63]).expect_err("63 bytes should fail");
    assert_eq!(format!("{:?}", error), "WrongLength { got: 63 }");
    assert!(split_signature_64(&[0_u8; 65]).is_err());
}

#[test]
fn split_signature_halves_reconstruct_the_original() {
    let payload: Vec<u8> = (0..64).collect();
    let (r, s) = split_signature_64(&payload).expect("split should succeed");
    let mut rebuilt = r.to_vec();
    rebuilt.extend_from_slice(&s);
    assert_eq!(rebuilt, payload);
}

#[test]
fn http_200_response_yields_the_body() {
    let raw = b"HTTP/1.1 200 OK\r\nContent-Type: text/plain\r\n\r\nhello world";
    let body = parse_http_200_response(raw).expect("200 response should parse");
    assert_eq!(body, "hello world");
}

#[test]
fn http_10_200_response_is_accepted_and_first_separator_wins() {
    let raw = b"HTTP/1.0 200 OK\r\n\r\nfirst\r\n\r\nsecond";
    let body = parse_http_200_response(raw).expect("200 response should parse");
    assert_eq!(body, "first\r\n\r\nsecond");
}

#[test]
fn http_response_without_blank_line_is_missing_its_body() {
    let raw = b"HTTP/1.1 200 OK\r\nContent-Type: text/plain\r\n";
    let error = parse_http_200_response(raw).expect_err("no body");
    assert_eq!(error, HttpError::MissingBody);
}

#[test]
fn http_error_status_is_rejected_with_its_head() {
    let raw = b"HTTP/1.1 404 Not Found\r\n\r\ngone";
    let error = parse_http_200_response(raw).expect_err("404 should fail");
    match error {
        HttpError::BadStatus { head } => assert_eq!(head, b"HTTP/1.1 404 Not Found".to_vec()),
        other => panic!("unexpected error {:?}", other),
    }
}

#[test]
fn http_non_utf8_response_is_rejected() {
    let raw = [0xff_u8, 0xfe, 0x48, 0x0d, 0x0a, 0x0d, 0x0a, 0x41];
    let error = parse_http_200_response(&raw).expect_err("invalid UTF-8 should fail");
    assert_eq!(error, HttpError::NotUtf8);
}

#[test]
fn root_cert_store_takes_the_first_certificate() {
    let pem = b"-----BEGIN CERTIFICATE-----\nAAEC\n-----END CERTIFICATE-----\n\
-----BEGIN CERTIFICATE-----\nAwQF\n-----END CERTIFICATE-----\n";
    let store = load_root_cert_store(pem).expect("two valid certificates");
    assert_eq!(store.roots.len(), 1);
    assert_eq!(store.roots[0], vec![0_u8, 1, 2]);
}

#[test]
fn root_cert_store_rejects_empty_and_malformed_pem() {
    let error = load_root_cert_store(b"no certificates here\n").expect_err("no certs");
    assert_eq!(error, CertStoreError::Empty);

    let malformed = b"-----BEGIN CERTIFICATE-----\n!!!\n-----END CERTIFICATE-----\n";
    let error = load_root_cert_store(malformed).expect_err("bad base64");
    assert_eq!(error, CertStoreError::Malformed);
}

#[test]
fn session_phases_advance_only_in_protocol_order() {
    let phase = SessionPhase::Created;
    let phase = advance_phase(phase, SessionOp::Commit).expect("commit first");
    let phase = advance_phase(phase, SessionOp::Accept).expect("then accept");
    let phase = advance_phase(phase, SessionOp::Run).expect("then run");
    let phase = advance_phase(phase, SessionOp::Finalize).expect("then finalize");
    let phase = advance_phase(phase, SessionOp::Close).expect("then close");
    assert_eq!(phase, SessionPhase::Closed);
}

#[test]
fn session_refuses_skipped_and_late_operations() {
    assert_eq!(
        advance_phase(SessionPhase::Created, SessionOp::Run),
        Err(PhaseError::OutOfOrder)
    );
    assert_eq!(
        advance_phase(SessionPhase::Accepted, SessionOp::Commit),
        Err(PhaseError::OutOfOrder)
    );
    assert_eq!(
        advance_phase(SessionPhase::Closed, SessionOp::Commit),
        Err(PhaseError::Closed)
    );
}

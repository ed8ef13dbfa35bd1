//! Hex encoding and decoding of byte strings, with exact specifications.
//!
//! The executable encoder and decoder are the `hex` crate's, called through
//! trusted wrappers whose contracts state the full input/output relation
//! over the spec functions below.

use vstd::prelude::*;

verus! {

/// The lower-case hex digit (as an ASCII byte) for a value below 16.
pub open spec fn hex_digit_byte(v: u8) -> u8 {
    if v < 10 {
        (v + 48) as u8
    } else {
        (v + 87) as u8
    }
}

/// An ASCII byte that is a hex digit, in either case.
pub open spec fn is_hex_digit(b: u8) -> bool {
    (48 <= b <= 57) || (97 <= b <= 102) || (65 <= b <= 70)
}

/// An ASCII byte that is a lower-case (or decimal) hex digit.
pub open spec fn is_lower_hex_digit(b: u8) -> bool {
    (48 <= b <= 57) || (97 <= b <= 102)
}

/// The value of a hex digit byte; 0 on a byte that is no hex digit.
pub open spec fn hex_digit_value(b: u8) -> u8 {
    if 48 <= b <= 57 {
        (b - 48) as u8
    } else if 97 <= b <= 102 {
        (b - 87) as u8
    } else if 65 <= b <= 70 {
        (b - 55) as u8
    } else {
        0
    }
}

/// A well-formed hex string as bytes: even length, every byte a digit.
pub open spec fn is_hex_bytes(s: Seq<u8>) -> bool {
    &&& s.len() % 2 == 0
    &&& forall|i: int| 0 <= i < s.len() ==> is_hex_digit(s[i])
}

/// The bytes spelled by a hex string (two digits per byte).
pub open spec fn spec_hex_decode(s: Seq<u8>) -> Seq<u8> {
    Seq::new((s.len() / 2) as nat, |i: int| (hex_digit_value(s[2 * i]) * 16 + hex_digit_value(s[2 * i + 1])) as u8)
}

/// The lower-case hex spelling of a byte string, as ASCII bytes.
pub open spec fn spec_hex_encode_bytes(s: Seq<u8>) -> Seq<u8> {
    Seq::new((2 * s.len()) as nat, |i: int| if i % 2 == 0 { hex_digit_byte(s[i / 2] / 16) } else { hex_digit_byte(s[i / 2] % 16) })
}

/// A byte sequence read as a sequence of (ASCII) characters.
pub open spec fn ascii_chars(s: Seq<u8>) -> Seq<char> {
    Seq::new(s.len(), |i: int| s[i] as char)
}

/// The lower-case hex spelling of a byte string, as characters.
pub open spec fn spec_hex_encode(s: Seq<u8>) -> Seq<char> {
    ascii_chars(spec_hex_encode_bytes(s))
}

/// Failure cases of hex decoding, mirroring the `hex` crate's error type.
#[derive(Debug, Clone, Copy, PartialEq, Eq, Structural)]
pub enum HexDecodeError {
    InvalidHexCharacter { c: char, index: usize },
    OddLength,
    InvalidStringLength,
}

/// Relies on hex::decode: an even-length string of hex digits decodes to
/// the bytes it spells; an odd-length string fails with `OddLength`, and
/// any other failure names an offending character.
#[verifier::external_body]
pub(crate) fn hex_decode(input: &[u8]) -> (result: Result<Vec<u8>, HexDecodeError>)
    ensures
        result is Ok <==> is_hex_bytes(input@),
        result matches Ok(bytes) ==> bytes@ == spec_hex_decode(input@),
        result matches Err(e) ==> (e is OddLength <==> input@.len() % 2 != 0),
{
    match hex::decode(input) {
        Ok(bytes) => Ok(bytes),
        Err(hex::FromHexError::InvalidHexCharacter { c, index }) => {
            Err(HexDecodeError::InvalidHexCharacter { c, index })
        },
        Err(hex::FromHexError::OddLength) => Err(HexDecodeError::OddLength),
        Err(hex::FromHexError::InvalidStringLength) => Err(HexDecodeError::InvalidStringLength),
    }
}

/// Relies on hex::encode: each input byte becomes two lower-case hex digits.
#[verifier::external_body]
pub(crate) fn hex_encode(input: &[u8]) -> (result: String)
    ensures
        result@ == spec_hex_encode(input@),
{
    hex::encode(input)
}

/// Encoding and decoding a single digit value are inverse.
pub proof fn lemma_digit_value_inverse(v: u8)
    requires
        v < 16,
    ensures
        is_hex_digit(hex_digit_byte(v)),
        is_lower_hex_digit(hex_digit_byte(v)),
        hex_digit_value(hex_digit_byte(v)) == v,
{
}

/// A lower-case hex digit byte re-encodes to itself.
pub proof fn lemma_value_digit_inverse(b: u8)
    requires
        is_lower_hex_digit(b),
    ensures
        hex_digit_value(b) < 16,
        hex_digit_byte(hex_digit_value(b)) == b,
{
}

/// Encoding any byte string yields a well-formed hex string, and decoding
/// it gives the original bytes back.
pub proof fn lemma_hex_decode_encode(bytes: Seq<u8>)
    ensures
        is_hex_bytes(spec_hex_encode_bytes(bytes)),
        spec_hex_decode(spec_hex_encode_bytes(bytes)) == bytes,
{
    let enc = spec_hex_encode_bytes(bytes);
    assert forall|i: int| 0 <= i < enc.len() implies is_hex_digit(enc[i]) by {
        if i % 2 == 0 {
            lemma_digit_value_inverse(bytes[i / 2] / 16);
        } else {
            lemma_digit_value_inverse(bytes[i / 2] % 16);
        }
    }
    assert forall|i: int| 0 <= i < bytes.len() implies spec_hex_decode(enc)[i] == bytes[i] by {
        lemma_digit_value_inverse(bytes[i] / 16);
        lemma_digit_value_inverse(bytes[i] % 16);
        assert(enc[2 * i] == hex_digit_byte(bytes[i] / 16));
        assert(enc[2 * i + 1] == hex_digit_byte(bytes[i] % 16));
        assert(hex_digit_value(enc[2 * i]) * 16 + hex_digit_value(enc[2 * i + 1]) == bytes[i]);
    }
    assert(spec_hex_decode(enc) =~= bytes);
}

/// Decoding a lower-case hex string and re-encoding gives the string back.
pub proof fn lemma_hex_encode_decode(s: Seq<u8>)
    requires
        s.len() % 2 == 0,
        forall|i: int| 0 <= i < s.len() ==> is_lower_hex_digit(s[i]),
    ensures
        spec_hex_encode_bytes(spec_hex_decode(s)) == s,
{
    let dec = spec_hex_decode(s);
    let enc = spec_hex_encode_bytes(dec);
    assert forall|i: int| 0 <= i < enc.len() implies enc[i] == s[i] by {
        let j = i / 2;
        lemma_value_digit_inverse(s[2 * j]);
        lemma_value_digit_inverse(s[2 * j + 1]);
        assert(dec[j] == (hex_digit_value(s[2 * j]) * 16 + hex_digit_value(s[2 * j + 1])) as u8);
        if i % 2 == 0 {
            assert(dec[j] / 16 == hex_digit_value(s[2 * j]));
        } else {
            assert(dec[j] % 16 == hex_digit_value(s[2 * j + 1]));
        }
    }
    assert(enc =~= s);
}

} // verus!

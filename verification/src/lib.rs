pub mod attestation;
pub mod certs;
pub mod hexcodec;
pub mod http;
pub mod output;
pub mod session;
pub mod signing;
pub mod transcript;

use vstd::prelude::*;
use vstd::string::*;

use crate::hexcodec::{hex_decode, is_hex_bytes, spec_hex_decode, HexDecodeError};

verus! {

/// An ASCII byte that `str::trim` would remove.
pub open spec fn is_ascii_ws(b: u8) -> bool {
    b == 32 || (9 <= b <= 13)
}

/// The input with leading ASCII whitespace removed.
pub open spec fn spec_trim_start(s: Seq<u8>) -> Seq<u8>
    decreases s.len(),
{
    if s.len() > 0 && is_ascii_ws(s[0]) {
        spec_trim_start(s.drop_first())
    } else {
        s
    }
}

/// The input with trailing ASCII whitespace removed.
pub open spec fn spec_trim_end(s: Seq<u8>) -> Seq<u8>
    decreases s.len(),
{
    if s.len() > 0 && is_ascii_ws(s.last()) {
        spec_trim_end(s.drop_last())
    } else {
        s
    }
}

/// The input with every leading `0x` marker removed.
pub open spec fn spec_strip_0x(s: Seq<u8>) -> Seq<u8>
    decreases s.len(),
{
    if s.len() >= 2 && s[0] == 48 && s[1] == 120 {
        spec_strip_0x(s.skip(2))
    } else {
        s
    }
}

/// The normal form a hex key string is parsed from: surrounding whitespace
/// trimmed, then any `0x` prefixes dropped.
pub open spec fn spec_hex32_normalize(s: Seq<u8>) -> Seq<u8> {
    spec_strip_0x(spec_trim_end(spec_trim_start(s)))
}

/// Why a 32-byte hex key failed to parse: the digits were not valid hex,
/// or they spelled a payload of the wrong length.
#[derive(Debug, Clone, Copy, PartialEq, Eq, Structural)]
pub enum Hex32Error {
    Hex(HexDecodeError),
    WrongLength { got: usize },
}

fn is_ws_byte(b: u8) -> (r: bool)
    ensures
        r == is_ascii_ws(b),
{
    b == 32 || (9 <= b && b <= 13)
}

/// Parse a hex-encoded 32-byte value, accepting surrounding whitespace and
/// an optional `0x` prefix. Exactly the inputs whose normal form is a
/// 64-digit hex string are accepted; any other decoded length is rejected
/// with a length-mismatch error naming the decoded byte count.
pub fn parse_hex32(input: &str) -> (result: Result<[u8; 32], Hex32Error>)
    ensures
        result is Ok <==> (is_hex_bytes(spec_hex32_normalize(input.spec_bytes()))
            && spec_hex32_normalize(input.spec_bytes()).len() == 64),
        result matches Ok(key) ==> key@ == spec_hex_decode(spec_hex32_normalize(input.spec_bytes())),
        result matches Err(e) ==> match e {
            Hex32Error::Hex(_) => !is_hex_bytes(spec_hex32_normalize(input.spec_bytes())),
            Hex32Error::WrongLength { got } => is_hex_bytes(spec_hex32_normalize(input.spec_bytes()))
                && spec_hex32_normalize(input.spec_bytes()).len() != 64
                && got == spec_hex32_normalize(input.spec_bytes()).len() / 2,
        },
{
    let b = input.as_bytes();
    let len = b.len();
    let mut lo: usize = 0;
    proof {
        assert(b@.skip(0) =~= b@);
    }
    while lo < len && is_ws_byte(b[lo])
        invariant
            lo <= len,
            len == b@.len(),
            spec_trim_start(b@) == spec_trim_start(b@.skip(lo as int)),
        decreases len - lo,
    {
        proof {
            assert(b@.skip(lo as int).drop_first() =~= b@.skip(lo as int + 1));
        }
        lo = lo + 1;
    }
    proof {
        assert(spec_trim_start(b@) == b@.skip(lo as int));
    }

    let mut hi: usize = len;
    proof {
        assert(b@.subrange(lo as int, hi as int) =~= b@.skip(lo as int));
    }
    while hi > lo && is_ws_byte(b[hi - 1])
        invariant
            lo <= hi <= len,
            len == b@.len(),
            spec_trim_start(b@) == b@.skip(lo as int),
            spec_trim_end(b@.skip(lo as int)) == spec_trim_end(b@.subrange(lo as int, hi as int)),
        decreases hi,
    {
        proof {
            assert(b@.subrange(lo as int, hi as int).drop_last() =~= b@.subrange(
                lo as int,
                hi as int - 1,
            ));
        }
        hi = hi - 1;
    }
    proof {
        assert(spec_trim_end(spec_trim_start(b@)) == b@.subrange(lo as int, hi as int));
    }

    while hi - lo >= 2 && b[lo] == 48 && b[lo + 1] == 120
        invariant
            lo <= hi <= len,
            len == b@.len(),
            spec_hex32_normalize(b@) == spec_strip_0x(b@.subrange(lo as int, hi as int)),
        decreases hi - lo,
    {
        proof {
            assert(b@.subrange(lo as int, hi as int).skip(2) =~= b@.subrange(
                lo as int + 2,
                hi as int,
            ));
        }
        lo = lo + 2;
    }
    proof {
        assert(spec_hex32_normalize(b@) == b@.subrange(lo as int, hi as int));
    }

    let digits = &b[lo..hi];
    let decoded = match hex_decode(digits) {
        Ok(decoded) => decoded,
        Err(e) => {
            return Err(Hex32Error::Hex(e));
        },
    };
    if decoded.len() != 32 {
        return Err(Hex32Error::WrongLength { got: decoded.len() });
    }

    let mut key = [0u8; 32];
    let mut i: usize = 0;
    while i < 32
        invariant
            i <= 32,
            decoded@.len() == 32,
            forall|j: int| 0 <= j < i ==> key@[j] == decoded@[j],
        decreases 32 - i,
    {
        key[i] = decoded[i];
        i = i + 1;
    }
    proof {
        assert(key@ =~= decoded@);
    }
    Ok(key)
}

/// Error returned when a compact signature does not have the expected
/// 64-byte length.
#[derive(Debug, Clone, PartialEq, Eq, Structural)]
pub enum SignatureError {
    WrongLength { got: usize },
}

/// Error for a required configuration variable that is not set. It names
/// the variable that was missing.
#[derive(Debug, Clone)]
pub struct ConfigError {
    pub missing: String,
}

impl ConfigError {
    /// The human-readable description, naming exactly the missing variable.
    pub fn message(&self) -> (r: String)
        ensures
            r@ == "missing required env var: "@ + self.missing@,
    {
        let mut r = String::from_str("missing required env var: ");
        r.append(self.missing.as_str());
        r
    }
}

/// Take the value of a required configuration variable, as the process
/// environment yielded it. An absent variable is a hard error naming
/// exactly that variable.
pub fn required_env(name: &str, value: Option<String>) -> (result: Result<String, ConfigError>)
    ensures
        value matches Some(v) ==> result == Ok::<String, ConfigError>(v),
        value is None ==> (result matches Err(e) && e.missing@ == name@),
{
    match value {
        Some(v) => Ok(v),
        None => Err(ConfigError { missing: String::from_str(name) }),
    }
}

/// Split a compact 64-byte ECDSA signature into its 32-byte `r` and `s`
/// halves. Any other input length is rejected with a length-mismatch error.
pub fn split_signature_64(signature: &[u8]) -> (result: Result<([u8; 32], [u8; 32]), SignatureError>)
    ensures
        result is Ok <==> signature@.len() == 64,
        result matches Ok((r, s)) ==> {
            &&& r@ == signature@.subrange(0, 32)
            &&& s@ == signature@.subrange(32, 64)
        },
        result matches Err(e) ==> e == (SignatureError::WrongLength { got: signature@.len() as usize }),
{
    if signature.len() != 64 {
        return Err(SignatureError::WrongLength { got: signature.len() });
    }

    let mut r = [0u8; 32];
    let mut s = [0u8; 32];
    let mut i: usize = 0;
    while i < 32
        invariant
            signature@.len() == 64,
            i <= 32,
            forall|j: int| 0 <= j < i ==> r@[j] == signature@[j],
            forall|j: int| 0 <= j < i ==> s@[j] == signature@[32 + j],
        decreases 32 - i,
    {
        r[i] = signature[i];
        s[i] = signature[32 + i];
        i = i + 1;
    }

    proof {
        assert(r@ =~= signature@.subrange(0, 32));
        assert(s@ =~= signature@.subrange(32, 64));
    }
    Ok((r, s))
}

/// Splitting a 64-byte signature loses nothing: the two halves put back
/// together are the original signature.
pub proof fn lemma_split_halves_reconstruct(signature: Seq<u8>)
    requires
        signature.len() == 64,
    ensures
        signature.subrange(0, 32) + signature.subrange(32, 64) == signature,
{
    assert(signature.subrange(0, 32) + signature.subrange(32, 64) =~= signature);
}

} // verus!

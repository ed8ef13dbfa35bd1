//! Parsing of the raw HTTP response fetched over the notarized TLS
//! connection: the body of a `200` response is extracted, anything else is
//! rejected.

use vstd::prelude::*;
use vstd::string::*;
use vstd::utf8::{decode_utf8, encode_utf8, valid_utf8};

verus! {

/// Why a raw HTTP response was rejected.
#[derive(Debug, Clone, PartialEq, Eq)]
pub enum HttpError {
    /// The response bytes are not valid UTF-8.
    NotUtf8,
    /// No blank line separates head from body.
    MissingBody,
    /// The status line (carried here) is not a `200` of HTTP/1.0 or 1.1.
    BadStatus { head: Vec<u8> },
}

/// A CRLF-CRLF head/body separator sits at index `i`.
pub open spec fn is_crlf2_at(s: Seq<u8>, i: int) -> bool {
    &&& 0 <= i
    &&& i + 4 <= s.len()
    &&& s[i] == 13 && s[i + 1] == 10 && s[i + 2] == 13 && s[i + 3] == 10
}

/// Index of the first head/body separator at or after `i`, if any.
pub open spec fn spec_find_crlf2(s: Seq<u8>, i: int) -> Option<int>
    decreases s.len() - i,
{
    if i < 0 || i + 4 > s.len() {
        None
    } else if is_crlf2_at(s, i) {
        Some(i)
    } else {
        spec_find_crlf2(s, i + 1)
    }
}

/// `p` is a prefix of `s`.
pub open spec fn has_prefix(s: Seq<u8>, p: Seq<u8>) -> bool {
    p.len() <= s.len() && s.subrange(0, p.len() as int) == p
}

/// The head starts with a success status line of HTTP/1.1 or HTTP/1.0.
pub open spec fn spec_status_ok(head: Seq<u8>) -> bool {
    has_prefix(head, encode_utf8("HTTP/1.1 200"@)) || has_prefix(head, encode_utf8("HTTP/1.0 200"@))
}

/// Relies on String::from_utf8: conversion succeeds exactly on valid
/// UTF-8 input and yields the decoded characters.
#[verifier::external_body]
fn utf8_to_string(bytes: &[u8]) -> (result: Option<String>)
    ensures
        result is Some <==> valid_utf8(bytes@),
        result matches Some(s) ==> s@ == decode_utf8(bytes@),
{
    match String::from_utf8(bytes.to_vec()) {
        Ok(s) => Some(s),
        Err(_) => None,
    }
}

fn is_crlf2_here(s: &[u8], i: usize) -> (r: bool)
    requires
        i + 4 <= s@.len(),
    ensures
        r == is_crlf2_at(s@, i as int),
{
    s[i] == 13 && s[i + 1] == 10 && s[i + 2] == 13 && s[i + 3] == 10
}

proof fn lemma_find_crlf2_from(s: Seq<u8>, k: int)
    requires
        0 <= k,
        forall|j: int| 0 <= j < k ==> !is_crlf2_at(s, j),
    ensures
        spec_find_crlf2(s, 0) == spec_find_crlf2(s, k),
    decreases k,
{
    if k > 0 {
        lemma_find_crlf2_from(s, k - 1);
    }
}

fn slice_has_prefix(s: &[u8], p: &[u8]) -> (r: bool)
    ensures
        r == has_prefix(s@, p@),
{
    if p.len() > s.len() {
        return false;
    }
    let mut i: usize = 0;
    while i < p.len()
        invariant
            i <= p@.len() <= s@.len(),
            forall|j: int| 0 <= j < i ==> s@[j] == p@[j],
        decreases p@.len() - i,
    {
        if s[i] != p[i] {
            proof {
                assert(s@.subrange(0, p@.len() as int)[i as int] != p@[i as int]);
            }
            return false;
        }
        i = i + 1;
    }
    proof {
        assert(s@.subrange(0, p@.len() as int) =~= p@);
    }
    true
}

/// Extract the body of a successful HTTP/1.x response. The input must be
/// valid UTF-8, hold a blank line between head and body, and open with a
/// `200` status line; each failure is reported distinctly, the status
/// failure carrying the offending head.
pub fn parse_http_200_response(raw_response: &[u8]) -> (result: Result<String, HttpError>)
    ensures
        ({
            let s = raw_response@;
            let sep = spec_find_crlf2(s, 0);
            &&& (result is Ok <==> valid_utf8(s) && sep is Some && spec_status_ok(
                s.subrange(0, sep.unwrap()),
            ) && valid_utf8(s.subrange(sep.unwrap() + 4, s.len() as int)))
            &&& (result matches Ok(body) ==> body@ == decode_utf8(
                s.subrange(sep.unwrap() + 4, s.len() as int),
            ))
            &&& (result matches Err(e) ==> match e {
                HttpError::NotUtf8 => !valid_utf8(s) || (sep is Some && spec_status_ok(
                    s.subrange(0, sep.unwrap()),
                ) && !valid_utf8(s.subrange(sep.unwrap() + 4, s.len() as int))),
                HttpError::MissingBody => valid_utf8(s) && sep is None,
                HttpError::BadStatus { head } => valid_utf8(s) && sep is Some && !spec_status_ok(
                    s.subrange(0, sep.unwrap()),
                ) && head@ == s.subrange(0, sep.unwrap()),
            })
        }),
{
    if utf8_to_string(raw_response).is_none() {
        return Err(HttpError::NotUtf8);
    }

    let len = raw_response.len();
    let mut i: usize = 0;
    while len >= 4 && i <= len - 4 && !is_crlf2_here(raw_response, i)
        invariant
            len == raw_response@.len(),
            i <= len,
            forall|j: int| 0 <= j < i ==> !is_crlf2_at(raw_response@, j),
        decreases len - i,
    {
        i = i + 1;
    }
    proof {
        lemma_find_crlf2_from(raw_response@, i as int);
    }
    if len < 4 || i > len - 4 {
        return Err(HttpError::MissingBody);
    }

    let head = &raw_response[0..i];
    let status_ok = slice_has_prefix(head, "HTTP/1.1 200".as_bytes()) || slice_has_prefix(
        head,
        "HTTP/1.0 200".as_bytes(),
    );
    if !status_ok {
        let mut head_copy: Vec<u8> = Vec::new();
        let mut j: usize = 0;
        while j < i
            invariant
                i <= len,
                len == raw_response@.len(),
                j <= i,
                head_copy@ == raw_response@.subrange(0, j as int),
            decreases i - j,
        {
            head_copy.push(raw_response[j]);
            proof {
                assert(raw_response@.subrange(0, j as int).push(raw_response@[j as int]) =~= raw_response@.subrange(0, j + 1));
            }
            j = j + 1;
        }
        return Err(HttpError::BadStatus { head: head_copy });
    }

    let body_bytes = &raw_response[i + 4..len];
    match utf8_to_string(body_bytes) {
        Some(body) => Ok(body),
        None => Err(HttpError::NotUtf8),
    }
}

} // verus!

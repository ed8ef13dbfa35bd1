//! The model of a committed TLS transcript as both parties observe it after
//! the commit phase, and the transcript-length accounting that feeds the
//! attestation body.
//!
//! The length recorded in an attestation must be computed from the records
//! the party observed itself, never taken from the peer; the functions here
//! are that computation.

use vstd::prelude::*;

verus! {

/// The content type tag of a TLS record.
#[derive(Debug, Clone, Copy, PartialEq, Eq, Structural)]
pub enum ContentType {
    ChangeCipherSpec,
    Alert,
    Handshake,
    ApplicationData,
}

/// The negotiated TLS protocol version.
#[derive(Debug, Clone, Copy, PartialEq, Eq, Structural)]
pub enum TlsVersion {
    V1_2,
    V1_3,
}

/// One TLS record as observed during the commit phase.
#[derive(Debug, Clone)]
pub struct TlsRecord {
    pub typ: ContentType,
    pub ciphertext: Vec<u8>,
}

/// Byte totals of the application-data transcript, as recorded in an
/// attestation body.
#[derive(Debug, Clone, Copy, PartialEq, Eq, Structural)]
pub struct TranscriptLength {
    pub sent: u32,
    pub received: u32,
}

/// Everything the commit phase leaves behind: the records of both
/// directions, connection metadata, and the handshake evidence.
#[derive(Debug, Clone)]
pub struct TlsTranscript {
    pub sent: Vec<TlsRecord>,
    pub recv: Vec<TlsRecord>,
    pub time: u64,
    pub version: TlsVersion,
    pub server_cert_chain: Option<Vec<Vec<u8>>>,
    pub server_signature: Option<Vec<u8>>,
    pub certificate_binding: Vec<u8>,
    pub server_ephemeral_key: Vec<u8>,
}

/// Sum of the ciphertext lengths of the application-data records.
pub open spec fn spec_app_data_len(records: Seq<TlsRecord>) -> int
    decreases records.len(),
{
    if records.len() == 0 {
        0
    } else {
        spec_app_data_len(records.drop_last()) + if records.last().typ is ApplicationData {
            records.last().ciphertext@.len() as int
        } else {
            0
        }
    }
}

/// The application-data total of a prefix never exceeds the whole, and
/// neither is negative.
pub proof fn lemma_app_data_len_prefix(records: Seq<TlsRecord>, n: int)
    requires
        0 <= n <= records.len(),
    ensures
        0 <= spec_app_data_len(records.take(n)) <= spec_app_data_len(records),
    decreases records.len(),
{
    if records.len() == 0 {
        assert(records.take(n) =~= records);
    } else if n == records.len() {
        assert(records.take(n) =~= records);
        lemma_app_data_len_prefix(records.drop_last(), records.len() - 1);
    } else {
        assert(records.drop_last().take(n) =~= records.take(n));
        lemma_app_data_len_prefix(records.drop_last(), n);
    }
}

/// Total application-data bytes among `records`, as a `u32`; `None` when
/// the sum does not fit.
pub fn app_data_len(records: &Vec<TlsRecord>) -> (result: Option<u32>)
    ensures
        result is Some <==> spec_app_data_len(records@) <= u32::MAX,
        result matches Some(n) ==> n == spec_app_data_len(records@),
{
    let mut acc: u32 = 0;
    let mut i: usize = 0;
    while i < records.len()
        invariant
            i <= records@.len(),
            acc == spec_app_data_len(records@.take(i as int)),
        decreases records@.len() - i,
    {
        proof {
            assert(records@.take(i + 1).drop_last() =~= records@.take(i as int));
            assert(records@.take(i + 1).last() == records@[i as int]);
        }
        let is_app = match records[i].typ {
            ContentType::ApplicationData => true,
            _ => false,
        };
        if is_app {
            let l = records[i].ciphertext.len();
            if (l as u64) > (u32::MAX as u64) - (acc as u64) {
                proof {
                    lemma_app_data_len_prefix(records@, i + 1);
                }
                return None;
            }
            acc = acc + (l as u32);
        }
        i = i + 1;
    }
    proof {
        assert(records@.take(records@.len() as int) =~= records@);
    }
    Some(acc)
}

/// The transcript length an attesting party records: both directions
/// summed strictly over its own observed application-data records.
/// `None` when a direction overflows the recordable range.
pub fn observed_transcript_length(transcript: &TlsTranscript) -> (result: Option<TranscriptLength>)
    ensures
        result is Some <==> spec_app_data_len(transcript.sent@) <= u32::MAX && spec_app_data_len(
            transcript.recv@,
        ) <= u32::MAX,
        result matches Some(tl) ==> tl.sent == spec_app_data_len(transcript.sent@) && tl.received
            == spec_app_data_len(transcript.recv@),
{
    let sent = app_data_len(&transcript.sent);
    let received = app_data_len(&transcript.recv);
    match (sent, received) {
        (Some(sent), Some(received)) => Some(TranscriptLength { sent, received }),
        _ => None,
    }
}

} // verus!

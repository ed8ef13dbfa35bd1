//! The trust anchor both roles load at startup: the first certificate of
//! a PEM file, read from bytes the caller provides.

use vstd::prelude::*;
use vstd::slice::slice_to_vec;

verus! {

/// The DER certificates of the certificate sections in a PEM byte string,
/// or nothing when a section is malformed, as `rustls_pemfile` reads them.
pub uninterp spec fn spec_pem_certs(bytes: Seq<u8>) -> Option<Seq<Seq<u8>>>;

/// Why no trust anchor could be loaded.
#[derive(Debug, Clone, Copy, PartialEq, Eq, Structural)]
pub enum CertStoreError {
    /// The PEM data could not be read.
    Malformed,
    /// The PEM data holds no certificate.
    Empty,
}

/// The certificate trust root: only the first certificate of the
/// configured file is used as the sole trust anchor.
#[derive(Debug, Clone)]
pub struct RootCertStore {
    pub roots: Vec<Vec<u8>>,
}

/// Relies on rustls_pemfile::certs: the DER contents of the certificate
/// sections of the input, a function of the bytes alone; a malformed
/// section fails the whole read.
#[verifier::external_body]
fn pem_certs(bytes: &[u8]) -> (result: Option<Vec<Vec<u8>>>)
    ensures
        result is Some <==> spec_pem_certs(bytes@) is Some,
        result matches Some(certs) ==> {
            &&& certs@.len() == spec_pem_certs(bytes@).unwrap().len()
            &&& forall|i: int|
                0 <= i < certs@.len() ==> certs@[i]@ == spec_pem_certs(bytes@).unwrap()[i]
        },
{
    let mut reader = bytes;
    match rustls_pemfile::certs(&mut reader) {
        Ok(certs) => Some(certs),
        Err(_) => None,
    }
}

/// Build the trust store from the bytes of a PEM file: the first
/// certificate becomes the sole trust anchor; a file with none, or one
/// that cannot be read, is a hard error.
pub fn load_root_cert_store(pem: &[u8]) -> (result: Result<RootCertStore, CertStoreError>)
    ensures
        result is Ok <==> spec_pem_certs(pem@) is Some && spec_pem_certs(pem@).unwrap().len() > 0,
        result matches Ok(store) ==> {
            &&& store.roots@.len() == 1
            &&& store.roots@[0]@ == spec_pem_certs(pem@).unwrap()[0]
        },
        result matches Err(e) ==> match e {
            CertStoreError::Malformed => spec_pem_certs(pem@) is None,
            CertStoreError::Empty => spec_pem_certs(pem@) is Some && spec_pem_certs(
                pem@,
            ).unwrap().len() == 0,
        },
{
    let certs = match pem_certs(pem) {
        Some(certs) => certs,
        None => {
            return Err(CertStoreError::Malformed);
        },
    };
    if certs.len() == 0 {
        return Err(CertStoreError::Empty);
    }
    let first = slice_to_vec(certs[0].as_slice());
    let mut roots: Vec<Vec<u8>> = Vec::new();
    roots.push(first);
    Ok(RootCertStore { roots })
}

} // verus!

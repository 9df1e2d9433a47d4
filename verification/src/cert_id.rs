//! The identifier under which a certificate is asked about and answered for.

use crate::error::OcspError;
use crate::hash::{hash, MessageDigest};
use crate::x509::X509Ref;
use vstd::prelude::*;
use vstd::slice::slice_to_vec;

verus! {

/// Names one certificate: the digest algorithm, the digests of its issuer's
/// name and key under that algorithm, and its serial number.
#[derive(Debug, PartialEq, Eq)]
pub struct OcspCertId {
    digest: MessageDigest,
    issuer_name_hash: Vec<u8>,
    issuer_key_hash: Vec<u8>,
    serial_number: Vec<u8>,
}

/// A certificate identifier as seen through a shared borrow.
pub type OcspCertIdRef = OcspCertId;

/// The mathematical value of an [`OcspCertId`]. Two identifiers name the same
/// certificate exactly when their values are equal.
pub struct OcspCertIdView {
    pub digest: MessageDigest,
    pub issuer_name_hash: Seq<u8>,
    pub issuer_key_hash: Seq<u8>,
    pub serial_number: Seq<u8>,
}

impl View for OcspCertId {
    type V = OcspCertIdView;

    closed spec fn view(&self) -> OcspCertIdView {
        OcspCertIdView {
            digest: self.digest,
            issuer_name_hash: self.issuer_name_hash@,
            issuer_key_hash: self.issuer_key_hash@,
            serial_number: self.serial_number@,
        }
    }
}

/// The identifier that `digest` gives to the certificate with serial number
/// `serial_number` whose issuer has the name `issuer_name` and the key
/// `issuer_key`.
pub open spec fn cert_id_of(
    digest: MessageDigest,
    issuer_name: Seq<u8>,
    issuer_key: Seq<u8>,
    serial_number: Seq<u8>,
) -> OcspCertIdView {
    OcspCertIdView {
        digest,
        issuer_name_hash: digest.digest_of(issuer_name),
        issuer_key_hash: digest.digest_of(issuer_key),
        serial_number,
    }
}

/// Whether two byte strings hold the same bytes.
pub fn bytes_eq(a: &[u8], b: &[u8]) -> (same: bool)
    ensures
        same == (a@ == b@),
{
    if a.len() != b.len() {
        return false;
    }
    let mut i: usize = 0;
    while i < a.len()
        invariant
            a@.len() == b@.len(),
            i <= a@.len(),
            forall|j: int| 0 <= j < i ==> a@[j] == b@[j],
        decreases a@.len() - i,
    {
        if a[i] != b[i] {
            return false;
        }
        i += 1;
    }
    assert(a@ =~= b@);
    true
}

impl OcspCertId {
    /// Constructs the identifier of the certificate `subject`, issued by
    /// `issuer`: the serial number of `subject` beside the digests of the
    /// subject name and of the public key of `issuer`. Nothing checks that
    /// `issuer` did issue `subject`.
    ///
    /// Fails with `CryptoError` exactly when `digest` has no provider.
    pub fn from_cert(digest: MessageDigest, subject: &X509Ref, issuer: &X509Ref) -> (id: Result<
        OcspCertId,
        OcspError,
    >)
        ensures
            id is Ok <==> digest.has_provider(),
            id is Ok ==> id.unwrap()@ == cert_id_of(
                digest,
                issuer@.subject_name,
                issuer@.public_key,
                subject@.serial_number,
            ),
            id is Err ==> id.unwrap_err() == OcspError::CryptoError,
    {
        let name_hash = hash(digest, issuer.subject_name());
        let key_hash = hash(digest, issuer.public_key());
        OcspCertId::from_digests(digest, name_hash, key_hash, subject.serial_number())
    }

    /// Puts an identifier together from the two digests that the provider
    /// returned, each `None` where it returned none.
    ///
    /// Fails with `CryptoError` exactly when a digest is missing.
    pub fn from_digests(
        digest: MessageDigest,
        issuer_name_hash: Option<Vec<u8>>,
        issuer_key_hash: Option<Vec<u8>>,
        serial_number: &[u8],
    ) -> (id: Result<OcspCertId, OcspError>)
        ensures
            id is Ok <==> issuer_name_hash is Some && issuer_key_hash is Some,
            id is Ok ==> id.unwrap()@ == (OcspCertIdView {
                digest,
                issuer_name_hash: issuer_name_hash.unwrap()@,
                issuer_key_hash: issuer_key_hash.unwrap()@,
                serial_number: serial_number@,
            }),
            id is Err ==> id.unwrap_err() == OcspError::CryptoError,
    {
        match (issuer_name_hash, issuer_key_hash) {
            (Some(name_hash), Some(key_hash)) => Ok(
                OcspCertId {
                    digest,
                    issuer_name_hash: name_hash,
                    issuer_key_hash: key_hash,
                    serial_number: slice_to_vec(serial_number),
                },
            ),
            _ => Err(OcspError::CryptoError),
        }
    }

    /// The identifier with the given parts, as one is read from the wire.
    pub fn from_parts(
        digest: MessageDigest,
        issuer_name_hash: &[u8],
        issuer_key_hash: &[u8],
        serial_number: &[u8],
    ) -> (id: OcspCertId)
        ensures
            id@ == (OcspCertIdView {
                digest,
                issuer_name_hash: issuer_name_hash@,
                issuer_key_hash: issuer_key_hash@,
                serial_number: serial_number@,
            }),
    {
        OcspCertId {
            digest,
            issuer_name_hash: slice_to_vec(issuer_name_hash),
            issuer_key_hash: slice_to_vec(issuer_key_hash),
            serial_number: slice_to_vec(serial_number),
        }
    }

    /// The digest algorithm under which the issuer is named.
    pub fn digest(&self) -> (digest: MessageDigest)
        ensures
            digest == self@.digest,
    {
        self.digest
    }

    /// The digest of the issuer's distinguished name.
    pub fn issuer_name_hash(&self) -> (bytes: &[u8])
        ensures
            bytes@ == self@.issuer_name_hash,
    {
        self.issuer_name_hash.as_slice()
    }

    /// The digest of the issuer's public key.
    pub fn issuer_key_hash(&self) -> (bytes: &[u8])
        ensures
            bytes@ == self@.issuer_key_hash,
    {
        self.issuer_key_hash.as_slice()
    }

    /// The serial number of the certificate.
    pub fn serial_number(&self) -> (bytes: &[u8])
        ensures
            bytes@ == self@.serial_number,
    {
        self.serial_number.as_slice()
    }

    /// Whether `self` and `other` name the same certificate: the same
    /// algorithm and, byte for byte, the same digests and serial number.
    pub fn same_as(&self, other: &OcspCertId) -> (same: bool)
        ensures
            same == (self@ == other@),
    {
        self.digest == other.digest && bytes_eq(
            self.issuer_name_hash.as_slice(),
            other.issuer_name_hash.as_slice(),
        ) && bytes_eq(self.issuer_key_hash.as_slice(), other.issuer_key_hash.as_slice())
            && bytes_eq(self.serial_number.as_slice(), other.serial_number.as_slice())
    }
}

impl Clone for OcspCertId {
    /// A copy that names the same certificate.
    fn clone(&self) -> (copy: OcspCertId)
        ensures
            copy@ == self@,
    {
        OcspCertId {
            digest: self.digest,
            issuer_name_hash: slice_to_vec(self.issuer_name_hash.as_slice()),
            issuer_key_hash: slice_to_vec(self.issuer_key_hash.as_slice()),
            serial_number: slice_to_vec(self.serial_number.as_slice()),
        }
    }
}

} // verus!

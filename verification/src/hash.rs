//! Message digests, computed by the `sha1` and `sha2` crates.

use sha1::Digest;
use vstd::prelude::*;

verus! {

/// A digest algorithm that a certificate identifier can name.
#[derive(Copy, Clone, Debug, PartialEq, Eq, Structural)]
pub enum MessageDigest {
    Md5,
    Sha1,
    Sha224,
    Sha256,
    Sha384,
    Sha512,
    Ripemd160,
}

/// The SHA-1 digest of `data`, as `sha1::Sha1` computes it.
pub uninterp spec fn sha1_of(data: Seq<u8>) -> Seq<u8>;

/// The SHA-224 digest of `data`, as `sha2::Sha224` computes it.
pub uninterp spec fn sha224_of(data: Seq<u8>) -> Seq<u8>;

/// The SHA-256 digest of `data`, as `sha2::Sha256` computes it.
pub uninterp spec fn sha256_of(data: Seq<u8>) -> Seq<u8>;

/// The SHA-384 digest of `data`, as `sha2::Sha384` computes it.
pub uninterp spec fn sha384_of(data: Seq<u8>) -> Seq<u8>;

/// The SHA-512 digest of `data`, as `sha2::Sha512` computes it.
pub uninterp spec fn sha512_of(data: Seq<u8>) -> Seq<u8>;

/// Calls `Digest::digest` of `sha1::Sha1`. Trusted: the result is the SHA-1
/// digest of `data`, which depends on nothing but those bytes.
#[verifier::external_body]
fn sha1_digest(data: &[u8]) -> (out: Vec<u8>)
    ensures
        out@ == sha1_of(data@),
{
    sha1::Sha1::digest(data).to_vec()
}

/// Calls `Digest::digest` of `sha2::Sha224`. Trusted: the result is the
/// SHA-224 digest of `data`, which depends on nothing but those bytes.
#[verifier::external_body]
fn sha224_digest(data: &[u8]) -> (out: Vec<u8>)
    ensures
        out@ == sha224_of(data@),
{
    sha2::Sha224::digest(data).to_vec()
}

/// Calls `Digest::digest` of `sha2::Sha256`. Trusted: the result is the
/// SHA-256 digest of `data`, which depends on nothing but those bytes.
#[verifier::external_body]
fn sha256_digest(data: &[u8]) -> (out: Vec<u8>)
    ensures
        out@ == sha256_of(data@),
{
    sha2::Sha256::digest(data).to_vec()
}

/// Calls `Digest::digest` of `sha2::Sha384`. Trusted: the result is the
/// SHA-384 digest of `data`, which depends on nothing but those bytes.
#[verifier::external_body]
fn sha384_digest(data: &[u8]) -> (out: Vec<u8>)
    ensures
        out@ == sha384_of(data@),
{
    sha2::Sha384::digest(data).to_vec()
}

/// Calls `Digest::digest` of `sha2::Sha512`. Trusted: the result is the
/// SHA-512 digest of `data`, which depends on nothing but those bytes.
#[verifier::external_body]
fn sha512_digest(data: &[u8]) -> (out: Vec<u8>)
    ensures
        out@ == sha512_of(data@),
{
    sha2::Sha512::digest(data).to_vec()
}

/// The number under which the registry of object names lists `algorithm`.
pub open spec fn nid_of(algorithm: MessageDigest) -> int {
    match algorithm {
        MessageDigest::Md5 => 4,
        MessageDigest::Sha1 => 64,
        MessageDigest::Ripemd160 => 117,
        MessageDigest::Sha256 => 672,
        MessageDigest::Sha384 => 673,
        MessageDigest::Sha512 => 674,
        MessageDigest::Sha224 => 675,
    }
}

impl MessageDigest {
    /// The algorithm that the registry of object names lists under `nid`, if
    /// it is one of those that this crate names.
    pub fn from_nid(nid: i32) -> (algorithm: Option<MessageDigest>)
        ensures
            algorithm is Some <==> exists|named: MessageDigest| nid_of(named) == nid,
            algorithm is Some ==> nid_of(algorithm.unwrap()) == nid,
    {
        let algorithm = match nid {
            4 => Some(MessageDigest::Md5),
            64 => Some(MessageDigest::Sha1),
            117 => Some(MessageDigest::Ripemd160),
            672 => Some(MessageDigest::Sha256),
            673 => Some(MessageDigest::Sha384),
            674 => Some(MessageDigest::Sha512),
            675 => Some(MessageDigest::Sha224),
            _ => None,
        };
        proof {
            if algorithm is Some {
                assert(nid_of(algorithm.unwrap()) == nid);
            }
        }
        algorithm
    }

    /// The number under which the registry of object names lists the
    /// algorithm.
    pub fn nid(&self) -> (nid: i32)
        ensures
            nid == nid_of(*self),
    {
        match self {
            MessageDigest::Md5 => 4,
            MessageDigest::Sha1 => 64,
            MessageDigest::Ripemd160 => 117,
            MessageDigest::Sha256 => 672,
            MessageDigest::Sha384 => 673,
            MessageDigest::Sha512 => 674,
            MessageDigest::Sha224 => 675,
        }
    }

    /// Whether this crate has a provider for the algorithm: it has one for
    /// SHA-1 and for the SHA-2 family.
    pub open spec fn has_provider(self) -> bool {
        !(self is Md5 || self is Ripemd160)
    }

    /// The digest of `data` under the algorithm; arbitrary where the
    /// algorithm has no provider.
    pub open spec fn digest_of(self, data: Seq<u8>) -> Seq<u8> {
        match self {
            MessageDigest::Sha1 => sha1_of(data),
            MessageDigest::Sha224 => sha224_of(data),
            MessageDigest::Sha256 => sha256_of(data),
            MessageDigest::Sha384 => sha384_of(data),
            MessageDigest::Sha512 => sha512_of(data),
            _ => arbitrary(),
        }
    }
}

/// Computes the digest of `data` under `algorithm`, or `None` where the
/// algorithm has no provider.
pub fn hash(algorithm: MessageDigest, data: &[u8]) -> (out: Option<Vec<u8>>)
    ensures
        out is Some <==> algorithm.has_provider(),
        out is Some ==> out.unwrap()@ == algorithm.digest_of(data@),
{
    match algorithm {
        MessageDigest::Sha1 => Some(sha1_digest(data)),
        MessageDigest::Sha224 => Some(sha224_digest(data)),
        MessageDigest::Sha256 => Some(sha256_digest(data)),
        MessageDigest::Sha384 => Some(sha384_digest(data)),
        MessageDigest::Sha512 => Some(sha512_digest(data)),
        _ => None,
    }
}

/// No two algorithms share a number, so an algorithm is found again under
/// its own.
pub proof fn lemma_nid_names_one(one: MessageDigest, other: MessageDigest)
    requires
        nid_of(one) == nid_of(other),
    ensures
        one == other,
{
}

} // verus!

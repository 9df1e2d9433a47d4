//! Data model and checking rules of the Online Certificate Status Protocol.
//!
//! The crate holds the protocol's code registries, the certificate identifier,
//! the request and response containers, the lookup of a certificate's status in
//! a signed response and the check of a status's time window. Every function is
//! verified against a contract stated over the views of these types.
//!
//! Three things are left to others. Digests are computed by the `sha1` and
//! `sha2` crates, behind the trusted functions of [`hash`]. The clock is read
//! through `std::time`, behind those of [`time`]. The DER codec and the
//! verification of a response's signature belong to a cryptographic library:
//! this crate carries the encoded body for it, names the switches that it
//! takes in [`flag`], and reads its return code with [`error::cvt`].

pub mod basic;
pub mod cert_id;
pub mod error;
pub mod flag;
pub mod hash;
pub mod request;
pub mod response;
pub mod status;
pub mod time;
pub mod validity;
pub mod x509;

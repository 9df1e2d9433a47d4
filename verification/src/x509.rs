//! What this crate reads of an X.509 certificate.

use vstd::prelude::*;
use vstd::slice::slice_to_vec;

verus! {

/// The fields of a certificate that a certificate identifier is built from,
/// each in its encoded form. Parsing a certificate into these fields is left
/// to the caller.
#[derive(Debug, PartialEq, Eq)]
pub struct X509 {
    subject_name: Vec<u8>,
    public_key: Vec<u8>,
    serial_number: Vec<u8>,
}

/// A certificate as seen through a shared borrow.
pub type X509Ref = X509;

/// The mathematical value of an [`X509`].
pub struct X509View {
    /// The encoded distinguished name of the certificate's subject.
    pub subject_name: Seq<u8>,
    /// The bits of the subject's public key, without tag and length.
    pub public_key: Seq<u8>,
    /// The octets of the serial number.
    pub serial_number: Seq<u8>,
}

impl View for X509 {
    type V = X509View;

    closed spec fn view(&self) -> X509View {
        X509View {
            subject_name: self.subject_name@,
            public_key: self.public_key@,
            serial_number: self.serial_number@,
        }
    }
}

impl Clone for X509 {
    /// A copy with the same fields.
    fn clone(&self) -> (copy: X509)
        ensures
            copy@ == self@,
    {
        X509::new(
            self.subject_name.as_slice(),
            self.public_key.as_slice(),
            self.serial_number.as_slice(),
        )
    }
}

impl X509 {
    /// A certificate with the given subject name, public key and serial number.
    pub fn new(subject_name: &[u8], public_key: &[u8], serial_number: &[u8]) -> (cert: X509)
        ensures
            cert@ == (X509View {
                subject_name: subject_name@,
                public_key: public_key@,
                serial_number: serial_number@,
            }),
    {
        X509 {
            subject_name: slice_to_vec(subject_name),
            public_key: slice_to_vec(public_key),
            serial_number: slice_to_vec(serial_number),
        }
    }

    /// The encoded distinguished name of the certificate's subject.
    pub fn subject_name(&self) -> (name: &[u8])
        ensures
            name@ == self@.subject_name,
    {
        self.subject_name.as_slice()
    }

    /// The bits of the subject's public key.
    pub fn public_key(&self) -> (key: &[u8])
        ensures
            key@ == self@.public_key,
    {
        self.public_key.as_slice()
    }

    /// The octets of the serial number.
    pub fn serial_number(&self) -> (serial: &[u8])
        ensures
            serial@ == self@.serial_number,
    {
        self.serial_number.as_slice()
    }
}

} // verus!

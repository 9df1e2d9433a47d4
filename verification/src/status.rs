//! The protocol's fixed code registries.
//!
//! Each registry is a thin wrapper around the integer that travels on the wire,
//! so a code that the protocol has no name for is still carried faithfully. The
//! names are the variants of an enum beside it.

use vstd::prelude::*;

verus! {

/// The status of a whole response, as the responder reports it. The codes that
/// the protocol names are the constants `RESPONSE_STATUS_*`.
#[derive(Copy, Clone, Debug, PartialEq, Eq, Structural)]
pub struct OcspResponseStatus(i32);

/// The status of one certificate inside a response. The codes that the
/// protocol names are the constants `CERT_STATUS_*`.
#[derive(Copy, Clone, Debug, PartialEq, Eq, Structural)]
pub struct OcspCertStatus(i32);

/// The reason for which a certificate was revoked. The codes that the protocol
/// names are the constants `REVOKED_STATUS_*`.
#[derive(Copy, Clone, Debug, PartialEq, Eq, Structural)]
pub struct OcspRevokedStatus(i32);

pub const RESPONSE_STATUS_SUCCESSFUL: i32 = 0;

pub const RESPONSE_STATUS_MALFORMED_REQUEST: i32 = 1;

pub const RESPONSE_STATUS_INTERNAL_ERROR: i32 = 2;

pub const RESPONSE_STATUS_TRY_LATER: i32 = 3;

pub const RESPONSE_STATUS_SIG_REQUIRED: i32 = 5;

pub const RESPONSE_STATUS_UNAUTHORIZED: i32 = 6;

pub const CERT_STATUS_GOOD: i32 = 0;

pub const CERT_STATUS_REVOKED: i32 = 1;

pub const CERT_STATUS_UNKNOWN: i32 = 2;

/// Stands where no reason applies or none was given.
pub const REVOKED_STATUS_NO_STATUS: i32 = -1;

pub const REVOKED_STATUS_UNSPECIFIED: i32 = 0;

pub const REVOKED_STATUS_KEY_COMPROMISE: i32 = 1;

pub const REVOKED_STATUS_CA_COMPROMISE: i32 = 2;

pub const REVOKED_STATUS_AFFILIATION_CHANGED: i32 = 3;

pub const REVOKED_STATUS_SUPERSEDED: i32 = 4;

pub const REVOKED_STATUS_CESSATION_OF_OPERATION: i32 = 5;

pub const REVOKED_STATUS_CERTIFICATE_HOLD: i32 = 6;

pub const REVOKED_STATUS_REMOVE_FROM_CRL: i32 = 8;

/// The response statuses that the protocol names.
#[derive(Copy, Clone, Debug, PartialEq, Eq, Structural)]
pub enum ResponseStatus {
    Successful,
    MalformedRequest,
    InternalError,
    TryLater,
    SigRequired,
    Unauthorized,
}

/// The certificate statuses that the protocol names.
#[derive(Copy, Clone, Debug, PartialEq, Eq, Structural)]
pub enum CertStatus {
    Good,
    Revoked,
    Unknown,
}

/// The reasons of revocation that the protocol names, and `NoStatus` for the
/// code that stands where no reason applies or none was given.
#[derive(Copy, Clone, Debug, PartialEq, Eq, Structural)]
pub enum RevokedReason {
    Unspecified,
    KeyCompromise,
    CACompromise,
    AffiliationChanged,
    Superseded,
    CessationOfOperation,
    CertificateHold,
    RemoveFromCRL,
    NoStatus,
}

/// The code of a named response status.
pub open spec fn response_status_code(name: ResponseStatus) -> int {
    match name {
        ResponseStatus::Successful => RESPONSE_STATUS_SUCCESSFUL as int,
        ResponseStatus::MalformedRequest => RESPONSE_STATUS_MALFORMED_REQUEST as int,
        ResponseStatus::InternalError => RESPONSE_STATUS_INTERNAL_ERROR as int,
        ResponseStatus::TryLater => RESPONSE_STATUS_TRY_LATER as int,
        ResponseStatus::SigRequired => RESPONSE_STATUS_SIG_REQUIRED as int,
        ResponseStatus::Unauthorized => RESPONSE_STATUS_UNAUTHORIZED as int,
    }
}

/// The code of a named certificate status.
pub open spec fn cert_status_code(name: CertStatus) -> int {
    match name {
        CertStatus::Good => CERT_STATUS_GOOD as int,
        CertStatus::Revoked => CERT_STATUS_REVOKED as int,
        CertStatus::Unknown => CERT_STATUS_UNKNOWN as int,
    }
}

/// The code of a named reason of revocation.
pub open spec fn revoked_reason_code(name: RevokedReason) -> int {
    match name {
        RevokedReason::Unspecified => REVOKED_STATUS_UNSPECIFIED as int,
        RevokedReason::KeyCompromise => REVOKED_STATUS_KEY_COMPROMISE as int,
        RevokedReason::CACompromise => REVOKED_STATUS_CA_COMPROMISE as int,
        RevokedReason::AffiliationChanged => REVOKED_STATUS_AFFILIATION_CHANGED as int,
        RevokedReason::Superseded => REVOKED_STATUS_SUPERSEDED as int,
        RevokedReason::CessationOfOperation => REVOKED_STATUS_CESSATION_OF_OPERATION as int,
        RevokedReason::CertificateHold => REVOKED_STATUS_CERTIFICATE_HOLD as int,
        RevokedReason::RemoveFromCRL => REVOKED_STATUS_REMOVE_FROM_CRL as int,
        RevokedReason::NoStatus => REVOKED_STATUS_NO_STATUS as int,
    }
}

impl View for OcspResponseStatus {
    type V = int;

    /// The code as a mathematical integer.
    closed spec fn view(&self) -> int {
        self.0 as int
    }
}

impl ResponseStatus {
    /// The status with the code of this name.
    pub fn status(self) -> (status: OcspResponseStatus)
        ensures
            status@ == response_status_code(self),
    {
        let raw: i32 = match self {
            ResponseStatus::Successful => RESPONSE_STATUS_SUCCESSFUL,
            ResponseStatus::MalformedRequest => RESPONSE_STATUS_MALFORMED_REQUEST,
            ResponseStatus::InternalError => RESPONSE_STATUS_INTERNAL_ERROR,
            ResponseStatus::TryLater => RESPONSE_STATUS_TRY_LATER,
            ResponseStatus::SigRequired => RESPONSE_STATUS_SIG_REQUIRED,
            ResponseStatus::Unauthorized => RESPONSE_STATUS_UNAUTHORIZED,
        };
        OcspResponseStatus(raw)
    }
}

impl OcspResponseStatus {
    /// The name of the code, or nothing where the protocol names none for it.
    pub fn name(&self) -> (name: Option<ResponseStatus>)
        ensures
            name is Some <==> exists|named: ResponseStatus| response_status_code(named) == self@,
            name is Some ==> response_status_code(name.unwrap()) == self@,
    {
        let name = match self.0 {
            RESPONSE_STATUS_SUCCESSFUL => Some(ResponseStatus::Successful),
            RESPONSE_STATUS_MALFORMED_REQUEST => Some(ResponseStatus::MalformedRequest),
            RESPONSE_STATUS_INTERNAL_ERROR => Some(ResponseStatus::InternalError),
            RESPONSE_STATUS_TRY_LATER => Some(ResponseStatus::TryLater),
            RESPONSE_STATUS_SIG_REQUIRED => Some(ResponseStatus::SigRequired),
            RESPONSE_STATUS_UNAUTHORIZED => Some(ResponseStatus::Unauthorized),
            _ => None,
        };
        proof {
            if name is Some {
                assert(response_status_code(name.unwrap()) == self@);
            }
        }
        name
    }

    /// Wraps a code taken from the wire, known or not.
    pub fn from_raw(raw: i32) -> (status: OcspResponseStatus)
        ensures
            status@ == raw,
    {
        OcspResponseStatus(raw)
    }

    /// The code as it travels on the wire.
    pub fn as_raw(&self) -> (raw: i32)
        ensures
            raw == self@,
    {
        self.0
    }
}

impl View for OcspCertStatus {
    type V = int;

    /// The code as a mathematical integer.
    closed spec fn view(&self) -> int {
        self.0 as int
    }
}

impl CertStatus {
    /// The status with the code of this name.
    pub fn status(self) -> (status: OcspCertStatus)
        ensures
            status@ == cert_status_code(self),
    {
        let raw: i32 = match self {
            CertStatus::Good => CERT_STATUS_GOOD,
            CertStatus::Revoked => CERT_STATUS_REVOKED,
            CertStatus::Unknown => CERT_STATUS_UNKNOWN,
        };
        OcspCertStatus(raw)
    }
}

impl OcspCertStatus {
    /// The name of the code, or nothing where the protocol names none for it.
    pub fn name(&self) -> (name: Option<CertStatus>)
        ensures
            name is Some <==> exists|named: CertStatus| cert_status_code(named) == self@,
            name is Some ==> cert_status_code(name.unwrap()) == self@,
    {
        let name = match self.0 {
            CERT_STATUS_GOOD => Some(CertStatus::Good),
            CERT_STATUS_REVOKED => Some(CertStatus::Revoked),
            CERT_STATUS_UNKNOWN => Some(CertStatus::Unknown),
            _ => None,
        };
        proof {
            if name is Some {
                assert(cert_status_code(name.unwrap()) == self@);
            }
        }
        name
    }

    /// Wraps a code taken from the wire, known or not.
    pub fn from_raw(raw: i32) -> (status: OcspCertStatus)
        ensures
            status@ == raw,
    {
        OcspCertStatus(raw)
    }

    /// The code as it travels on the wire.
    pub fn as_raw(&self) -> (raw: i32)
        ensures
            raw == self@,
    {
        self.0
    }
}

impl View for OcspRevokedStatus {
    type V = int;

    /// The code as a mathematical integer.
    closed spec fn view(&self) -> int {
        self.0 as int
    }
}

impl RevokedReason {
    /// The reason with the code of this name.
    pub fn status(self) -> (status: OcspRevokedStatus)
        ensures
            status@ == revoked_reason_code(self),
    {
        let raw: i32 = match self {
            RevokedReason::Unspecified => REVOKED_STATUS_UNSPECIFIED,
            RevokedReason::KeyCompromise => REVOKED_STATUS_KEY_COMPROMISE,
            RevokedReason::CACompromise => REVOKED_STATUS_CA_COMPROMISE,
            RevokedReason::AffiliationChanged => REVOKED_STATUS_AFFILIATION_CHANGED,
            RevokedReason::Superseded => REVOKED_STATUS_SUPERSEDED,
            RevokedReason::CessationOfOperation => REVOKED_STATUS_CESSATION_OF_OPERATION,
            RevokedReason::CertificateHold => REVOKED_STATUS_CERTIFICATE_HOLD,
            RevokedReason::RemoveFromCRL => REVOKED_STATUS_REMOVE_FROM_CRL,
            RevokedReason::NoStatus => REVOKED_STATUS_NO_STATUS,
        };
        OcspRevokedStatus(raw)
    }
}

impl OcspRevokedStatus {
    /// The name of the code, or nothing where the protocol names none for it.
    pub fn name(&self) -> (name: Option<RevokedReason>)
        ensures
            name is Some <==> exists|named: RevokedReason| revoked_reason_code(named) == self@,
            name is Some ==> revoked_reason_code(name.unwrap()) == self@,
    {
        let name = match self.0 {
            REVOKED_STATUS_UNSPECIFIED => Some(RevokedReason::Unspecified),
            REVOKED_STATUS_KEY_COMPROMISE => Some(RevokedReason::KeyCompromise),
            REVOKED_STATUS_CA_COMPROMISE => Some(RevokedReason::CACompromise),
            REVOKED_STATUS_AFFILIATION_CHANGED => Some(RevokedReason::AffiliationChanged),
            REVOKED_STATUS_SUPERSEDED => Some(RevokedReason::Superseded),
            REVOKED_STATUS_CESSATION_OF_OPERATION => Some(RevokedReason::CessationOfOperation),
            REVOKED_STATUS_CERTIFICATE_HOLD => Some(RevokedReason::CertificateHold),
            REVOKED_STATUS_REMOVE_FROM_CRL => Some(RevokedReason::RemoveFromCRL),
            REVOKED_STATUS_NO_STATUS => Some(RevokedReason::NoStatus),
            _ => None,
        };
        proof {
            if name is Some {
                assert(revoked_reason_code(name.unwrap()) == self@);
            }
        }
        name
    }

    /// Wraps a code taken from the wire, known or not.
    pub fn from_raw(raw: i32) -> (status: OcspRevokedStatus)
        ensures
            status@ == raw,
    {
        OcspRevokedStatus(raw)
    }

    /// The code as it travels on the wire.
    pub fn as_raw(&self) -> (raw: i32)
        ensures
            raw == self@,
    {
        self.0
    }
}

/// No two names of response statuses share a code.
pub proof fn lemma_response_status_names_one(one: ResponseStatus, other: ResponseStatus)
    requires
        response_status_code(one) == response_status_code(other),
    ensures
        one == other,
{
}

/// No two names of certificate statuses share a code.
pub proof fn lemma_cert_status_names_one(one: CertStatus, other: CertStatus)
    requires
        cert_status_code(one) == cert_status_code(other),
    ensures
        one == other,
{
}

/// No two names of reasons of revocation share a code.
pub proof fn lemma_revoked_reason_names_one(one: RevokedReason, other: RevokedReason)
    requires
        revoked_reason_code(one) == revoked_reason_code(other),
    ensures
        one == other,
{
}

} // verus!

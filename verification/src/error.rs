//! The errors that the operations of this crate report.

use vstd::prelude::*;

verus! {

/// Why a response envelope gave no signed body.
#[derive(Copy, Clone, Debug, PartialEq, Eq, Structural)]
pub enum StatusFault {
    /// The responder did not report the request as successful.
    NotSuccessful,
    /// The response claims success but carries no body.
    MissingBody,
}

/// Which bound of a status's time window the clock reading broke.
#[derive(Copy, Clone, Debug, PartialEq, Eq, Structural)]
pub enum ValidityFault {
    /// The status was issued later than the slack allows.
    NotYetValid,
    /// The status expired longer ago than the slack allows.
    Expired,
    /// The status is older than the greatest age asked for.
    TooOld,
}

/// An error of one of this crate's operations.
///
/// A failed verification or validity check is a security decision: callers
/// must not go on to trust the status that it concerns.
#[derive(Copy, Clone, Debug, PartialEq, Eq, Structural)]
pub enum OcspError {
    /// Wire bytes were malformed.
    EncodingError,
    /// A digest or signature primitive failed, or the algorithm has no provider.
    CryptoError,
    /// A container could not take another item.
    AllocationError,
    /// An envelope was asked for a body that it does not hold.
    StatusError(StatusFault),
    /// The signature or the chain of trust did not hold. The code is the
    /// verifier's own and is passed on unread.
    VerificationError(u64),
    /// The time window of a status does not cover the clock reading.
    TimeValidityError(ValidityFault),
}

/// Reads the return code of an outside routine that reports success by a code
/// above zero: such a code is handed on, and any other becomes the error
/// `failure`.
pub fn cvt(code: i32, failure: OcspError) -> (checked: Result<i32, OcspError>)
    ensures
        code > 0 ==> checked == Ok::<i32, OcspError>(code),
        code <= 0 ==> checked == Err::<i32, OcspError>(failure),
{
    if code > 0 {
        Ok(code)
    } else {
        Err(failure)
    }
}

} // verus!

//! Instants, at the one-second resolution of the protocol's time fields.

use vstd::prelude::*;

verus! {

/// An instant in universal time, counted in whole seconds from the start of
/// 1970.
#[derive(Copy, Clone, Debug, PartialEq, Eq, Structural)]
pub struct Asn1GeneralizedTime {
    secs: i64,
}

impl View for Asn1GeneralizedTime {
    type V = int;

    /// The seconds since the start of 1970; negative before it.
    closed spec fn view(&self) -> int {
        self.secs as int
    }
}

/// A reading of the system clock.
#[verifier::external_type_specification]
#[verifier::external_body]
pub struct ExSystemTime(std::time::SystemTime);

/// The failure of measuring a span backward.
#[verifier::external_type_specification]
#[verifier::external_body]
pub struct ExSystemTimeError(std::time::SystemTimeError);

/// Calls `std::time::SystemTime::now`. Trusted: nothing is claimed of the
/// reading, which differs from call to call.
#[verifier::external_body]
fn system_clock() -> (reading: std::time::SystemTime) {
    std::time::SystemTime::now()
}

/// Calls `std::time::SystemTime::duration_since` with the start of 1970,
/// `std::time::UNIX_EPOCH`. Trusted: nothing is claimed of the span.
#[verifier::external_body]
fn since_epoch(reading: &std::time::SystemTime) -> (span: Result<
    std::time::Duration,
    std::time::SystemTimeError,
>) {
    reading.duration_since(std::time::UNIX_EPOCH)
}

/// Calls `std::time::SystemTimeError::duration`, which gives the span by
/// which a reading lies before the moment that it was measured from. Trusted:
/// nothing is claimed of the span.
#[verifier::external_body]
fn span_before(early: &std::time::SystemTimeError) -> (span: std::time::Duration) {
    early.duration()
}

/// Calls `std::time::Duration::as_secs`, the whole seconds of a span.
/// Trusted: nothing is claimed of the number.
#[verifier::external_body]
fn whole_seconds(span: &std::time::Duration) -> (secs: u64) {
    span.as_secs()
}

/// The seconds from the start of 1970 that a clock reading stands for: `Ok`
/// counts forward and `Err` backward.
pub open spec fn offset_secs(offset: Result<u64, u64>) -> int {
    match offset {
        Ok(after) => after as int,
        Err(before) => -(before as int),
    }
}

/// The value of `secs` where an `i64` holds it, else the nearest bound.
pub open spec fn clamp_to_i64(secs: int) -> int {
    if secs > i64::MAX {
        i64::MAX as int
    } else if secs < i64::MIN {
        i64::MIN as int
    } else {
        secs
    }
}

impl Asn1GeneralizedTime {
    /// The instant `secs` seconds after the start of 1970.
    pub fn from_unix(secs: i64) -> (time: Asn1GeneralizedTime)
        ensures
            time@ == secs,
    {
        Asn1GeneralizedTime { secs }
    }

    /// The seconds between the start of 1970 and this instant.
    pub fn as_unix(&self) -> (secs: i64)
        ensures
            secs == self@,
    {
        self.secs
    }

    /// The instant that a clock reading stands for, or the nearest one that
    /// this type holds.
    pub fn from_offset(offset: Result<u64, u64>) -> (time: Asn1GeneralizedTime)
        ensures
            time@ == clamp_to_i64(offset_secs(offset)),
    {
        let secs: i64 = match offset {
            Ok(after) => if after > i64::MAX as u64 {
                i64::MAX
            } else {
                after as i64
            },
            Err(before) => if before > i64::MAX as u64 {
                i64::MIN
            } else {
                -(before as i64)
            },
        };
        Asn1GeneralizedTime { secs }
    }

    /// The current time, as the system clock gives it.
    pub fn now() -> (time: Asn1GeneralizedTime) {
        let reading = system_clock();
        let offset = match since_epoch(&reading) {
            Ok(span) => Ok(whole_seconds(&span)),
            Err(early) => Err(whole_seconds(&span_before(&early))),
        };
        Asn1GeneralizedTime::from_offset(offset)
    }
}

} // verus!

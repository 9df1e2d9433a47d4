//! The check of a status's time window against a clock reading.

use crate::basic::{Status, StatusView};
use crate::error::{OcspError, ValidityFault};
use crate::time::Asn1GeneralizedTime;
use vstd::prelude::*;

verus! {

/// The bound that the clock reading `now` breaks of a status issued at
/// `this_update` that expires at `next_update`, if it breaks one.
///
/// A status is current from `nsec` seconds before `this_update` until `nsec`
/// seconds after `next_update`, and, where `maxsec` is given, no longer than
/// `maxsec` seconds after `this_update`. The bounds are looked at in this
/// order, and the first one broken is reported.
pub open spec fn validity_fault(
    this_update: int,
    next_update: int,
    now: int,
    nsec: int,
    maxsec: Option<int>,
) -> Option<ValidityFault> {
    if now < this_update - nsec {
        Some(ValidityFault::NotYetValid)
    } else if now > next_update + nsec {
        Some(ValidityFault::Expired)
    } else if maxsec is Some && now - this_update > maxsec.unwrap() {
        Some(ValidityFault::TooOld)
    } else {
        None
    }
}

/// The greatest age asked for, as a mathematical integer.
pub open spec fn max_age(maxsec: Option<u32>) -> Option<int> {
    match maxsec {
        Some(limit) => Some(limit as int),
        None => None,
    }
}

/// What the validity check of `status` returns at the clock reading `now`.
pub open spec fn validity_at(status: StatusView, now: int, nsec: u32, maxsec: Option<u32>) -> Result<
    (),
    OcspError,
> {
    match validity_fault(
        status.this_update,
        status.next_update,
        now,
        nsec as int,
        max_age(maxsec),
    ) {
        Some(fault) => Err(OcspError::TimeValidityError(fault)),
        None => Ok(()),
    }
}

impl<'a> Status<'a> {
    /// Checks validity of the `this_update` and `next_update` fields against
    /// the system clock.
    ///
    /// The `nsec` parameter specifies an amount of slack time that will be
    /// used when comparing those times with the current time to account for
    /// delays and clock skew.
    ///
    /// The `maxsec` parameter limits the maximum age of the `this_update`
    /// parameter to prohibit very old responses.
    pub fn check_validity(&self, nsec: u32, maxsec: Option<u32>) -> (checked: Result<
        (),
        OcspError,
    >)
        ensures
            exists|now: int| checked == validity_at(self@, now, nsec, maxsec),
    {
        let now = Asn1GeneralizedTime::now();
        let checked = self.check_validity_at(now, nsec, maxsec);
        assert(checked == validity_at(self@, now@, nsec, maxsec));
        checked
    }

    /// Checks validity of the `this_update` and `next_update` fields against
    /// the clock reading `now`, with the slack `nsec` and the greatest age
    /// `maxsec` of [`Status::check_validity`].
    pub fn check_validity_at(
        &self,
        now: Asn1GeneralizedTime,
        nsec: u32,
        maxsec: Option<u32>,
    ) -> (checked: Result<(), OcspError>)
        ensures
            checked == validity_at(self@, now@, nsec, maxsec),
    {
        let now: i128 = now.as_unix() as i128;
        let this_update: i128 = self.this_update.as_unix() as i128;
        let next_update: i128 = self.next_update.as_unix() as i128;
        let slack: i128 = nsec as i128;
        if now < this_update - slack {
            return Err(OcspError::TimeValidityError(ValidityFault::NotYetValid));
        }
        if now > next_update + slack {
            return Err(OcspError::TimeValidityError(ValidityFault::Expired));
        }
        match maxsec {
            Some(limit) => {
                if now - this_update > limit as i128 {
                    return Err(OcspError::TimeValidityError(ValidityFault::TooOld));
                }
            },
            None => {},
        }
        Ok(())
    }
}

/// More slack and a greater allowed age never turn a current status into one
/// that is not: a clock reading that breaks no bound under `nsec` and
/// `maxsec` breaks none under a slack of at least `nsec` and either no
/// greatest age or one of at least `maxsec`.
pub proof fn lemma_validity_grows(
    this_update: int,
    next_update: int,
    now: int,
    nsec: int,
    maxsec: Option<int>,
    wider_nsec: int,
    wider_maxsec: Option<int>,
)
    requires
        validity_fault(this_update, next_update, now, nsec, maxsec) is None,
        nsec <= wider_nsec,
        wider_maxsec is Some ==> maxsec is Some && maxsec.unwrap() <= wider_maxsec.unwrap(),
    ensures
        validity_fault(this_update, next_update, now, wider_nsec, wider_maxsec) is None,
{
}

/// A status is current exactly within its window: from `nsec` seconds before
/// it was issued until `nsec` seconds after it expires, and no longer than
/// the greatest age after it was issued.
pub proof fn lemma_validity_window(
    this_update: int,
    next_update: int,
    now: int,
    nsec: int,
    maxsec: Option<int>,
)
    ensures
        validity_fault(this_update, next_update, now, nsec, maxsec) is None <==> {
            &&& this_update - nsec <= now <= next_update + nsec
            &&& maxsec is Some ==> now - this_update <= maxsec.unwrap()
        },
{
}

} // verus!

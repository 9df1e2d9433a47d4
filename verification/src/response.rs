//! The envelope in which a response travels.

use crate::basic::{BasicResponseView, OcspBasicResponse, OcspBasicResponseRef};
use crate::error::{OcspError, StatusFault};
use crate::status::{OcspResponseStatus, RESPONSE_STATUS_SUCCESSFUL};
use vstd::prelude::*;

verus! {

/// A response as it leaves a responder: the status of the request and, where
/// the responder answered it, the signed body.
#[derive(Debug, PartialEq, Eq)]
pub struct OcspResponse {
    status: OcspResponseStatus,
    body: Option<OcspBasicResponse>,
}

/// A response as seen through a shared borrow.
pub type OcspResponseRef = OcspResponse;

/// The mathematical value of an [`OcspResponse`].
pub struct ResponseView {
    pub status: int,
    pub body: Option<BasicResponseView>,
}

/// The view of a signed body that may be absent.
pub open spec fn body_view(body: Option<&OcspBasicResponse>) -> Option<BasicResponseView> {
    match body {
        Some(basic) => Some(basic@),
        None => None,
    }
}

/// What a response with the value `response` gives when asked for its body:
/// the body where the status is `RESPONSE_STATUS_SUCCESSFUL` and a body is
/// there, else the fault that stands in the way. A status other than
/// successful is reported before a missing body.
pub open spec fn basic_of(response: ResponseView) -> Result<BasicResponseView, OcspError> {
    if response.status != RESPONSE_STATUS_SUCCESSFUL {
        Err(OcspError::StatusError(StatusFault::NotSuccessful))
    } else {
        match response.body {
            Some(basic) => Ok(basic),
            None => Err(OcspError::StatusError(StatusFault::MissingBody)),
        }
    }
}

impl View for OcspResponse {
    type V = ResponseView;

    closed spec fn view(&self) -> ResponseView {
        ResponseView {
            status: self.status@,
            body: match self.body {
                Some(basic) => Some(basic@),
                None => None,
            },
        }
    }
}

impl Clone for OcspResponse {
    /// A copy with the same status and the same body.
    fn clone(&self) -> (copy: OcspResponse)
        ensures
            copy@ == self@,
    {
        let body = match &self.body {
            Some(basic) => Some(basic.clone()),
            None => None,
        };
        OcspResponse { status: self.status, body }
    }
}

impl OcspResponse {
    /// Creates an OCSP response from the status and optional body.
    ///
    /// A body should only be provided if `status` is
    /// `RESPONSE_STATUS_SUCCESSFUL`. Nothing here holds the caller to that:
    /// the response is made either way, with a copy of the body.
    pub fn create(status: OcspResponseStatus, body: Option<&OcspBasicResponseRef>) -> (response:
        Result<OcspResponse, OcspError>)
        ensures
            response is Ok,
            response.unwrap()@ == (ResponseView { status: status@, body: body_view(body) }),
    {
        let body = match body {
            Some(basic) => Some(basic.clone()),
            None => None,
        };
        Ok(OcspResponse { status, body })
    }
}

impl OcspResponseRef {
    /// Returns the status of the response.
    pub fn status(&self) -> (status: OcspResponseStatus)
        ensures
            status@ == self@.status,
    {
        self.status
    }

    /// The body that the response holds, whatever its status.
    pub fn body(&self) -> (body: Option<&OcspBasicResponseRef>)
        ensures
            body_view(body) == self@.body,
    {
        self.body.as_ref()
    }

    /// Returns the basic response, as a copy that the caller owns.
    ///
    /// This will only succeed if `status()` returns
    /// `RESPONSE_STATUS_SUCCESSFUL` and the response holds a body.
    pub fn basic(&self) -> (basic: Result<OcspBasicResponse, OcspError>)
        ensures
            match basic {
                Ok(body) => basic_of(self@) == Ok::<BasicResponseView, OcspError>(body@),
                Err(error) => basic_of(self@) == Err::<BasicResponseView, OcspError>(error),
            },
    {
        if self.status.as_raw() != RESPONSE_STATUS_SUCCESSFUL {
            return Err(OcspError::StatusError(StatusFault::NotSuccessful));
        }
        match &self.body {
            Some(basic) => Ok(basic.clone()),
            None => Err(OcspError::StatusError(StatusFault::MissingBody)),
        }
    }
}

/// A response gives its body exactly when its status is successful and it
/// holds one, and the body that it gives is the one that it holds. A response
/// made by `create` holds the body that `create` was given, so it gives that
/// body back where the status is successful, and fails where it is not.
pub proof fn lemma_basic_of(status: int, body: Option<BasicResponseView>)
    ensures
        basic_of(ResponseView { status, body }) is Ok <==> status == RESPONSE_STATUS_SUCCESSFUL
            && body is Some,
        basic_of(ResponseView { status, body }) is Ok ==> basic_of(ResponseView { status, body })
            == Ok::<BasicResponseView, OcspError>(body.unwrap()),
        basic_of(ResponseView { status, body }) matches Err(error) ==> error is StatusError,
{
}

} // verus!

//! Requests: the certificates whose status is asked for, in the order in
//! which they were added.

use crate::cert_id::{OcspCertId, OcspCertIdView};
use crate::error::OcspError;
use vstd::prelude::*;

verus! {

/// One certificate asked about in a request.
#[derive(Debug, PartialEq, Eq)]
pub struct OcspOneReq {
    cert_id: OcspCertId,
}

/// A single request as seen through a borrow.
pub type OcspOneReqRef = OcspOneReq;

impl View for OcspOneReq {
    type V = OcspCertIdView;

    /// The identifier of the certificate asked about.
    closed spec fn view(&self) -> OcspCertIdView {
        self.cert_id@
    }
}

impl Clone for OcspOneReq {
    /// A copy that asks about the same certificate.
    fn clone(&self) -> (copy: OcspOneReq)
        ensures
            copy@ == self@,
    {
        OcspOneReq { cert_id: self.cert_id.clone() }
    }
}

impl OcspOneReq {
    /// The identifier of the certificate asked about.
    pub fn cert_id(&self) -> (id: &OcspCertId)
        ensures
            id@ == self@,
    {
        &self.cert_id
    }
}

/// A request for the status of some certificates.
#[derive(Debug, PartialEq, Eq)]
pub struct OcspRequest {
    one_reqs: Vec<OcspOneReq>,
}

/// A request as seen through a borrow.
pub type OcspRequestRef = OcspRequest;

impl View for OcspRequest {
    type V = Seq<OcspCertIdView>;

    /// The identifiers asked about, in the order in which they were added.
    closed spec fn view(&self) -> Seq<OcspCertIdView> {
        self.one_reqs@.map_values(|one: OcspOneReq| one@)
    }
}

impl Clone for OcspRequest {
    /// A copy that asks about the same certificates in the same order.
    fn clone(&self) -> (copy: OcspRequest)
        ensures
            copy@ == self@,
    {
        let mut one_reqs: Vec<OcspOneReq> = Vec::new();
        let mut i: usize = 0;
        while i < self.one_reqs.len()
            invariant
                i <= self.one_reqs@.len(),
                one_reqs@.len() == i,
                forall|j: int| 0 <= j < i ==> one_reqs@[j]@ == self.one_reqs@[j]@,
            decreases self.one_reqs@.len() - i,
        {
            one_reqs.push(self.one_reqs[i].clone());
            i += 1;
        }
        let copy = OcspRequest { one_reqs };
        assert(copy@ =~= self@);
        copy
    }
}

impl OcspRequest {
    /// A request that asks about no certificate yet.
    pub fn new() -> (request: Result<OcspRequest, OcspError>)
        ensures
            request is Ok,
            request.unwrap()@ == Seq::<OcspCertIdView>::empty(),
    {
        let request = OcspRequest { one_reqs: Vec::new() };
        assert(request@ =~= Seq::<OcspCertIdView>::empty());
        Ok(request)
    }
}

impl OcspRequestRef {
    /// Adds `id` behind the identifiers that the request holds, whether or
    /// not it holds an equal one already, and returns the single request made
    /// for it.
    pub fn add_id(&mut self, id: OcspCertId) -> (added: Result<&mut OcspOneReqRef, OcspError>)
        ensures
            added is Ok,
            added.unwrap()@ == id@,
            final(self)@ == old(self)@.push(final(added.unwrap())@),
    {
        self.one_reqs.push(OcspOneReq { cert_id: id });
        let last = self.one_reqs.len() - 1;
        Ok(&mut self.one_reqs[last])
    }

    /// The number of certificates asked about.
    pub fn len(&self) -> (count: usize)
        ensures
            count == self@.len(),
    {
        self.one_reqs.len()
    }

    /// The single request at `index`, counted from zero, if there is one.
    pub fn get(&self, index: usize) -> (one: Option<&OcspOneReqRef>)
        ensures
            one is Some <==> index < self@.len(),
            one is Some ==> one.unwrap()@ == self@[index as int],
    {
        if index < self.one_reqs.len() {
            Some(&self.one_reqs[index])
        } else {
            None
        }
    }
}

} // verus!

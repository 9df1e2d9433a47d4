//! The signed body of a response, and the status of one certificate as the
//! body reports it.

use crate::cert_id::{OcspCertId, OcspCertIdRef, OcspCertIdView};
use crate::status::{
    OcspCertStatus, OcspRevokedStatus, CERT_STATUS_REVOKED, REVOKED_STATUS_NO_STATUS,
};
use crate::time::Asn1GeneralizedTime;
use vstd::prelude::*;
use vstd::slice::slice_to_vec;

verus! {

/// What a signed body says of one certificate.
#[derive(Debug, PartialEq, Eq)]
pub struct OcspSingleResponse {
    /// The certificate that the entry is about.
    pub cert_id: OcspCertId,
    /// Whether the certificate is good, revoked or unknown to the responder.
    pub cert_status: OcspCertStatus,
    /// Why the certificate was revoked. Read only where it is revoked.
    pub reason: OcspRevokedStatus,
    /// When the certificate was revoked. Read only where it is revoked.
    pub revocation_time: Option<Asn1GeneralizedTime>,
    /// When the responder looked the status up.
    pub this_update: Asn1GeneralizedTime,
    /// When the responder will have newer information.
    pub next_update: Asn1GeneralizedTime,
}

/// The mathematical value of an [`OcspSingleResponse`].
pub struct SingleResponseView {
    pub cert_id: OcspCertIdView,
    pub cert_status: int,
    pub reason: int,
    pub revocation_time: Option<int>,
    pub this_update: int,
    pub next_update: int,
}

/// The view of an instant that may be absent.
pub open spec fn time_view(time: Option<Asn1GeneralizedTime>) -> Option<int> {
    match time {
        Some(t) => Some(t@),
        None => None,
    }
}

impl View for OcspSingleResponse {
    type V = SingleResponseView;

    open spec fn view(&self) -> SingleResponseView {
        SingleResponseView {
            cert_id: self.cert_id@,
            cert_status: self.cert_status@,
            reason: self.reason@,
            revocation_time: time_view(self.revocation_time),
            this_update: self.this_update@,
            next_update: self.next_update@,
        }
    }
}

impl Clone for OcspSingleResponse {
    /// A copy that says the same of the same certificate.
    fn clone(&self) -> (copy: OcspSingleResponse)
        ensures
            copy@ == self@,
    {
        OcspSingleResponse {
            cert_id: self.cert_id.clone(),
            cert_status: self.cert_status,
            reason: self.reason,
            revocation_time: self.revocation_time,
            this_update: self.this_update,
            next_update: self.next_update,
        }
    }
}

/// The status of one certificate, as looked up in a signed body. The instants
/// are borrowed from that body.
#[derive(Copy, Clone, Debug, PartialEq, Eq)]
pub struct Status<'a> {
    /// The overall status of the certificate.
    pub status: OcspCertStatus,
    /// If `status` is `CERT_STATUS_REVOKED`, the reason for the revocation;
    /// else `REVOKED_STATUS_NO_STATUS`.
    pub reason: OcspRevokedStatus,
    /// If `status` is `CERT_STATUS_REVOKED`, the time at which the certificate
    /// was revoked, where the responder gave it; else nothing.
    pub revocation_time: Option<&'a Asn1GeneralizedTime>,
    /// The time that this revocation check was performed.
    pub this_update: &'a Asn1GeneralizedTime,
    /// The time at which this revocation check expires.
    pub next_update: &'a Asn1GeneralizedTime,
}

/// The mathematical value of a [`Status`].
pub struct StatusView {
    pub status: int,
    pub reason: int,
    pub revocation_time: Option<int>,
    pub this_update: int,
    pub next_update: int,
}

impl<'a> View for Status<'a> {
    type V = StatusView;

    open spec fn view(&self) -> StatusView {
        StatusView {
            status: self.status@,
            reason: self.reason@,
            revocation_time: match self.revocation_time {
                Some(t) => Some(t@),
                None => None,
            },
            this_update: self.this_update@,
            next_update: self.next_update@,
        }
    }
}

/// The status that the entry `entry` gives for its certificate. The reason and
/// the time of a revocation are taken over only where the certificate is
/// revoked.
pub open spec fn status_of(entry: SingleResponseView) -> StatusView {
    let revoked = entry.cert_status == CERT_STATUS_REVOKED;
    StatusView {
        status: entry.cert_status,
        reason: if revoked {
            entry.reason
        } else {
            REVOKED_STATUS_NO_STATUS as int
        },
        revocation_time: if revoked {
            entry.revocation_time
        } else {
            None
        },
        this_update: entry.this_update,
        next_update: entry.next_update,
    }
}

/// Whether `index` is the place of the first entry of `entries` that is about
/// the certificate `id`.
pub open spec fn is_first_match(
    entries: Seq<SingleResponseView>,
    id: OcspCertIdView,
    index: int,
) -> bool {
    &&& 0 <= index < entries.len()
    &&& entries[index].cert_id == id
    &&& forall|earlier: int| 0 <= earlier < index ==> (#[trigger] entries[earlier]).cert_id != id
}

/// The place of the first entry of `entries` that is about the certificate
/// `id`, if there is one.
pub open spec fn first_match(entries: Seq<SingleResponseView>, id: OcspCertIdView) -> Option<int> {
    if exists|index: int| is_first_match(entries, id, index) {
        Some(choose|index: int| is_first_match(entries, id, index))
    } else {
        None
    }
}

/// The status that `entries` give for the certificate `id`: that of the first
/// entry about it, or nothing where no entry is about it.
pub open spec fn status_in(entries: Seq<SingleResponseView>, id: OcspCertIdView) -> Option<
    StatusView,
> {
    match first_match(entries, id) {
        Some(index) => Some(status_of(entries[index])),
        None => None,
    }
}

/// An entry that is about `id` and has none about `id` before it is the
/// first match, and no other place is.
pub proof fn lemma_first_match_is(entries: Seq<SingleResponseView>, id: OcspCertIdView, index: int)
    requires
        is_first_match(entries, id, index),
    ensures
        first_match(entries, id) == Some(index),
{
    let chosen = choose|i: int| is_first_match(entries, id, i);
    assert(is_first_match(entries, id, chosen));
    if chosen < index {
        assert(entries[chosen].cert_id != id);
    } else if index < chosen {
        assert(entries[index].cert_id != id);
    }
}

/// Where no entry is about `id`, there is no first match.
pub proof fn lemma_no_match(entries: Seq<SingleResponseView>, id: OcspCertIdView)
    requires
        forall|i: int| 0 <= i < entries.len() ==> (#[trigger] entries[i]).cert_id != id,
    ensures
        first_match(entries, id) is None,
{
    if exists|index: int| is_first_match(entries, id, index) {
        let index = choose|index: int| is_first_match(entries, id, index);
        assert(entries[index].cert_id != id);
    }
}

/// The views of the entries of a body, in the body's order.
pub open spec fn entries_view(entries: Seq<OcspSingleResponse>) -> Seq<SingleResponseView> {
    entries.map_values(|entry: OcspSingleResponse| entry@)
}

/// The signed body of a response: one entry for each certificate that the
/// responder answers for, and the material by which the body is authenticated.
#[derive(Debug, PartialEq, Eq)]
pub struct OcspBasicResponse {
    responses: Vec<OcspSingleResponse>,
    signed_body: Vec<u8>,
}

/// A signed body as seen through a shared borrow.
pub type OcspBasicResponseRef = OcspBasicResponse;

/// The mathematical value of an [`OcspBasicResponse`].
pub struct BasicResponseView {
    /// The entries, in the order of the body.
    pub responses: Seq<SingleResponseView>,
    /// The encoding of the body with its responder, signature and
    /// certificates. This crate carries it and never reads it.
    pub signed_body: Seq<u8>,
}

impl View for OcspBasicResponse {
    type V = BasicResponseView;

    closed spec fn view(&self) -> BasicResponseView {
        BasicResponseView {
            responses: entries_view(self.responses@),
            signed_body: self.signed_body@,
        }
    }
}

impl OcspBasicResponse {
    /// The body with the entries `responses`, in their order, and the
    /// encoding `signed_body`. Whoever decoded the body answers for the
    /// entries being those that the encoding holds.
    pub fn new(responses: Vec<OcspSingleResponse>, signed_body: Vec<u8>) -> (body:
        OcspBasicResponse)
        ensures
            body@ == (BasicResponseView {
                responses: entries_view(responses@),
                signed_body: signed_body@,
            }),
    {
        OcspBasicResponse { responses, signed_body }
    }

    /// The number of entries.
    pub fn len(&self) -> (count: usize)
        ensures
            count == self@.responses.len(),
    {
        self.responses.len()
    }

    /// The entry at `index`, counted from zero, if there is one.
    pub fn get(&self, index: usize) -> (entry: Option<&OcspSingleResponse>)
        ensures
            entry is Some <==> index < self@.responses.len(),
            entry is Some ==> entry.unwrap()@ == self@.responses[index as int],
    {
        if index < self.responses.len() {
            Some(&self.responses[index])
        } else {
            None
        }
    }

    /// The encoding of the body, for the verifier of its signature.
    pub fn signed_body(&self) -> (bytes: &[u8])
        ensures
            bytes@ == self@.signed_body,
    {
        self.signed_body.as_slice()
    }
}

impl Clone for OcspBasicResponse {
    /// A copy with the same entries and the same encoding.
    fn clone(&self) -> (copy: OcspBasicResponse)
        ensures
            copy@ == self@,
    {
        let mut responses: Vec<OcspSingleResponse> = Vec::new();
        let mut i: usize = 0;
        while i < self.responses.len()
            invariant
                i <= self.responses@.len(),
                responses@.len() == i,
                forall|j: int| 0 <= j < i ==> responses@[j]@ == self.responses@[j]@,
            decreases self.responses@.len() - i,
        {
            responses.push(self.responses[i].clone());
            i += 1;
        }
        assert(entries_view(responses@) =~= entries_view(self.responses@));
        OcspBasicResponse { responses, signed_body: slice_to_vec(self.signed_body.as_slice()) }
    }
}

impl OcspBasicResponseRef {
    /// Looks up the status for the specified certificate ID.
    ///
    /// The entries are searched in the order of the body, and the first one
    /// whose identifier equals `id` in algorithm, digests and serial number
    /// gives the status. Where none does there is no status.
    pub fn find_status<'a>(&'a self, id: &OcspCertIdRef) -> (found: Option<Status<'a>>)
        ensures
            match found {
                Some(status) => status_in(self@.responses, id@) == Some(status@),
                None => status_in(self@.responses, id@) is None,
            },
            found is Some <==> exists|place: int|
                0 <= place < self@.responses.len() && (#[trigger] self@.responses[place]).cert_id
                    == id@,
    {
        let mut i: usize = 0;
        while i < self.responses.len()
            invariant
                i <= self.responses@.len(),
                forall|j: int| 0 <= j < i ==> (#[trigger] self@.responses[j]).cert_id != id@,
            decreases self.responses@.len() - i,
        {
            let entry = &self.responses[i];
            if entry.cert_id.same_as(id) {
                proof {
                    lemma_first_match_is(self@.responses, id@, i as int);
                }
                let revoked = entry.cert_status.as_raw() == CERT_STATUS_REVOKED;
                let reason = if revoked {
                    entry.reason
                } else {
                    OcspRevokedStatus::from_raw(REVOKED_STATUS_NO_STATUS)
                };
                let revocation_time = if revoked {
                    entry.revocation_time.as_ref()
                } else {
                    None
                };
                return Some(
                    Status {
                        status: entry.cert_status,
                        reason,
                        revocation_time,
                        this_update: &entry.this_update,
                        next_update: &entry.next_update,
                    },
                );
            }
            i += 1;
        }
        proof {
            lemma_no_match(self@.responses, id@);
        }
        None
    }
}

/// In a body whose entries are about pairwise different certificates, the
/// lookup of the identifier of the entry at `place` finds that entry, at that
/// place and at no other, and gives its status.
pub proof fn lemma_lookup_of_distinct(entries: Seq<SingleResponseView>, place: int)
    requires
        0 <= place < entries.len(),
        forall|i: int, j: int|
            0 <= i < j < entries.len() ==> (#[trigger] entries[i]).cert_id != (
            #[trigger] entries[j]).cert_id,
    ensures
        first_match(entries, entries[place].cert_id) == Some(place),
        status_in(entries, entries[place].cert_id) == Some(status_of(entries[place])),
        forall|other: int|
            0 <= other < entries.len() && other != place ==> !is_first_match(
                entries,
                entries[place].cert_id,
                other,
            ),
{
    let id = entries[place].cert_id;
    assert forall|earlier: int| 0 <= earlier < place implies (#[trigger] entries[earlier]).cert_id
        != id by {
        assert(entries[earlier].cert_id != entries[place].cert_id);
    }
    lemma_first_match_is(entries, id, place);
    assert forall|other: int| 0 <= other < entries.len() && other != place implies !is_first_match(
        entries,
        id,
        other,
    ) by {
        if is_first_match(entries, id, other) {
            lemma_first_match_is(entries, id, other);
        }
    }
}

/// Where several entries are about one certificate, the lookup gives the
/// status of the earliest of them: of the entries at `first` and `later`,
/// which share an identifier that no entry before `first` has, it finds the
/// one at `first`. The lookup is a function of the entries and the
/// identifier, so every call on them gives this same status.
pub proof fn lemma_lookup_of_duplicates(entries: Seq<SingleResponseView>, first: int, later: int)
    requires
        0 <= first < later < entries.len(),
        entries[first].cert_id == entries[later].cert_id,
        forall|earlier: int|
            0 <= earlier < first ==> (#[trigger] entries[earlier]).cert_id
                != entries[first].cert_id,
    ensures
        first_match(entries, entries[later].cert_id) == Some(first),
        status_in(entries, entries[later].cert_id) == Some(status_of(entries[first])),
{
    lemma_first_match_is(entries, entries[later].cert_id, first);
}

/// Whenever an entry is about `id`, the lookup of `id` finds one: the
/// earliest such entry, which stands at or before every other.
pub proof fn lemma_lookup_finds(entries: Seq<SingleResponseView>, id: OcspCertIdView, place: int)
    requires
        0 <= place < entries.len(),
        entries[place].cert_id == id,
    ensures
        first_match(entries, id) is Some,
        0 <= first_match(entries, id).unwrap() <= place,
        entries[first_match(entries, id).unwrap()].cert_id == id,
    decreases place,
{
    if forall|earlier: int| 0 <= earlier < place ==> (#[trigger] entries[earlier]).cert_id != id {
        lemma_first_match_is(entries, id, place);
    } else {
        let earlier = choose|earlier: int|
            0 <= earlier < place && (#[trigger] entries[earlier]).cert_id == id;
        lemma_lookup_finds(entries, id, earlier);
    }
}

/// A status names a time or a reason of revocation only for a certificate
/// that is revoked.
pub proof fn lemma_status_of_revoked_only(entry: SingleResponseView)
    ensures
        status_of(entry).revocation_time is Some ==> status_of(entry).status
            == CERT_STATUS_REVOKED,
        status_of(entry).reason != REVOKED_STATUS_NO_STATUS ==> status_of(entry).status
            == CERT_STATUS_REVOKED,
        status_of(entry).status == entry.cert_status,
        status_of(entry).this_update == entry.this_update,
        status_of(entry).next_update == entry.next_update,
{
}

} // verus!

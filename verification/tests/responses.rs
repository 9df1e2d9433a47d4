use ocsp::cert_id::OcspCertId;
use ocsp::error::{OcspError, StatusFault, ValidityFault};
use ocsp::hash::MessageDigest;
use ocsp::basic::{OcspBasicResponse, OcspSingleResponse, Status};
use ocsp::response::OcspResponse;
use ocsp::status::{
    OcspCertStatus, OcspResponseStatus, OcspRevokedStatus, CERT_STATUS_GOOD, CERT_STATUS_REVOKED,
    CERT_STATUS_UNKNOWN, RESPONSE_STATUS_SUCCESSFUL, RESPONSE_STATUS_TRY_LATER,
    RESPONSE_STATUS_UNAUTHORIZED, REVOKED_STATUS_KEY_COMPROMISE, REVOKED_STATUS_NO_STATUS,
    REVOKED_STATUS_SUPERSEDED,
};
use ocsp::time::Asn1GeneralizedTime;

const NOW: i64 = 1_700_000_000;

fn id(n: u8) -> OcspCertId {
    OcspCertId::from_parts(MessageDigest::Sha1, &[n; 20], &[n ^ 0xff; 20], &[0x01, n])
}

fn good(n: u8, this_update: i64, next_update: i64) -> OcspSingleResponse {
    OcspSingleResponse {
        cert_id: id(n),
        cert_status: OcspCertStatus::from_raw(CERT_STATUS_GOOD),
        reason: OcspRevokedStatus::from_raw(REVOKED_STATUS_NO_STATUS),
        revocation_time: None,
        this_update: Asn1GeneralizedTime::from_unix(this_update),
        next_update: Asn1GeneralizedTime::from_unix(next_update),
    }
}

fn revoked(n: u8, reason: i32, at: i64) -> OcspSingleResponse {
    OcspSingleResponse {
        cert_id: id(n),
        cert_status: OcspCertStatus::from_raw(CERT_STATUS_REVOKED),
        reason: OcspRevokedStatus::from_raw(reason),
        revocation_time: Some(Asn1GeneralizedTime::from_unix(at)),
        this_update: Asn1GeneralizedTime::from_unix(NOW - 10),
        next_update: Asn1GeneralizedTime::from_unix(NOW + 10),
    }
}

fn window<'a>(this_update: &'a Asn1GeneralizedTime, next_update: &'a Asn1GeneralizedTime) -> Status<'a> {
    Status {
        status: OcspCertStatus::from_raw(CERT_STATUS_GOOD),
        reason: OcspRevokedStatus::from_raw(REVOKED_STATUS_NO_STATUS),
        revocation_time: None,
        this_update,
        next_update,
    }
}

fn check(this_update: i64, next_update: i64, nsec: u32, maxsec: Option<u32>) -> Result<(), OcspError> {
    let this_update = Asn1GeneralizedTime::from_unix(this_update);
    let next_update = Asn1GeneralizedTime::from_unix(next_update);
    window(&this_update, &next_update).check_validity_at(
        Asn1GeneralizedTime::from_unix(NOW),
        nsec,
        maxsec,
    )
}

#[test]
fn find_status_of_distinct_entries() {
    let entries: Vec<OcspSingleResponse> =
        (0..5u8).map(|n| good(n, NOW + n as i64, NOW + 100 + n as i64)).collect();
    let body = OcspBasicResponse::new(entries, vec![0x30, 0x00]);
    assert_eq!(body.len(), 5);
    for n in 0..5u8 {
        let status = body.find_status(&id(n)).unwrap();
        assert_eq!(status.status.as_raw(), CERT_STATUS_GOOD);
        assert_eq!(status.this_update.as_unix(), NOW + n as i64);
        assert_eq!(status.next_update.as_unix(), NOW + 100 + n as i64);
        assert_eq!(status.this_update, &body.get(n as usize).unwrap().this_update);
    }
}

#[test]
fn find_status_without_match() {
    let body = OcspBasicResponse::new(vec![good(1, NOW, NOW + 1), good(2, NOW, NOW + 1)], vec![]);
    assert!(body.find_status(&id(3)).is_none());
    let other_digest = OcspCertId::from_parts(MessageDigest::Sha256, &[1; 20], &[0xfe; 20], &[1, 1]);
    assert!(body.find_status(&other_digest).is_none());
    let empty = OcspBasicResponse::new(vec![], vec![]);
    assert!(empty.find_status(&id(1)).is_none());
}

#[test]
fn find_status_takes_the_first_of_duplicates() {
    let body = OcspBasicResponse::new(
        vec![good(9, NOW, NOW + 1), good(4, NOW + 20, NOW + 30), revoked(4, 1, NOW - 5)],
        vec![],
    );
    for _ in 0..3 {
        let status = body.find_status(&id(4)).unwrap();
        assert_eq!(status.status.as_raw(), CERT_STATUS_GOOD);
        assert_eq!(status.this_update.as_unix(), NOW + 20);
        assert_eq!(status.next_update.as_unix(), NOW + 30);
        assert_eq!(status.revocation_time, None);
    }
    assert_eq!(body.find_status(&id(4)), body.find_status(&id(4)));
}

#[test]
fn find_status_of_revoked_entry() {
    let body = OcspBasicResponse::new(
        vec![good(1, NOW, NOW + 1), revoked(2, REVOKED_STATUS_KEY_COMPROMISE, NOW - 500)],
        vec![],
    );
    let status = body.find_status(&id(2)).unwrap();
    assert_eq!(status.status.as_raw(), CERT_STATUS_REVOKED);
    assert_eq!(status.reason.as_raw(), REVOKED_STATUS_KEY_COMPROMISE);
    assert_eq!(status.revocation_time.map(|t| t.as_unix()), Some(NOW - 500));
    assert_eq!(status.this_update.as_unix(), NOW - 10);
    assert_eq!(status.next_update.as_unix(), NOW + 10);
}

#[test]
fn find_status_reads_reason_only_when_revoked() {
    let mut entry = good(1, NOW, NOW + 1);
    entry.reason = OcspRevokedStatus::from_raw(REVOKED_STATUS_SUPERSEDED);
    entry.revocation_time = Some(Asn1GeneralizedTime::from_unix(NOW - 1));
    let mut unknown = good(2, NOW, NOW + 1);
    unknown.cert_status = OcspCertStatus::from_raw(CERT_STATUS_UNKNOWN);
    unknown.reason = OcspRevokedStatus::from_raw(REVOKED_STATUS_SUPERSEDED);
    let body = OcspBasicResponse::new(vec![entry, unknown], vec![]);
    let status = body.find_status(&id(1)).unwrap();
    assert_eq!(status.reason.as_raw(), REVOKED_STATUS_NO_STATUS);
    assert_eq!(status.revocation_time, None);
    let status = body.find_status(&id(2)).unwrap();
    assert_eq!(status.status.as_raw(), CERT_STATUS_UNKNOWN);
    assert_eq!(status.reason.as_raw(), REVOKED_STATUS_NO_STATUS);
    assert_eq!(status.revocation_time, None);
}

#[test]
fn revoked_reason_is_not_the_status_code() {
    let body = OcspBasicResponse::new(vec![revoked(1, REVOKED_STATUS_SUPERSEDED, NOW)], vec![]);
    let status = body.find_status(&id(1)).unwrap();
    assert_eq!(status.status.as_raw(), 1);
    assert_eq!(status.reason.as_raw(), 4);
}

#[test]
fn body_accessors() {
    let body = OcspBasicResponse::new(vec![good(1, NOW, NOW + 1)], vec![0x30, 0x03, 1, 2, 3]);
    assert_eq!(body.len(), 1);
    assert_eq!(body.get(0), Some(&good(1, NOW, NOW + 1)));
    assert_eq!(body.get(1), None);
    assert_eq!(body.signed_body(), &[0x30, 0x03, 1, 2, 3]);
    assert_eq!(body.clone(), body);
    assert_eq!(good(1, NOW, NOW + 1).clone(), good(1, NOW, NOW + 1));
}

#[test]
fn validity_inside_the_window() {
    assert_eq!(check(NOW - 10, NOW + 10, 0, None), Ok(()));
}

#[test]
fn validity_after_expiry() {
    assert_eq!(
        check(NOW - 10, NOW - 1, 0, None),
        Err(OcspError::TimeValidityError(ValidityFault::Expired))
    );
}

#[test]
fn validity_slack_absorbs_expiry() {
    assert_eq!(check(NOW - 10, NOW - 1, 2, None), Ok(()));
    assert_eq!(check(NOW - 10, NOW - 1, 1, None), Ok(()));
}

#[test]
fn validity_before_issue() {
    assert_eq!(
        check(NOW + 5, NOW + 10, 0, None),
        Err(OcspError::TimeValidityError(ValidityFault::NotYetValid))
    );
    assert_eq!(
        check(NOW + 5, NOW + 10, 4, None),
        Err(OcspError::TimeValidityError(ValidityFault::NotYetValid))
    );
    assert_eq!(check(NOW + 5, NOW + 10, 5, None), Ok(()));
}

#[test]
fn validity_at_the_bounds() {
    assert_eq!(check(NOW, NOW, 0, None), Ok(()));
    assert_eq!(check(NOW, NOW, 0, Some(0)), Ok(()));
    assert_eq!(check(NOW - 7, NOW + 1, 0, Some(7)), Ok(()));
    assert_eq!(
        check(NOW - 7, NOW + 1, 0, Some(6)),
        Err(OcspError::TimeValidityError(ValidityFault::TooOld))
    );
}

#[test]
fn validity_max_age() {
    assert_eq!(
        check(NOW - 100, NOW + 1_000_000, 0, Some(50)),
        Err(OcspError::TimeValidityError(ValidityFault::TooOld))
    );
    assert_eq!(check(NOW - 100, NOW + 1_000_000, 0, Some(200)), Ok(()));
    assert_eq!(check(NOW - 100, NOW + 1_000_000, 0, None), Ok(()));
}

#[test]
fn validity_reports_the_first_fault() {
    assert_eq!(
        check(NOW + 5, NOW - 5, 0, Some(1)),
        Err(OcspError::TimeValidityError(ValidityFault::NotYetValid))
    );
    assert_eq!(
        check(NOW - 100, NOW - 5, 0, Some(1)),
        Err(OcspError::TimeValidityError(ValidityFault::Expired))
    );
}

#[test]
fn validity_at_the_ends_of_time() {
    assert_eq!(check(i64::MIN, i64::MAX, u32::MAX, None), Ok(()));
    assert_eq!(
        check(i64::MAX, i64::MAX, u32::MAX, None),
        Err(OcspError::TimeValidityError(ValidityFault::NotYetValid))
    );
    assert_eq!(
        check(i64::MIN, i64::MIN, u32::MAX, Some(u32::MAX)),
        Err(OcspError::TimeValidityError(ValidityFault::Expired))
    );
    assert_eq!(
        check(i64::MIN, i64::MAX, 0, Some(u32::MAX)),
        Err(OcspError::TimeValidityError(ValidityFault::TooOld))
    );
}

#[test]
fn validity_against_the_clock() {
    let now = Asn1GeneralizedTime::now().as_unix();
    assert!(now > 1_600_000_000);
    let this_update = Asn1GeneralizedTime::from_unix(now - 10);
    let next_update = Asn1GeneralizedTime::from_unix(now + 10);
    let status = window(&this_update, &next_update);
    assert_eq!(status.check_validity(0, None), Ok(()));
    assert_eq!(status.check_validity(0, Some(3600)), Ok(()));
    let long_ago = Asn1GeneralizedTime::from_unix(now - 1000);
    let expired = window(&long_ago, &this_update);
    assert_eq!(
        expired.check_validity(0, None),
        Err(OcspError::TimeValidityError(ValidityFault::Expired))
    );
    let later = Asn1GeneralizedTime::from_unix(now + 1000);
    let early = window(&later, &later);
    assert_eq!(
        early.check_validity(5, None),
        Err(OcspError::TimeValidityError(ValidityFault::NotYetValid))
    );
    let stale = window(&long_ago, &later);
    assert_eq!(
        stale.check_validity(0, Some(50)),
        Err(OcspError::TimeValidityError(ValidityFault::TooOld))
    );
}

#[test]
fn clock_readings() {
    assert_eq!(Asn1GeneralizedTime::from_offset(Ok(0)).as_unix(), 0);
    assert_eq!(Asn1GeneralizedTime::from_offset(Ok(1_700_000_000)).as_unix(), 1_700_000_000);
    assert_eq!(Asn1GeneralizedTime::from_offset(Err(86_400)).as_unix(), -86_400);
    assert_eq!(Asn1GeneralizedTime::from_offset(Ok(u64::MAX)).as_unix(), i64::MAX);
    assert_eq!(Asn1GeneralizedTime::from_offset(Err(u64::MAX)).as_unix(), i64::MIN);
    assert_eq!(Asn1GeneralizedTime::from_offset(Err(1 << 63)).as_unix(), i64::MIN);
    assert_eq!(Asn1GeneralizedTime::from_offset(Ok(i64::MAX as u64)).as_unix(), i64::MAX);
}

#[test]
fn basic_of_unsuccessful_response() {
    let response =
        OcspResponse::create(OcspResponseStatus::from_raw(RESPONSE_STATUS_TRY_LATER), None)
            .unwrap();
    assert_eq!(response.status().as_raw(), RESPONSE_STATUS_TRY_LATER);
    assert_eq!(response.basic(), Err(OcspError::StatusError(StatusFault::NotSuccessful)));
}

#[test]
fn basic_of_successful_response() {
    let body = OcspBasicResponse::new(
        vec![good(1, NOW - 10, NOW + 10), revoked(2, 1, NOW - 500)],
        vec![0x30, 0x01, 0x00],
    );
    let response =
        OcspResponse::create(OcspResponseStatus::from_raw(RESPONSE_STATUS_SUCCESSFUL), Some(&body))
            .unwrap();
    assert_eq!(response.status().as_raw(), RESPONSE_STATUS_SUCCESSFUL);
    let extracted = response.basic().unwrap();
    assert_eq!(extracted, body);
    assert_eq!(extracted.find_status(&id(2)), body.find_status(&id(2)));
    assert_eq!(extracted.signed_body(), &[0x30, 0x01, 0x00]);
}

#[test]
fn basic_of_successful_response_without_body() {
    let response =
        OcspResponse::create(OcspResponseStatus::from_raw(RESPONSE_STATUS_SUCCESSFUL), None)
            .unwrap();
    assert_eq!(response.basic(), Err(OcspError::StatusError(StatusFault::MissingBody)));
}

#[test]
fn basic_of_unsuccessful_response_with_body() {
    let body = OcspBasicResponse::new(vec![good(1, NOW - 10, NOW + 10)], vec![]);
    let response = OcspResponse::create(
        OcspResponseStatus::from_raw(RESPONSE_STATUS_UNAUTHORIZED),
        Some(&body),
    )
    .unwrap();
    assert_eq!(response.status().as_raw(), RESPONSE_STATUS_UNAUTHORIZED);
    assert_eq!(response.body(), Some(&body));
    assert_eq!(response.basic(), Err(OcspError::StatusError(StatusFault::NotSuccessful)));
}

#[test]
fn body_of_response() {
    let body = OcspBasicResponse::new(vec![good(1, NOW - 10, NOW + 10)], vec![7]);
    let with = OcspResponse::create(OcspResponseStatus::from_raw(0), Some(&body)).unwrap();
    assert_eq!(with.body(), Some(&body));
    let without = OcspResponse::create(OcspResponseStatus::from_raw(0), None).unwrap();
    assert_eq!(without.body(), None);
}

#[test]
fn lookup_then_validity() {
    let body = OcspBasicResponse::new(vec![good(1, NOW - 10, NOW + 10)], vec![]);
    let response =
        OcspResponse::create(OcspResponseStatus::from_raw(RESPONSE_STATUS_SUCCESSFUL), Some(&body))
            .unwrap();
    let basic = response.basic().unwrap();
    let status = basic.find_status(&id(1)).unwrap();
    assert_eq!(
        status.check_validity_at(Asn1GeneralizedTime::from_unix(NOW), 0, Some(60)),
        Ok(())
    );
    assert_eq!(
        status.check_validity_at(Asn1GeneralizedTime::from_unix(NOW + 11), 0, Some(60)),
        Err(OcspError::TimeValidityError(ValidityFault::Expired))
    );
}

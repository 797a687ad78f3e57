//! What the core says about sources and repositories.

use brook::domain::id::{FileId, WorkerId};
use brook::ports::http::{is_transient_status, InspectError, InspectReport, RangeError, RangeGuard};
use brook::ports::noop_repos::{NoopAttemptRepo, NoopWorkerRepo};

#[test]
fn range_guard_prefers_etag_over_last_modified() {
    let report = InspectReport {
        total_size: Some(100),
        accepts_ranges: true,
        etag: Some("\"abc\"".into()),
        last_modified: Some("Wed, 21 Oct 2015 07:28:00 GMT".into()),
        filename: None,
    };
    assert_eq!(
        RangeGuard::from_report(&report),
        Some(RangeGuard::Etag("\"abc\"".into()))
    );
}

#[test]
fn range_guard_falls_back_to_last_modified() {
    let report = InspectReport {
        total_size: Some(100),
        accepts_ranges: true,
        etag: None,
        last_modified: Some("Wed, 21 Oct 2015 07:28:00 GMT".into()),
        filename: None,
    };
    assert_eq!(
        RangeGuard::from_report(&report),
        Some(RangeGuard::LastModified(
            "Wed, 21 Oct 2015 07:28:00 GMT".into()
        ))
    );
}

#[test]
fn range_guard_returns_none_when_no_headers() {
    let report = InspectReport {
        total_size: None,
        accepts_ranges: false,
        etag: None,
        last_modified: None,
        filename: None,
    };
    assert_eq!(RangeGuard::from_report(&report), None);
}

#[test]
fn inspect_error_transient_classification() {
    assert!(InspectError::Network("x".into()).is_transient());
    assert!(InspectError::Timeout.is_transient());
    assert!(InspectError::UnexpectedStatus { code: 503 }.is_transient());
    assert!(InspectError::UnexpectedStatus { code: 429 }.is_transient());
    assert!(InspectError::UnexpectedStatus { code: 408 }.is_transient());

    assert!(!InspectError::UnexpectedStatus { code: 404 }.is_transient());
    assert!(!InspectError::UnexpectedStatus { code: 400 }.is_transient());
    assert!(!InspectError::InvalidScheme("ftp".into()).is_transient());
    assert!(!InspectError::Malformed("x".into()).is_transient());
}

#[test]
fn range_error_transient_classification() {
    assert!(RangeError::Network("x".into()).is_transient());
    assert!(RangeError::Timeout.is_transient());
    assert!(RangeError::TruncatedResponse.is_transient());
    assert!(RangeError::UnexpectedStatus { code: 502 }.is_transient());

    assert!(!RangeError::SourceMutated.is_transient());
    assert!(!RangeError::RangeNotSupported.is_transient());
    assert!(!RangeError::InvalidScheme("file".into()).is_transient());
    assert!(!RangeError::UnexpectedStatus { code: 404 }.is_transient());
}

#[test]
fn transient_statuses_are_408_429_and_5xx() {
    for code in 0..1000u16 {
        let expected = code == 408 || code == 429 || (500..600).contains(&code);
        assert_eq!(is_transient_status(code), expected, "status {code}");
    }
}

#[test]
fn request_errors_name_the_status() {
    assert!(RangeError::UnexpectedStatus { code: 404 }.to_string().contains("404"));
    assert!(InspectError::UnexpectedStatus { code: 503 }.to_string().contains("503"));
    assert!(RangeError::Network("reset".into()).to_string().contains("reset"));
    assert!(InspectError::InvalidScheme("ftp".into()).to_string().contains("ftp"));
}

#[test]
fn noop_repositories_keep_nothing() {
    let rows = NoopWorkerRepo.ensure_slots(FileId::new(), 4).unwrap();
    assert!(rows.is_empty());
    let worker = WorkerId::new();
    let row = NoopAttemptRepo.start(FileId::new(), 3, worker).unwrap();
    assert_eq!(row.worker_id, worker);
}

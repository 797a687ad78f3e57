//! The boundary to clients.

use std::path::PathBuf;
use std::sync::Arc;

use brook::api::auth::{check_bearer, AuthInterceptor};
use brook::api::mapper::{
    core_err_to_status, file_to_proto, id_from_proto, id_from_proto_opt, id_or_refusal, id_to_proto,
    lifecycle_event_to_proto, progress_event_to_proto, snapshot_event, spec_from_proto,
    spec_to_proto, status_to_proto, systime_to_proto,
};
use brook::api::proto;
use brook::api::service::{
    added_file, allowed_spec, checked_add, effective_limit, files_page, ok_status,
    since_of_recent, spec_of_add, watch_status_lagged, ApiSettings,
};
use brook::api::status::Code;
use brook::api::trace::{correlation_ids, TraceInterceptor};
use brook::domain::event::{FileLifecycleEvent, ProgressEvent};
use brook::domain::file::File;
use brook::domain::id::{FileId, ParseIdError};
use brook::domain::progress::ProgressCounts;
use brook::domain::spec::FileSpec;
use brook::domain::status::FileStatus;
use brook::domain::time::Moment;
use brook::error::Error;
use brook::TPathPolicy;

fn core_spec(url: &str) -> FileSpec {
    FileSpec::new(url, PathBuf::from("/tmp"))
}

#[test]
fn missing_header_is_unauthenticated() {
    let err = check_bearer(None, "s3cr3t").unwrap_err();
    assert_eq!(err.code(), Code::Unauthenticated);
}

#[test]
fn wrong_scheme_is_unauthenticated() {
    let err = check_bearer(Some(b"Basic s3cr3t"), "s3cr3t").unwrap_err();
    assert_eq!(err.code(), Code::Unauthenticated);
}

#[test]
fn wrong_token_is_unauthenticated() {
    let err = check_bearer(Some(b"bearer wrong"), "s3cr3t").unwrap_err();
    assert_eq!(err.code(), Code::Unauthenticated);
}

#[test]
fn correct_token_passes() {
    check_bearer(Some(b"bearer s3cr3t"), "s3cr3t").unwrap();
}

#[test]
fn case_insensitive_scheme() {
    check_bearer(Some(b"Bearer s3cr3t"), "s3cr3t").unwrap();
}

#[test]
fn refusals_say_what_is_wrong() {
    let text = |header: Option<&[u8]>| check_bearer(header, "s3cr3t").unwrap_err().message;
    assert_eq!(text(None), "missing authorization header");
    assert_eq!(text(Some(b"bearer \xff")), "authorization header is not ASCII");
    assert_eq!(text(Some(b"bearer")), "expected `bearer <token>` scheme");
    assert_eq!(text(Some(b"")), "expected `bearer <token>` scheme");
    assert_eq!(text(Some(b"bearer s3cr3")), "invalid token");
    assert_eq!(text(Some(b"bearer s3cr3t ")), "invalid token");
    assert_eq!(text(Some(b"bearer S3CR3T")), "invalid token");
}

#[test]
fn interceptor_without_expected_is_passthrough() {
    let it = AuthInterceptor::new(None);
    it.authorize(None).unwrap();
    AuthInterceptor::default().authorize(Some(b"anything")).unwrap();
}

#[test]
fn interceptor_with_expected_rejects_missing_header() {
    let it = AuthInterceptor::new(Some(Arc::new("s3cr3t".into())));
    let err = it.authorize(None).unwrap_err();
    assert_eq!(err.code(), Code::Unauthenticated);
    it.clone().authorize(Some(b"BEARER s3cr3t")).unwrap();
}

#[test]
fn id_roundtrip() {
    let id = FileId::new();
    let p = id_to_proto(id);
    let back = id_from_proto(&p).unwrap();
    assert_eq!(id, back);
}

#[test]
fn id_from_empty_is_error() {
    let p = proto::FileId {
        value: String::new(),
    };
    assert!(id_from_proto(&p).is_err());
}

#[test]
fn id_from_garbage_is_error() {
    let p = proto::FileId {
        value: "not-a-uuid".into(),
    };
    assert!(id_from_proto(&p).is_err());
}

#[test]
fn refused_id_carries_its_reason() {
    let st = id_or_refusal(Err(ParseIdError { message: "too short".into() })).unwrap_err();
    assert_eq!(st.code(), Code::InvalidArgument);
    assert_eq!(st.message, "invalid file id: too short");
    let id = FileId::from_value(7);
    assert_eq!(id_or_refusal(Ok(id)), Ok(id));
}

#[test]
fn id_errors_are_invalid_arguments() {
    let p = proto::FileId { value: "not-a-uuid".into() };
    let st = id_from_proto_opt(Some(&p)).unwrap_err();
    assert_eq!(st.code(), Code::InvalidArgument);
    assert!(st.message.starts_with("invalid file id: "));
    assert!(st.message.len() > "invalid file id: ".len());
    let st = id_from_proto_opt(None).unwrap_err();
    assert_eq!(st.code(), Code::InvalidArgument);
    assert_eq!(st.message, "file id is required");
    let id = FileId::new();
    assert_eq!(id_from_proto_opt(Some(&id_to_proto(id))), Ok(id));
}

#[test]
fn spec_from_proto_validates_and_fills_defaults() {
    let p = proto::FileSpec {
        url: "https://example.com/f".into(),
        target_dir: "/tmp".into(),
        ..Default::default()
    };
    let s = spec_from_proto(p).unwrap();
    assert_eq!(s.url, "https://example.com/f");
    assert_eq!(s.target_dir, PathBuf::from("/tmp"));
    assert_eq!(s.filename, None);
}

#[test]
fn spec_from_proto_rejects_empty() {
    let p = proto::FileSpec {
        target_dir: "/tmp".into(),
        ..Default::default()
    };
    assert_eq!(
        spec_from_proto(p).unwrap_err().code(),
        Code::InvalidArgument
    );
}

#[test]
fn spec_from_proto_rejects_empty_directory() {
    let p = proto::FileSpec {
        url: "https://x".into(),
        ..Default::default()
    };
    let st = spec_from_proto(p).unwrap_err();
    assert_eq!(st.code(), Code::InvalidArgument);
    assert_eq!(st.message, "spec.target_dir is required");
}

#[test]
fn spec_from_proto_drops_empty_filename() {
    let p = proto::FileSpec {
        url: "https://x".into(),
        target_dir: "/tmp".into(),
        filename: Some(String::new()),
    };
    let s = spec_from_proto(p).unwrap();
    assert_eq!(s.filename, None);
}

#[test]
fn spec_roundtrip_through_proto() {
    let p = proto::FileSpec {
        url: "https://x/y".into(),
        target_dir: "/tmp/д/é".into(),
        filename: Some("a.bin".into()),
    };
    let back = spec_to_proto(&spec_from_proto(p.clone()).unwrap());
    assert_eq!(back, p);
}

#[test]
fn file_roundtrip_through_proto_keeps_fields() {
    let id = FileId::new();
    let mut d = File::new(id, core_spec("https://x"));
    d.status = FileStatus::Running;
    d.attempt = 3;
    d.error = Some("boom".into());
    let p = file_to_proto(&d);
    assert_eq!(p.id.value, id.to_string());
    assert_eq!(p.status, proto::FileStatus::Running);
    assert_eq!(p.attempt, 3);
    assert_eq!(p.error.as_deref(), Some("boom"));
    assert_eq!(snapshot_event(&d).file, p);
}

#[test]
fn lifecycle_event_mapper_covers_all_variants() {
    let id = FileId::new();
    let d = File::new(id, core_spec("https://x"));
    let variants = [
        FileLifecycleEvent::status(id, FileStatus::Paused),
        FileLifecycleEvent::status(id, FileStatus::Done),
        FileLifecycleEvent::failed(id, "e".into()),
        FileLifecycleEvent::status(d.id, d.status),
    ];
    for ev in &variants {
        let p = lifecycle_event_to_proto(ev);
        assert_ne!(p.status, proto::FileStatus::Unspecified, "status must be set for {ev:?}");
        assert_eq!(p.file_id.value, id.to_string());
        assert_eq!(p.description, ev.description);
    }
}

#[test]
fn progress_counts_are_mapped() {
    let id = FileId::new();
    let tick = progress_event_to_proto(&ProgressEvent::Tick {
        id,
        progress: ProgressCounts {
            bytes_done: 50,
            bytes_total: 100,
            pieces_done: 1,
            pieces_total: 2,
        },
    });
    assert_eq!(tick.file_id.value, id.to_string());
    assert_eq!(tick.bytes_done, 50);
    assert_eq!(tick.bytes_total, 100);
}

#[test]
fn state_enum_parity() {
    for s in [
        FileStatus::Pending,
        FileStatus::Running,
        FileStatus::Paused,
        FileStatus::Retrying,
        FileStatus::Done,
        FileStatus::Failed,
        FileStatus::Cancelled,
    ] {
        assert_ne!(status_to_proto(s), proto::FileStatus::Unspecified);
    }
}

#[test]
fn times_before_1970_are_shown_as_its_start() {
    let p = systime_to_proto(Moment { secs: -1, nanos: 5 });
    assert_eq!(p, proto::Timestamp { seconds: 0, nanos: 0 });
    let p = systime_to_proto(Moment { secs: 12, nanos: 999_999_999 });
    assert_eq!(p, proto::Timestamp { seconds: 12, nanos: 999_999_999 });
}

#[test]
fn core_err_not_found_to_status() {
    let st = core_err_to_status(Error::NotFound);
    assert_eq!(st.code(), Code::NotFound);
}

#[test]
fn core_err_terminal_to_failed_precondition() {
    let st = core_err_to_status(Error::Other("download is terminal".into()));
    assert_eq!(st.code(), Code::FailedPrecondition);
}

#[test]
fn every_core_error_has_its_answer() {
    let answer = |e: Error| {
        let st = core_err_to_status(e);
        (st.code, st.message)
    };
    assert_eq!(answer(Error::NotFound), (Code::NotFound, "file not found".into()));
    assert_eq!(
        answer(Error::SourceMutated),
        (Code::Aborted, "source changed while downloading".into())
    );
    assert_eq!(
        answer(Error::TruncatedResponse),
        (Code::DataLoss, "truncated response from source".into())
    );
    assert_eq!(
        answer(Error::FileExists { filename: "a".into() }),
        (Code::AlreadyExists, "file already exists: a".into())
    );
    assert_eq!(
        answer(Error::PathEscapesRoot { attempted: "../a".into() }).0,
        Code::PermissionDenied
    );
    assert_eq!(
        answer(Error::Io { os_code: None, message: "x".into() }),
        (Code::Internal, "io error: x".into())
    );
    assert_eq!(answer(Error::Other("boom".into())), (Code::Internal, "boom".into()));
}

#[test]
fn interceptor_injects_correlation_when_headers_missing() {
    let ids = correlation_ids(None, None);
    assert!(!ids.session_id.is_empty());
    assert!(!ids.request_id.is_empty());
    assert_ne!(ids.session_id, ids.request_id);
}

#[test]
fn interceptor_preserves_client_headers() {
    let ids = TraceInterceptor.identify(Some("sess-123".into()), Some("req-456".into()));
    assert_eq!(ids.session_id, "sess-123");
    assert_eq!(ids.request_id, "req-456");
}

#[test]
fn add_without_spec_is_invalid_argument() {
    let st = spec_of_add(None).unwrap_err();
    assert_eq!(st.code(), Code::InvalidArgument);
    assert_eq!(st.message, "spec is required");
    let p = proto::FileSpec { url: "https://x".into(), target_dir: "/d".into(), filename: None };
    assert_eq!(spec_of_add(Some(p)).unwrap().url, "https://x");
}

#[test]
fn invalid_id_rejected() {
    let p = proto::FileId { value: "not-a-uuid".into() };
    assert_eq!(id_from_proto_opt(Some(&p)).unwrap_err().code(), Code::InvalidArgument);
}

#[test]
fn get_settings_returns_defaults() {
    assert_eq!(ApiSettings::default().max_concurrent, 3);
    assert!(ApiSettings::default().default_dir.is_empty());
    let s = ApiSettings { default_dir: "/downloads".into(), ..ApiSettings::default() };
    assert_eq!(s.clone().default_dir, "/downloads");
}

#[test]
fn vanished_file_is_an_internal_error() {
    assert_eq!(added_file(None).unwrap_err().code(), Code::Internal);
    let f = File::new(FileId::new(), core_spec("https://x"));
    assert_eq!(added_file(Some(f.clone())).unwrap().id.value, f.id.to_string());
}

#[test]
fn pages_are_limited() {
    assert_eq!(effective_limit(0), 50);
    assert_eq!(effective_limit(1), 1);
    assert_eq!(effective_limit(199), 199);
    assert_eq!(effective_limit(200), 200);
    assert_eq!(effective_limit(u32::MAX), 200);
}

#[test]
fn a_full_page_may_be_followed_by_another() {
    let files: Vec<File> = (0..3)
        .map(|i| File::new(FileId::new(), core_spec(&format!("https://x/{i}"))))
        .collect();
    let page = files_page(&files, 3);
    assert!(page.has_more);
    assert_eq!(page.files.len(), 3);
    assert_eq!(page.files[2].spec.url, "https://x/2");
    assert!(!files_page(&files, 50).has_more);
}

#[test]
fn lagging_watchers_are_told() {
    let st = watch_status_lagged();
    assert_eq!(st.code(), Code::DataLoss);
    assert_eq!(st.message, "watch_status lagged");
}

/// Allows what lies below one directory.
struct Below(PathBuf);

impl TPathPolicy for Below {
    fn check_target_dir(&self, target_dir: &PathBuf) -> Result<PathBuf, Error> {
        if target_dir.starts_with(&self.0) {
            Ok(target_dir.join("canonical"))
        } else {
            Err(Error::PathEscapesRoot { attempted: target_dir.display().to_string() })
        }
    }
}

#[test]
fn policy_decides_where_files_go() {
    let policy = Below(PathBuf::from("/srv"));
    let sent = |dir: &str| proto::FileSpec {
        url: "https://x".into(),
        target_dir: dir.into(),
        filename: Some("a".into()),
    };
    let spec = checked_add(&policy, Some(sent("/srv/d"))).unwrap();
    assert_eq!(spec.target_dir, PathBuf::from("/srv/d/canonical"));
    assert_eq!(spec.filename.as_deref(), Some("a"));
    let st = checked_add(&policy, Some(sent("/etc"))).unwrap_err();
    assert_eq!(st.code(), Code::PermissionDenied);
    assert_eq!(st.message, "path escapes sandbox root: /etc");
    assert_eq!(checked_add(&policy, Some(sent(""))).unwrap_err().message, "spec.target_dir is required");
    assert_eq!(checked_add(&policy, None).unwrap_err().message, "spec is required");
    let st = allowed_spec(core_spec("https://x"), Err(Error::NotFound)).unwrap_err();
    assert_eq!(st.code(), Code::NotFound);
}

#[test]
fn recent_files_need_a_start() {
    assert_eq!(since_of_recent(None).unwrap_err().message, "since is required");
    let bad = proto::Timestamp { seconds: 1, nanos: -1 };
    assert_eq!(since_of_recent(Some(&bad)).unwrap_err().code(), Code::InvalidArgument);
    let now = Moment { secs: 5, nanos: 7 };
    assert_eq!(since_of_recent(Some(&systime_to_proto(now))), Ok(now));
}

#[test]
fn commands_are_answered_without_a_text() {
    let s = ok_status();
    assert!(s.ok);
    assert!(s.message.is_empty());
}

#[test]
fn statuses_are_told_apart() {
    let all = [
        FileStatus::Pending,
        FileStatus::Running,
        FileStatus::Paused,
        FileStatus::Retrying,
        FileStatus::Done,
        FileStatus::Failed,
        FileStatus::Cancelled,
    ];
    for a in all {
        for b in all {
            assert_eq!(status_to_proto(a) == status_to_proto(b), a == b);
        }
    }
}

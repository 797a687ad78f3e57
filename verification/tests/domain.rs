//! The vocabulary of the core.

use std::collections::HashSet;
use std::path::PathBuf;

use brook::domain::command::{DownloadCommand, FileCommand};
use brook::domain::download::{default_workers, Download, DownloadId, DownloadSpec};
use brook::domain::event::{FileLifecycleEvent, ProgressEvent};
use brook::domain::file::File;
use brook::domain::id::{AttemptId, FileId, WorkerId};
use brook::domain::progress::ProgressCounts;
use brook::domain::reason::{FailureReason, ReasonCode};
use brook::domain::spec::{compute_workers, FileSpec, MAX_WORKERS};
use brook::domain::state::DownloadState;
use brook::domain::status::{AttemptStatus, FileStatus, PieceStatus, WorkerStatus};
use brook::domain::time::Moment;
use brook::error::Error;
use brook::text::{concat2, contains_text, decimal_text, same_text};

fn dir(s: &str) -> PathBuf {
    PathBuf::from(s)
}

#[test]
fn copy_is_implemented() {
    fn take(_c: DownloadCommand) {}
    let c = DownloadCommand::Pause;
    take(c);
    assert_eq!(c, DownloadCommand::Pause);
}

#[test]
fn file_commands_are_download_commands() {
    let c: FileCommand = DownloadCommand::Cancel;
    assert_eq!(c, FileCommand::Cancel);
    assert_ne!(c, FileCommand::Resume);
}

#[test]
fn file_new_starts_in_pending() {
    let d = File::new(FileId::new(), FileSpec::new("https://example.com/f", dir("/tmp")));
    assert_eq!(d.status, FileStatus::Pending);
    assert_eq!(d.attempt, 0);
    assert!(d.error.is_none());
    assert_eq!(d.created_at, d.updated_at);
}

#[test]
fn new_starts_in_queued() {
    let d = Download::new(
        DownloadId::new(),
        DownloadSpec::new("https://example.com/f", dir("/tmp")),
    );
    assert_eq!(d.state, DownloadState::Queued);
    assert_eq!(d.attempt, 0);
    assert!(d.error.is_none());
    assert_eq!(d.progress, ProgressCounts::default());
    assert_eq!(d.created_at, d.updated_at);
}

#[test]
fn file_keeps_its_id_and_spec() {
    let id = FileId::new();
    let spec = FileSpec::new("https://example.com/f", dir("/tmp"));
    let now = Moment { secs: 7, nanos: 9 };
    let f = File::new_at(id, spec.clone(), now);
    assert_eq!(f.id, id);
    assert_eq!(f.spec, spec);
    assert_eq!(f.created_at, now);
    assert_eq!(f.updated_at, now);
}

#[test]
fn new_ids_are_unique() {
    assert_ne!(FileId::new(), FileId::new());
    assert_ne!(WorkerId::new(), WorkerId::new());
    assert_ne!(AttemptId::new(), AttemptId::new());
}

#[test]
fn display_parse_roundtrip() {
    let id = FileId::new();
    let s = id.to_string();
    let parsed: FileId = s.parse().expect("valid uuid string");
    assert_eq!(id, parsed);
}

#[test]
fn parse_rejects_garbage() {
    assert!("not-a-uuid".parse::<FileId>().is_err());
}

#[test]
fn id_text_is_hyphenated() {
    let id = FileId::from_value(0x0123_4567_89ab_4def_8123_4567_89ab_cdef);
    assert_eq!(id.to_string(), "01234567-89ab-4def-8123-456789abcdef");
    assert_eq!(id.as_uuid(), 0x0123_4567_89ab_4def_8123_4567_89ab_cdef);
    assert_eq!(
        "01234567-89AB-4DEF-8123-456789ABCDEF".parse::<FileId>(),
        Ok(id)
    );
    assert_eq!(WorkerId::from_value(1).to_string(), "00000000-0000-0000-0000-000000000001");
    assert_eq!(
        "00000000-0000-0000-0000-000000000002".parse::<AttemptId>(),
        Ok(AttemptId::from_value(2))
    );
}

#[test]
fn fresh_ids_are_of_version_four() {
    let mut seen = HashSet::new();
    for _ in 0..50 {
        let id = FileId::new();
        let text = id.to_string();
        assert_eq!(text.len(), 36);
        assert_eq!(text.as_bytes()[14], b'4');
        assert!(matches!(text.as_bytes()[19], b'8' | b'9' | b'a' | b'b'));
        assert!(seen.insert(text));
    }
}

#[test]
fn default_counts_are_zeroed() {
    let p = ProgressCounts::default();
    assert_eq!(p.bytes_done, 0);
    assert_eq!(p.bytes_total, 0);
    assert_eq!(p.pieces_done, 0);
    assert_eq!(p.pieces_total, 0);
    assert_eq!(p.remaining(), None);
}

#[test]
fn remaining_bytes_never_go_below_zero() {
    let mut p = ProgressCounts { bytes_done: 30, bytes_total: 100, pieces_done: 0, pieces_total: 1 };
    assert_eq!(p.remaining(), Some(70));
    p.bytes_done = 120;
    assert_eq!(p.remaining(), Some(0));
}

#[test]
fn code_str_roundtrip_covers_all_variants() {
    for c in [
        ReasonCode::Network,
        ReasonCode::Timeout,
        ReasonCode::Http4xx,
        ReasonCode::Http5xx,
        ReasonCode::SourceMutated,
        ReasonCode::DiskFull,
        ReasonCode::InvalidResponse,
        ReasonCode::CancelledByUser,
        ReasonCode::Unknown,
    ] {
        let parsed: ReasonCode = c.as_str().parse().unwrap();
        assert_eq!(c, parsed);
    }
}

#[test]
fn missing_file_has_a_code() {
    assert_eq!("file_missing".parse::<ReasonCode>().unwrap(), ReasonCode::FileMissing);
    assert_eq!(ReasonCode::FileMissing.as_str(), "file_missing");
}

#[test]
fn parse_rejects_unknown_code() {
    assert!("bogus".parse::<ReasonCode>().is_err());
}

#[test]
fn from_error_maps_known_variants() {
    assert_eq!(
        ReasonCode::from_error(&Error::SourceMutated),
        ReasonCode::SourceMutated
    );
    assert_eq!(
        ReasonCode::from_error(&Error::TruncatedResponse),
        ReasonCode::InvalidResponse
    );
    assert_eq!(
        ReasonCode::from_error(&Error::Other("x".into())),
        ReasonCode::Unknown
    );
}

#[test]
fn full_disk_is_told_by_the_error_number() {
    let full = Error::Io { os_code: Some(28), message: "no space".into() };
    assert_eq!(ReasonCode::from_error(&full), ReasonCode::DiskFull);
    let other = Error::Io { os_code: Some(5), message: "io".into() };
    assert_eq!(ReasonCode::from_error(&other), ReasonCode::Network);
    let none = Error::Io { os_code: None, message: "io".into() };
    assert_eq!(ReasonCode::from_error(&none), ReasonCode::Network);
}

#[test]
fn failure_reason_display_includes_message() {
    let r = FailureReason::with_message(ReasonCode::Timeout, "deadline 30s");
    assert_eq!(r.to_string(), "timeout: deadline 30s");
    let r = FailureReason::new(ReasonCode::Network);
    assert_eq!(r.to_string(), "network");
}

#[test]
fn failure_reason_keeps_the_text_of_the_error() {
    let r = FailureReason::from_error(&Error::SourceMutated);
    assert_eq!(r.code, ReasonCode::SourceMutated);
    assert_eq!(r.message, Some(Error::SourceMutated.to_string()));
}

#[test]
fn spec_new_fills_sensible_defaults() {
    let spec = FileSpec::new("https://example.com/f", dir("/tmp"));
    assert_eq!(spec.url, "https://example.com/f");
    assert_eq!(spec.target_dir, PathBuf::from("/tmp"));
    assert_eq!(spec.filename, None);
}

#[test]
fn new_fills_sensible_defaults() {
    let spec = DownloadSpec::new("https://example.com/f", dir("/tmp"));
    assert_eq!(spec.url, "https://example.com/f");
    assert_eq!(spec.target_dir, PathBuf::from("/tmp"));
    assert_eq!(spec.filename, None);
    assert!(spec.headers.is_empty());
    assert_eq!(spec.workers, default_workers());
}

#[test]
fn spec_equality_is_structural() {
    let a = FileSpec::new("https://a", dir("/d"));
    let b = FileSpec::new("https://a", dir("/d"));
    assert_eq!(a, b);
}

#[test]
fn equality_is_structural() {
    let a = DownloadSpec::new("https://a", dir("/d"));
    let b = DownloadSpec::new("https://a", dir("/d"));
    assert_eq!(a, b);
}

#[test]
fn cloned_spec_keeps_its_directory() {
    let mut a = FileSpec::new("https://a", dir("/d/e"));
    a.filename = Some("f.bin".into());
    let b = a.clone();
    assert_eq!(b.target_dir, PathBuf::from("/d/e"));
    assert_eq!(a, b);
}

#[test]
fn compute_workers_clamps_small_files_to_one() {
    assert_eq!(compute_workers(0), 1);
    assert_eq!(compute_workers(1), 1);
    assert_eq!(compute_workers(5 * 1024 * 1024), 1);
    assert_eq!(compute_workers(10 * 1024 * 1024), 1);
}

#[test]
fn compute_workers_follows_log_curve() {
    assert_eq!(compute_workers(40 * 1024 * 1024), 2);
    assert_eq!(compute_workers(100 * 1024 * 1024), 4);
    assert_eq!(compute_workers(1024 * 1024 * 1024), 7);
    assert_eq!(compute_workers(10 * 1024 * 1024 * 1024), 10);
}

#[test]
fn compute_workers_clamps_to_max() {
    assert_eq!(compute_workers(1024 * 1024 * 1024 * 1024), MAX_WORKERS);
    assert_eq!(compute_workers(u64::MAX), MAX_WORKERS);
}

#[test]
fn larger_files_never_get_fewer_workers() {
    let mut last = 0;
    let mut size: u64 = 1;
    for _ in 0..60 {
        let n = compute_workers(size);
        assert!(n >= last);
        last = n;
        size = size * 2;
    }
}

#[test]
fn terminal_vs_active() {
    assert!(DownloadState::Done.is_terminal());
    assert!(DownloadState::Failed.is_terminal());
    assert!(DownloadState::Cancelled.is_terminal());
    assert!(!DownloadState::Queued.is_terminal());

    assert!(DownloadState::Running.is_active());
    assert!(DownloadState::Retrying.is_active());
    assert!(!DownloadState::Paused.is_active());
}

#[test]
fn str_roundtrip_covers_all_variants() {
    for s in [
        DownloadState::Queued,
        DownloadState::Running,
        DownloadState::Paused,
        DownloadState::Retrying,
        DownloadState::Done,
        DownloadState::Failed,
        DownloadState::Cancelled,
    ] {
        let parsed: DownloadState = s.as_str().parse().unwrap();
        assert_eq!(s, parsed);
    }
}

#[test]
fn state_parse_rejects_unknown() {
    assert!("bogus".parse::<DownloadState>().is_err());
}

#[test]
fn file_terminal_vs_active() {
    assert!(FileStatus::Done.is_terminal());
    assert!(FileStatus::Failed.is_terminal());
    assert!(FileStatus::Cancelled.is_terminal());
    assert!(!FileStatus::Pending.is_terminal());

    assert!(FileStatus::Running.is_active());
    assert!(FileStatus::Retrying.is_active());
    assert!(!FileStatus::Paused.is_active());
}

#[test]
fn file_status_roundtrip() {
    for s in [
        FileStatus::Pending,
        FileStatus::Running,
        FileStatus::Paused,
        FileStatus::Retrying,
        FileStatus::Done,
        FileStatus::Failed,
        FileStatus::Cancelled,
    ] {
        let parsed: FileStatus = s.as_str().parse().unwrap();
        assert_eq!(s, parsed);
    }
}

#[test]
fn worker_status_roundtrip() {
    for s in [
        WorkerStatus::Running,
        WorkerStatus::Paused,
        WorkerStatus::Done,
        WorkerStatus::Failed,
        WorkerStatus::Cancelled,
    ] {
        let parsed: WorkerStatus = s.as_str().parse().unwrap();
        assert_eq!(s, parsed);
    }
}

#[test]
fn piece_status_roundtrip() {
    for s in [
        PieceStatus::Pending,
        PieceStatus::Running,
        PieceStatus::Done,
    ] {
        let parsed: PieceStatus = s.as_str().parse().unwrap();
        assert_eq!(s, parsed);
    }
}

#[test]
fn attempt_status_roundtrip() {
    for s in [
        AttemptStatus::Running,
        AttemptStatus::Paused,
        AttemptStatus::Done,
        AttemptStatus::Failed,
        AttemptStatus::Cancelled,
    ] {
        let parsed: AttemptStatus = s.as_str().parse().unwrap();
        assert_eq!(s, parsed);
    }
}

#[test]
fn status_parse_rejects_unknown() {
    assert!("bogus".parse::<FileStatus>().is_err());
    assert!("pending".parse::<WorkerStatus>().is_err());
    assert!("retrying".parse::<PieceStatus>().is_err());
    assert!("pending".parse::<AttemptStatus>().is_err());
}

#[test]
fn statuses_have_their_names() {
    assert_eq!(FileStatus::Pending.as_str(), "pending");
    assert_eq!(FileStatus::Retrying.to_string(), "retrying");
    assert_eq!(WorkerStatus::Cancelled.as_str(), "cancelled");
    assert_eq!(PieceStatus::Running.as_str(), "running");
    assert_eq!(AttemptStatus::Failed.as_str(), "failed");
    assert_eq!(DownloadState::Queued.as_str(), "queued");
}

#[test]
fn errors_read_as_people_expect() {
    assert_eq!(Error::NotFound.to_string(), "not found");
    assert!(Error::FileExists { filename: "a.bin".into() }.is_file_exists());
    assert!(!Error::NotFound.is_file_exists());
    let text = Error::FileExists { filename: "a.bin".into() }.to_string();
    assert!(text.contains("a.bin"));
    let text = Error::PathEscapesRoot { attempted: "../x".into() }.to_string();
    assert!(text.contains("../x"));
    assert_eq!(Error::Other("boom".into()).to_string(), "boom");
    let e = Error::Io { os_code: Some(28), message: "no space".into() };
    assert_eq!(e.clone(), e);
}

#[test]
fn failed_event_carries_the_error() {
    let id = FileId::new();
    let ev = FileLifecycleEvent::failed(id, "boom".to_string());
    assert_eq!(ev.status, FileStatus::Failed);
    assert_eq!(ev.description.as_deref(), Some("boom"));
    let ev = FileLifecycleEvent::status(id, FileStatus::Paused);
    assert_eq!(ev.description, None);
    assert_eq!(ev.clone(), ev);
}

#[test]
fn tick_carries_counts() {
    let id = FileId::new();
    let progress = ProgressCounts { bytes_done: 1, bytes_total: 2, pieces_done: 0, pieces_total: 1 };
    let ProgressEvent::Tick { id: got, progress: p } = ProgressEvent::Tick { id, progress };
    assert_eq!(got, id);
    assert_eq!(p, progress);
}

#[test]
fn moments_are_ordered() {
    let a = Moment { secs: 1, nanos: 999 };
    let b = Moment { secs: 2, nanos: 0 };
    assert!(a.not_after(b));
    assert!(a.not_after(a));
    assert!(!b.not_after(a));
    assert_eq!(Moment::since_epoch(None), Moment { secs: 0, nanos: 0 });
    assert_eq!(Moment::since_epoch(Some((12, 34))), Moment { secs: 12, nanos: 34 });
    assert_eq!(Moment::since_epoch(Some((u64::MAX, 0))).secs, i64::MAX);
}

#[test]
fn the_clock_is_past_the_year_2020() {
    let now = Moment::now();
    assert!(now.secs > 1_577_836_800);
    assert!(now.nanos < 1_000_000_000);
    assert!(now.not_after(Moment::now()));
}

#[test]
fn text_helpers() {
    assert_eq!(decimal_text(0), "0");
    assert_eq!(decimal_text(1_234_567_890), "1234567890");
    assert_eq!(decimal_text(u64::MAX), "18446744073709551615");
    assert_eq!(concat2("ab", "cd"), "abcd");
    assert!(same_text("x", "x"));
    assert!(!same_text("x", "y"));
    assert!(contains_text("download is terminal", "terminal"));
    assert!(contains_text("терминал terminal", "terminal"));
    assert!(contains_text("abc", ""));
    assert!(contains_text("", ""));
    assert!(!contains_text("termina", "terminal"));
    assert!(!contains_text("term inal", "terminal"));
}

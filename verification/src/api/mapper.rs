//! From requests to the core and back.
//!
//! What a request lacks or garbles is answered as an invalid argument before the core sees
//! it.

use std::path::PathBuf;
use vstd::prelude::*;
use crate::domain::event::{FileLifecycleEvent, ProgressEvent};
use crate::domain::file::File;
use crate::domain::id::{hyphenated, uuid_parsed, FileId, ParseIdError};
use crate::domain::spec::FileSpec;
use crate::domain::status::FileStatus;
use crate::domain::time::Moment;
use crate::error::Error;
use crate::text::{clone_text, concat2, contains_text, holds};
use super::proto;
use super::status::{Code, Status};

verus! {

/// The path that `PathBuf::from` makes of a text.
pub uninterp spec fn path_from(s: Seq<char>) -> PathBuf;

/// Calls `PathBuf::from` on a text, which keeps the text as it is.
#[verifier::external_body]
fn path_of(s: String) -> (p: PathBuf)
    ensures
        p == path_from(s@),
{
    PathBuf::from(s)
}

/// Whether `t` is the text that `p` was made from, if it was made from one.
pub open spec fn tells_path(t: String, p: PathBuf) -> bool {
    forall|s: Seq<char>| p == #[trigger] path_from(s) ==> t@ == s
}

/// Calls `to_string_lossy` of a path. Of a path that was made from a text it gives that
/// text. Of another path it replaces what is not Unicode, of which nothing is stated.
#[verifier::external_body]
fn path_text(p: &PathBuf) -> (t: String)
    ensures
        tells_path(t, *p),
{
    p.to_string_lossy().into_owned()
}

/// The identifier as text.
pub fn id_to_proto(id: FileId) -> (p: proto::FileId)
    ensures
        p.value@ == hyphenated(id@),
{
    proto::FileId { value: id.to_string() }
}

/// The answer to a request whose identifier was read: the identifier, or an invalid argument
/// with the reason why the text is none.
pub fn id_or_refusal(parsed: Result<FileId, ParseIdError>) -> (r: Result<FileId, Status>)
    ensures
        match parsed {
            Ok(id) => r == Ok::<FileId, Status>(id),
            Err(e) => r matches Err(s) && s.says(
                Code::InvalidArgument,
                "invalid file id: "@ + e.message@,
            ),
        },
{
    match parsed {
        Ok(id) => Ok(id),
        Err(e) => Err(
            Status {
                code: Code::InvalidArgument,
                message: concat2("invalid file id: ", e.message.as_str()),
            },
        ),
    }
}

/// The identifier that a text stands for. What `id_to_proto` wrote is read back; a text that
/// is no identifier is an invalid argument.
pub fn id_from_proto(id: &proto::FileId) -> (r: Result<FileId, Status>)
    ensures
        match r {
            Ok(v) => (uuid_parsed(id.value@) matches Ok(u) && u == v@),
            Err(s) => (uuid_parsed(id.value@) matches Err(t) && s.says(
                Code::InvalidArgument,
                "invalid file id: "@ + t,
            )),
        },
        forall|v: FileId| id.value@ == hyphenated(#[trigger] v@) ==> (r matches Ok(w) && w == v),
{
    id_or_refusal(FileId::parse_text(id.value.as_str()))
}

/// The identifier of a request that has to name one.
pub fn id_from_proto_opt(id: Option<&proto::FileId>) -> (r: Result<FileId, Status>)
    ensures
        match id {
            None => r matches Err(s) && s.says(Code::InvalidArgument, "file id is required"@),
            Some(p) => match r {
                Ok(v) => (uuid_parsed(p.value@) matches Ok(u) && u == v@),
                Err(s) => (uuid_parsed(p.value@) matches Err(t) && s.says(
                    Code::InvalidArgument,
                    "invalid file id: "@ + t,
                )),
            },
        },
        id matches Some(p) ==> forall|v: FileId|
            p.value@ == hyphenated(#[trigger] v@) ==> (r matches Ok(w) && w == v),
{
    match id {
        None => Err(Status::new(Code::InvalidArgument, "file id is required")),
        Some(p) => id_from_proto(p),
    }
}

/// A name that a client chose; an empty one counts as none.
pub open spec fn named(filename: Option<String>) -> Option<String> {
    match filename {
        Some(f) => if f@.len() == 0 {
            None
        } else {
            Some(f)
        },
        None => None,
    }
}

/// The description of a file. An address and a directory are required; an empty name counts
/// as none.
pub fn spec_from_proto(s: proto::FileSpec) -> (r: Result<FileSpec, Status>)
    ensures
        if s.url@.len() == 0 {
            r matches Err(e) && e.says(Code::InvalidArgument, "spec.url is required"@)
        } else if s.target_dir@.len() == 0 {
            r matches Err(e) && e.says(Code::InvalidArgument, "spec.target_dir is required"@)
        } else {
            r == Ok::<FileSpec, Status>(
                FileSpec {
                    url: s.url,
                    target_dir: path_from(s.target_dir@),
                    filename: named(s.filename),
                    linear: false,
                },
            )
        },
{
    if s.url.as_str().is_empty() {
        return Err(Status::new(Code::InvalidArgument, "spec.url is required"));
    }
    if s.target_dir.as_str().is_empty() {
        return Err(Status::new(Code::InvalidArgument, "spec.target_dir is required"));
    }
    let filename: Option<String> = match s.filename {
        Some(f) => if f.as_str().is_empty() {
            None
        } else {
            Some(f)
        },
        None => None,
    };
    Ok(FileSpec { url: s.url, target_dir: path_of(s.target_dir), filename, linear: false })
}

/// The description of a file as clients see it.
pub fn spec_to_proto(s: &FileSpec) -> (p: proto::FileSpec)
    ensures
        p.url == s.url,
        tells_path(p.target_dir, s.target_dir),
        p.filename == s.filename,
{
    proto::FileSpec {
        url: s.url.clone(),
        target_dir: path_text(&s.target_dir),
        filename: clone_text(&s.filename),
    }
}

/// The status as clients see it.
pub open spec fn shown_status(s: FileStatus) -> proto::FileStatus {
    match s {
        FileStatus::Pending => proto::FileStatus::Pending,
        FileStatus::Running => proto::FileStatus::Running,
        FileStatus::Paused => proto::FileStatus::Paused,
        FileStatus::Retrying => proto::FileStatus::Retrying,
        FileStatus::Done => proto::FileStatus::Done,
        FileStatus::Failed => proto::FileStatus::Failed,
        FileStatus::Cancelled => proto::FileStatus::Cancelled,
    }
}

/// The status as clients see it.
pub fn status_to_proto(s: FileStatus) -> (p: proto::FileStatus)
    ensures
        p == shown_status(s),
        (s is Pending) <==> (p is Pending),
        (s is Running) <==> (p is Running),
        (s is Paused) <==> (p is Paused),
        (s is Retrying) <==> (p is Retrying),
        (s is Done) <==> (p is Done),
        (s is Failed) <==> (p is Failed),
        (s is Cancelled) <==> (p is Cancelled),
{
    match s {
        FileStatus::Pending => proto::FileStatus::Pending,
        FileStatus::Running => proto::FileStatus::Running,
        FileStatus::Paused => proto::FileStatus::Paused,
        FileStatus::Retrying => proto::FileStatus::Retrying,
        FileStatus::Done => proto::FileStatus::Done,
        FileStatus::Failed => proto::FileStatus::Failed,
        FileStatus::Cancelled => proto::FileStatus::Cancelled,
    }
}

/// Clients tell all statuses apart, and none of them reads as unset.
pub proof fn statuses_are_told_apart(a: FileStatus, b: FileStatus)
    ensures
        shown_status(a) == shown_status(b) ==> a == b,
        shown_status(a) != proto::FileStatus::Unspecified,
{
}

/// The moment as clients see it; what lies before 1970 as the start of 1970.
pub open spec fn shown_time(t: Moment) -> proto::Timestamp {
    if t.secs >= 0 {
        proto::Timestamp { seconds: t.secs, nanos: t.nanos as i32 }
    } else {
        proto::Timestamp { seconds: 0, nanos: 0 }
    }
}

/// The moment as clients see it.
pub fn systime_to_proto(t: Moment) -> (p: proto::Timestamp)
    requires
        t.valid(),
    ensures
        p == shown_time(t),
{
    if t.secs >= 0 {
        proto::Timestamp { seconds: t.secs, nanos: t.nanos as i32 }
    } else {
        proto::Timestamp { seconds: 0, nanos: 0 }
    }
}

/// The moment that a client sent; `None` if it sent none, or one whose nanoseconds do not stay
/// within a second.
pub fn proto_ts_to_systime(ts: Option<&proto::Timestamp>) -> (t: Option<Moment>)
    ensures
        t == match ts {
            Some(p) => if 0 <= p.nanos < 1_000_000_000 {
                Some(Moment { secs: p.seconds, nanos: p.nanos as u32 })
            } else {
                None
            },
            None => None,
        },
{
    match ts {
        Some(p) => if 0 <= p.nanos && p.nanos < 1_000_000_000 {
            Some(Moment { secs: p.seconds, nanos: p.nanos as u32 })
        } else {
            None
        },
        None => None,
    }
}

/// What clients are shown of a moment since 1970 they can send back.
pub proof fn shown_time_reads_back(t: Moment, p: proto::Timestamp)
    requires
        t.valid(),
        t.secs >= 0,
        p == shown_time(t),
    ensures
        0 <= p.nanos < 1_000_000_000,
        t == (Moment { secs: p.seconds, nanos: p.nanos as u32 }),
{
}

/// A description that a client sent is shown to it again as it was, but for an empty name,
/// which counts as none.
pub proof fn spec_is_shown_as_sent(sent: proto::FileSpec, spec: FileSpec, shown: proto::FileSpec)
    requires
        spec.url == sent.url,
        spec.target_dir == path_from(sent.target_dir@),
        spec.filename == named(sent.filename),
        shown.url == spec.url,
        tells_path(shown.target_dir, spec.target_dir),
        shown.filename == spec.filename,
    ensures
        shown.url == sent.url,
        shown.target_dir@ == sent.target_dir@,
        shown.filename == named(sent.filename),
{
}

/// Whether `p` is the file `f` as clients see it.
pub open spec fn shows_file(p: proto::File, f: File) -> bool {
    &&& p.id.value@ == hyphenated(f.id@)
    &&& p.spec.url == f.spec.url
    &&& tells_path(p.spec.target_dir, f.spec.target_dir)
    &&& p.spec.filename == f.spec.filename
    &&& p.status == shown_status(f.status)
    &&& p.attempt == f.attempt
    &&& p.error == f.error
    &&& p.created_at == shown_time(f.created_at)
    &&& p.updated_at == shown_time(f.updated_at)
}

/// A file as clients see it.
pub fn file_to_proto(d: &File) -> (p: proto::File)
    requires
        d.created_at.valid(),
        d.updated_at.valid(),
    ensures
        shows_file(p, *d),
{
    proto::File {
        id: id_to_proto(d.id),
        spec: spec_to_proto(&d.spec),
        status: status_to_proto(d.status),
        attempt: d.attempt,
        error: clone_text(&d.error),
        created_at: systime_to_proto(d.created_at),
        updated_at: systime_to_proto(d.updated_at),
    }
}

/// A change of status as clients see it.
pub fn lifecycle_event_to_proto(ev: &FileLifecycleEvent) -> (p: proto::StatusEvent)
    ensures
        p.file_id.value@ == hyphenated(ev.id@),
        p.status == shown_status(ev.status),
        p.description == ev.description,
        (ev.status is Pending) <==> (p.status is Pending),
        (ev.status is Running) <==> (p.status is Running),
        (ev.status is Paused) <==> (p.status is Paused),
        (ev.status is Retrying) <==> (p.status is Retrying),
        (ev.status is Done) <==> (p.status is Done),
        (ev.status is Failed) <==> (p.status is Failed),
        (ev.status is Cancelled) <==> (p.status is Cancelled),
{
    proto::StatusEvent {
        file_id: id_to_proto(ev.id),
        status: status_to_proto(ev.status),
        description: clone_text(&ev.description),
    }
}

/// A file as it stands, as an event.
pub fn snapshot_event(d: &File) -> (p: proto::SnapshotEvent)
    requires
        d.created_at.valid(),
        d.updated_at.valid(),
    ensures
        shows_file(p.file, *d),
{
    proto::SnapshotEvent { file: file_to_proto(d) }
}

/// A tick of progress as clients see it.
pub fn progress_event_to_proto(ev: &ProgressEvent) -> (p: proto::ProgressTick)
    ensures
        p.file_id.value@ == hyphenated(ev->id@),
        p.bytes_done == ev->progress.bytes_done,
        p.bytes_total == ev->progress.bytes_total,
{
    match ev {
        ProgressEvent::Tick { id, progress } => proto::ProgressTick {
            file_id: id_to_proto(*id),
            bytes_done: progress.bytes_done,
            bytes_total: progress.bytes_total,
        },
    }
}

/// The kind of failure that an error of the core is answered with.
pub open spec fn code_of(e: Error) -> Code {
    match e {
        Error::NotFound => Code::NotFound,
        Error::SourceMutated => Code::Aborted,
        Error::TruncatedResponse => Code::DataLoss,
        Error::FileExists { filename } => Code::AlreadyExists,
        Error::PathEscapesRoot { attempted } => Code::PermissionDenied,
        Error::Io { os_code, message } => Code::Internal,
        Error::Other(message) => if holds(message@, "terminal"@) {
            Code::FailedPrecondition
        } else {
            Code::Internal
        },
    }
}

/// The text that an error of the core is answered with.
pub open spec fn answer_text(e: Error) -> Seq<char> {
    match e {
        Error::NotFound => "file not found"@,
        Error::SourceMutated => "source changed while downloading"@,
        Error::TruncatedResponse => "truncated response from source"@,
        Error::FileExists { filename } => "file already exists: "@ + filename@,
        Error::PathEscapesRoot { attempted } => "path escapes sandbox root: "@ + attempted@,
        Error::Io { os_code, message } => "io error: "@ + message@,
        Error::Other(message) => message@,
    }
}

/// The answer to a call that failed with an error of the core.
pub fn core_err_to_status(e: Error) -> (s: Status)
    ensures
        s.says(code_of(e), answer_text(e)),
{
    match e {
        Error::NotFound => Status::new(Code::NotFound, "file not found"),
        Error::SourceMutated => Status::new(Code::Aborted, "source changed while downloading"),
        Error::TruncatedResponse => Status::new(Code::DataLoss, "truncated response from source"),
        Error::FileExists { filename } => Status {
            code: Code::AlreadyExists,
            message: concat2("file already exists: ", filename.as_str()),
        },
        Error::PathEscapesRoot { attempted } => Status {
            code: Code::PermissionDenied,
            message: concat2("path escapes sandbox root: ", attempted.as_str()),
        },
        Error::Io { os_code: _, message } => Status {
            code: Code::Internal,
            message: concat2("io error: ", message.as_str()),
        },
        Error::Other(message) => {
            let code: Code = if contains_text(message.as_str(), "terminal") {
                Code::FailedPrecondition
            } else {
                Code::Internal
            };
            Status { code, message }
        },
    }
}

/// Each status is shown under its own name.
pub proof fn statuses_keep_their_names(s: FileStatus)
    ensures
        (s is Pending) <==> (shown_status(s) is Pending),
        (s is Running) <==> (shown_status(s) is Running),
        (s is Paused) <==> (shown_status(s) is Paused),
        (s is Retrying) <==> (shown_status(s) is Retrying),
        (s is Done) <==> (shown_status(s) is Done),
        (s is Failed) <==> (shown_status(s) is Failed),
        (s is Cancelled) <==> (shown_status(s) is Cancelled),
{
}

/// A file is shown as it is: under its own identifier, with its own description, status, number
/// of tries, error and times.
pub proof fn file_is_shown_as_it_is(p: proto::File, f: File)
    requires
        shows_file(p, f),
        f.created_at.valid(),
        f.updated_at.valid(),
    ensures
        p.id.value@ == hyphenated(f.id@),
        p.spec.url == f.spec.url,
        p.spec.filename == f.spec.filename,
        forall|sent: Seq<char>|
            f.spec.target_dir == #[trigger] path_from(sent) ==> p.spec.target_dir@ == sent,
        (f.status is Pending) <==> (p.status is Pending),
        (f.status is Running) <==> (p.status is Running),
        (f.status is Paused) <==> (p.status is Paused),
        (f.status is Retrying) <==> (p.status is Retrying),
        (f.status is Done) <==> (p.status is Done),
        (f.status is Failed) <==> (p.status is Failed),
        (f.status is Cancelled) <==> (p.status is Cancelled),
        p.attempt == f.attempt,
        p.error == f.error,
        f.created_at.secs >= 0 ==> p.created_at.seconds == f.created_at.secs && p.created_at.nanos
            == f.created_at.nanos,
        f.updated_at.secs >= 0 ==> p.updated_at.seconds == f.updated_at.secs && p.updated_at.nanos
            == f.updated_at.nanos,
{
}

/// What lies before 1970 is shown as the start of 1970, and later moments keep their order.
pub proof fn shown_times_keep_their_order(a: Moment, b: Moment)
    requires
        a.valid(),
        b.valid(),
    ensures
        a.secs < 0 ==> shown_time(a).seconds == 0 && shown_time(a).nanos == 0,
        a.secs < b.secs || (a.secs == b.secs && a.nanos <= b.nanos) ==> shown_time(a).seconds
            < shown_time(b).seconds || (shown_time(a).seconds == shown_time(b).seconds
            && shown_time(a).nanos <= shown_time(b).nanos),
{
}

/// An empty name counts as none; any other is taken as it was sent.
pub proof fn only_empty_names_are_dropped(filename: Option<String>)
    ensures
        named(filename) is None <==> (filename matches Some(f) ==> f@.len() == 0),
        named(filename) is Some ==> named(filename) == filename,
{
}

/// Each error of the core is answered by a kind of its own: a clash of names, a refused path, a
/// missing file, a changed source and a body that broke off are told apart. What has ended is a
/// failed precondition; everything else is an internal failure.
pub proof fn errors_are_told_apart(e: Error)
    ensures
        code_of(e) is NotFound <==> e is NotFound,
        code_of(e) is Aborted <==> e is SourceMutated,
        code_of(e) is DataLoss <==> e is TruncatedResponse,
        code_of(e) is AlreadyExists <==> e is FileExists,
        code_of(e) is PermissionDenied <==> e is PathEscapesRoot,
        code_of(e) is FailedPrecondition <==> (e matches Error::Other(message) && exists|i: int|
            0 <= i <= message@.len() - "terminal"@.len() && #[trigger] message@.subrange(
                i,
                i + "terminal"@.len(),
            ) == "terminal"@),
        code_of(e) is Internal <==> e is Io || (e is Other && !(code_of(e) is FailedPrecondition)),
{
}

/// The answer to an error names what the error is about.
pub proof fn answers_name_what_failed(e: Error, about: String, os_code: Option<i32>)
    ensures
        e == (Error::FileExists { filename: about }) ==> answer_text(e)
            == "file already exists: "@ + about@,
        e == (Error::PathEscapesRoot { attempted: about }) ==> answer_text(e)
            == "path escapes sandbox root: "@ + about@,
        e == (Error::Io { os_code, message: about }) ==> answer_text(e) == "io error: "@ + about@,
        e == Error::Other(about) ==> answer_text(e) == about@,
        e is NotFound ==> answer_text(e) == "file not found"@,
        e is SourceMutated ==> answer_text(e) == "source changed while downloading"@,
        e is TruncatedResponse ==> answer_text(e) == "truncated response from source"@,
{
}

} // verus!

//! What the handlers of single calls decide.

use std::path::PathBuf;
use vstd::prelude::*;
use crate::domain::file::File;
use crate::domain::spec::FileSpec;
use crate::domain::time::Moment;
use crate::error::Error;
use crate::ports::path_policy::TPathPolicy;
use super::mapper::{
    answer_text, code_of, core_err_to_status, file_to_proto, named, path_from,
    proto_ts_to_systime, shows_file, spec_from_proto,
};
use super::proto;
use super::status::{Code, Status};

verus! {

/// The settings that clients can ask for.
#[derive(Debug, Clone, PartialEq, Eq)]
pub struct ApiSettings {
    /// Where files go if the user chooses nothing else.
    pub default_dir: String,
    /// How many downloads at the same time the settings speak of. What the manager allows is
    /// said by its own configuration.
    pub max_concurrent: u32,
}

impl Default for ApiSettings {
    fn default() -> (s: ApiSettings)
        ensures
            s.default_dir@.len() == 0,
            s.max_concurrent == 3,
    {
        ApiSettings { default_dir: String::new(), max_concurrent: 3 }
    }
}

/// How many files a page has if the client does not say.
pub const DEFAULT_LIMIT: u32 = 50;

/// How many files a page has at most.
pub const MAX_LIMIT: u32 = 200;

/// The description that a request to add a file has to hold.
pub fn spec_of_add(spec: Option<proto::FileSpec>) -> (r: Result<FileSpec, Status>)
    ensures
        match spec {
            None => r matches Err(s) && s.says(Code::InvalidArgument, "spec is required"@),
            Some(p) => if p.url@.len() == 0 {
                r matches Err(s) && s.says(Code::InvalidArgument, "spec.url is required"@)
            } else if p.target_dir@.len() == 0 {
                r matches Err(s) && s.says(Code::InvalidArgument, "spec.target_dir is required"@)
            } else {
                r == Ok::<FileSpec, Status>(
                    FileSpec {
                        url: p.url,
                        target_dir: path_from(p.target_dir@),
                        filename: named(p.filename),
                        linear: false,
                    },
                )
            },
        },
{
    match spec {
        None => Err(Status::new(Code::InvalidArgument, "spec is required")),
        Some(p) => spec_from_proto(p),
    }
}

/// The description with the directory that the policy allows, or the refusal.
pub fn allowed_spec(spec: FileSpec, checked: Result<PathBuf, Error>) -> (r: Result<
    FileSpec,
    Status,
>)
    ensures
        match checked {
            Ok(dir) => r == Ok::<FileSpec, Status>(FileSpec { target_dir: dir, ..spec }),
            Err(e) => r matches Err(s) && s.says(code_of(e), answer_text(e)),
        },
{
    match checked {
        Ok(dir) => {
            let mut spec: FileSpec = spec;
            spec.target_dir = dir;
            Ok(spec)
        },
        Err(e) => Err(core_err_to_status(e)),
    }
}

/// Whether a request to add a file can lead to `r` under `policy`: what it lacks is refused
/// before the policy is asked. The policy is then asked about the directory that was sent, and
/// its answer decides: the file goes where the policy says, or the request is refused with the
/// policy's error.
pub open spec fn is_checked_add<P: TPathPolicy>(
    policy: &P,
    spec: Option<proto::FileSpec>,
    r: Result<FileSpec, Status>,
) -> bool {
    match spec {
        None => r matches Err(s) && s.says(Code::InvalidArgument, "spec is required"@),
        Some(p) => if p.url@.len() == 0 {
            r matches Err(s) && s.says(Code::InvalidArgument, "spec.url is required"@)
        } else if p.target_dir@.len() == 0 {
            r matches Err(s) && s.says(Code::InvalidArgument, "spec.target_dir is required"@)
        } else {
            exists|asked: PathBuf, checked: Result<PathBuf, Error>|
                asked == path_from(p.target_dir@) && #[trigger] call_ensures(
                    P::check_target_dir,
                    (policy, &asked),
                    checked,
                ) && match checked {
                    Ok(dir) => r == Ok::<FileSpec, Status>(
                        FileSpec {
                            url: p.url,
                            target_dir: dir,
                            filename: named(p.filename),
                            linear: false,
                        },
                    ),
                    Err(e) => r matches Err(s) && s.says(code_of(e), answer_text(e)),
                }
        },
    }
}

/// The description that a request to add a file leads to, once the policy was asked where the
/// file may go.
pub fn checked_add<P: TPathPolicy>(policy: &P, spec: Option<proto::FileSpec>) -> (r: Result<
    FileSpec,
    Status,
>)
    ensures
        is_checked_add(policy, spec, r),
{
    match spec_of_add(spec) {
        Ok(s) => {
            let checked: Result<PathBuf, Error> = policy.check_target_dir(&s.target_dir);
            assert(call_ensures(P::check_target_dir, (policy, &s.target_dir), checked));
            allowed_spec(s, checked)
        },
        Err(e) => Err(e),
    }
}

/// The answer to a command that has been carried out.
pub fn ok_status() -> (s: proto::StatusResponse)
    ensures
        s.ok,
        s.message@.len() == 0,
{
    proto::StatusResponse { ok: true, message: String::new() }
}

/// Since when a request for recent files asks.
pub fn since_of_recent(since: Option<&proto::Timestamp>) -> (r: Result<Moment, Status>)
    ensures
        match since {
            Some(p) => if 0 <= p.nanos < 1_000_000_000 {
                r == Ok::<Moment, Status>(Moment { secs: p.seconds, nanos: p.nanos as u32 })
            } else {
                r matches Err(s) && s.says(Code::InvalidArgument, "since is required"@)
            },
            None => r matches Err(s) && s.says(Code::InvalidArgument, "since is required"@),
        },
{
    match proto_ts_to_systime(since) {
        Some(t) => Ok(t),
        None => Err(Status::new(Code::InvalidArgument, "since is required")),
    }
}

/// The answer to a request to add a file: the file, which the manager must know by now.
pub fn added_file(file: Option<File>) -> (r: Result<proto::File, Status>)
    requires
        file matches Some(f) ==> f.created_at.valid() && f.updated_at.valid(),
    ensures
        match file {
            Some(f) => r matches Ok(p) && shows_file(p, f),
            None => r matches Err(s) && s.says(
                Code::Internal,
                "manager: just-inserted file vanished"@,
            ),
        },
{
    match file {
        Some(f) => Ok(file_to_proto(&f)),
        None => Err(Status::new(Code::Internal, "manager: just-inserted file vanished")),
    }
}

/// How many files a page gets for the number that a client asked for; zero asks for the
/// usual number.
pub open spec fn page_limit(asked: u32) -> u32 {
    if asked == 0 {
        DEFAULT_LIMIT
    } else if asked < MAX_LIMIT {
        asked
    } else {
        MAX_LIMIT
    }
}

/// How many files a page gets for the number that a client asked for.
pub fn effective_limit(asked: u32) -> (n: u32)
    ensures
        n == page_limit(asked),
        1 <= n <= MAX_LIMIT,
        asked == 0 ==> n == 50,
        1 <= asked <= 200 ==> n == asked,
        asked > 200 ==> n == 200,
{
    if asked == 0 {
        DEFAULT_LIMIT
    } else if asked < MAX_LIMIT {
        asked
    } else {
        MAX_LIMIT
    }
}

/// The files as clients see them.
pub fn files_to_proto(files: &Vec<File>) -> (v: Vec<proto::File>)
    requires
        forall|i: int|
            0 <= i < files@.len() ==> (#[trigger] files@[i]).created_at.valid()
                && files@[i].updated_at.valid(),
    ensures
        v@.len() == files@.len(),
        forall|i: int| 0 <= i < files@.len() ==> shows_file(#[trigger] v@[i], files@[i]),
{
    let mut v: Vec<proto::File> = Vec::new();
    let mut i: usize = 0;
    while i < files.len()
        invariant
            i <= files@.len(),
            v@.len() == i,
            forall|j: int|
                0 <= j < files@.len() ==> (#[trigger] files@[j]).created_at.valid()
                    && files@[j].updated_at.valid(),
            forall|j: int| 0 <= j < i ==> shows_file(#[trigger] v@[j], files@[j]),
        decreases files@.len() - i,
    {
        v.push(file_to_proto(&files[i]));
        i = i + 1;
    }
    v
}

/// The answer to a request for a page of at most `limit` files: another page may follow if
/// this one is full.
pub fn files_page(files: &Vec<File>, limit: u32) -> (page: proto::FilesPage)
    requires
        forall|i: int|
            0 <= i < files@.len() ==> (#[trigger] files@[i]).created_at.valid()
                && files@[i].updated_at.valid(),
        files@.len() <= u32::MAX,
    ensures
        page.files@.len() == files@.len(),
        forall|i: int| 0 <= i < files@.len() ==> shows_file(#[trigger] page.files@[i], files@[i]),
        page.has_more == (files@.len() == limit),
{
    let returned: u32 = files.len() as u32;
    proto::FilesPage { files: files_to_proto(files), has_more: returned == limit }
}

/// How a stream of changes of status ends for a client that fell behind: with a failure, so
/// that it asks for the files anew. A stream of progress goes on instead.
pub fn watch_status_lagged() -> (s: Status)
    ensures
        s.says(Code::DataLoss, "watch_status lagged"@),
{
    Status::new(Code::DataLoss, "watch_status lagged")
}

/// A client gets as many files on a page as it asks for, up to two hundred; fifty if it does not
/// say.
pub proof fn pages_are_as_long_as_asked(asked: u32)
    ensures
        asked == 0 ==> page_limit(asked) == 50,
        1 <= asked <= 200 ==> page_limit(asked) == asked,
        asked > 200 ==> page_limit(asked) == 200,
{
}

/// A request to add a file that lacks its description, its address or its directory is refused as
/// an invalid argument that names what it lacks, whatever the policy would say. A request that is
/// taken keeps its address and is fetched in any order.
pub proof fn incomplete_requests_are_refused<P: TPathPolicy>(
    policy: &P,
    spec: Option<proto::FileSpec>,
    r: Result<FileSpec, Status>,
)
    requires
        is_checked_add(policy, spec, r),
    ensures
        spec is None ==> (r matches Err(s) && s.code is InvalidArgument && s.message@
            == "spec is required"@),
        spec matches Some(p) ==> {
            &&& p.url@.len() == 0 ==> (r matches Err(s) && s.code is InvalidArgument && s.message@
                == "spec.url is required"@)
            &&& p.url@.len() > 0 && p.target_dir@.len() == 0 ==> (r matches Err(s) && s.code
                is InvalidArgument && s.message@ == "spec.target_dir is required"@)
            &&& r matches Ok(taken) ==> {
                &&& p.url@.len() > 0
                &&& p.target_dir@.len() > 0
                &&& taken.url == p.url
                &&& !taken.linear
                &&& taken.filename is Some ==> taken.filename == p.filename
                &&& taken.filename is None ==> (p.filename matches Some(name) ==> name@.len() == 0)
            }
        },
{
}

/// A complete request to add a file is answered as the policy answers about the directory that was
/// sent: the file goes where the policy says, or the request is refused with the policy's error.
pub proof fn policy_decides_complete_requests<P: TPathPolicy>(
    policy: &P,
    p: proto::FileSpec,
    r: Result<FileSpec, Status>,
)
    requires
        is_checked_add(policy, Some(p), r),
        p.url@.len() > 0,
        p.target_dir@.len() > 0,
    ensures
        exists|asked: PathBuf, checked: Result<PathBuf, Error>|
            {
                &&& #[trigger] call_ensures(P::check_target_dir, (policy, &asked), checked)
                &&& asked == path_from(p.target_dir@)
                &&& r is Ok <==> checked is Ok
                &&& r matches Ok(taken) ==> checked == Ok::<PathBuf, Error>(taken.target_dir)
                &&& r matches Err(s) ==> (checked matches Err(e) && s.code == code_of(e)
                    && s.message@ == answer_text(e))
            },
{
    let (asked, checked) = choose|asked: PathBuf, checked: Result<PathBuf, Error>|
        asked == path_from(p.target_dir@) && #[trigger] call_ensures(
            P::check_target_dir,
            (policy, &asked),
            checked,
        ) && match checked {
            Ok(dir) => r == Ok::<FileSpec, Status>(
                FileSpec {
                    url: p.url,
                    target_dir: dir,
                    filename: named(p.filename),
                    linear: false,
                },
            ),
            Err(e) => r matches Err(s) && s.says(code_of(e), answer_text(e)),
        };
    assert(call_ensures(P::check_target_dir, (policy, &asked), checked));
}

} // verus!

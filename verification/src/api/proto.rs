//! Requests and answers as clients see them.

use vstd::prelude::*;

verus! {

/// The identifier of a file, as text.
#[derive(Debug, Clone, Default, PartialEq, Eq)]
pub struct FileId {
    pub value: String,
}

/// The description of a file that a client sends or is shown.
#[derive(Debug, Clone, Default, PartialEq, Eq)]
pub struct FileSpec {
    pub url: String,
    pub target_dir: String,
    pub filename: Option<String>,
}

/// The status of a file. `Unspecified` is what an unset field reads as.
#[derive(Debug, Clone, Copy, PartialEq, Eq, Structural)]
pub enum FileStatus {
    Unspecified,
    Pending,
    Running,
    Paused,
    Retrying,
    Done,
    Failed,
    Cancelled,
}

/// A point in time: seconds since the start of 1970 and nanoseconds past them.
#[derive(Debug, Clone, Copy, PartialEq, Eq, Structural)]
pub struct Timestamp {
    pub seconds: i64,
    pub nanos: i32,
}

/// A file of the queue.
#[derive(Debug, Clone, PartialEq, Eq)]
pub struct File {
    pub id: FileId,
    pub spec: FileSpec,
    pub status: FileStatus,
    pub attempt: u32,
    pub error: Option<String>,
    pub created_at: Timestamp,
    pub updated_at: Timestamp,
}

/// A change of status.
#[derive(Debug, Clone, PartialEq, Eq)]
pub struct StatusEvent {
    pub file_id: FileId,
    pub status: FileStatus,
    pub description: Option<String>,
}

/// A file as it stands, sent as an event.
#[derive(Debug, Clone, PartialEq, Eq)]
pub struct SnapshotEvent {
    pub file: File,
}

/// A tick of progress, as far as it is counted in whole numbers.
#[derive(Debug, Clone, PartialEq, Eq)]
pub struct ProgressTick {
    pub file_id: FileId,
    pub bytes_done: u64,
    pub bytes_total: u64,
}

/// The answer to a command.
#[derive(Debug, Clone, PartialEq, Eq)]
pub struct StatusResponse {
    pub ok: bool,
    pub message: String,
}

/// A page of files, and whether another one may follow.
#[derive(Debug, Clone, PartialEq, Eq)]
pub struct FilesPage {
    pub files: Vec<File>,
    pub has_more: bool,
}

} // verus!

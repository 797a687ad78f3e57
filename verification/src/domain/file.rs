//! A file of the queue: what was asked for, and where it stands.

use vstd::prelude::*;
use crate::text::clone_text;
use super::id::FileId;
use super::spec::FileSpec;
use super::status::FileStatus;
use super::time::Moment;

verus! {

/// A file of the queue.
#[derive(Debug, PartialEq, Eq)]
pub struct File {
    pub id: FileId,
    pub spec: FileSpec,
    pub status: FileStatus,
    /// Number of the current try; it grows with every retry.
    pub attempt: u32,
    /// The text of the last error, where there was one.
    pub error: Option<String>,
    pub created_at: Moment,
    /// When the status last changed.
    pub updated_at: Moment,
    /// How many workers fetched at least one piece; known of a finished file only.
    pub workers_count: Option<u32>,
}

impl Clone for File {
    fn clone(&self) -> (r: File)
        ensures
            r == *self,
    {
        File {
            id: self.id,
            spec: self.spec.clone(),
            status: self.status,
            attempt: self.attempt,
            error: clone_text(&self.error),
            created_at: self.created_at,
            updated_at: self.updated_at,
            workers_count: self.workers_count,
        }
    }
}

impl File {
    /// A file that was queued at `now` and has not been touched since.
    pub open spec fn fresh(id: FileId, spec: FileSpec, now: Moment) -> File {
        File {
            id,
            spec,
            status: FileStatus::Pending,
            attempt: 0,
            error: None,
            created_at: now,
            updated_at: now,
            workers_count: None,
        }
    }

    /// A fresh file is pending, was never tried, has no error, and was made and changed last when
    /// it was queued.
    pub proof fn fresh_file_is_untouched(id: FileId, spec: FileSpec, now: Moment)
        ensures
            File::fresh(id, spec, now).id == id,
            File::fresh(id, spec, now).spec == spec,
            File::fresh(id, spec, now).status is Pending,
            File::fresh(id, spec, now).attempt == 0,
            File::fresh(id, spec, now).error is None,
            File::fresh(id, spec, now).created_at == now,
            File::fresh(id, spec, now).updated_at == now,
            File::fresh(id, spec, now).workers_count is None,
    {
    }

    /// A fresh file: pending, both times the moment of the call.
    pub fn new(id: FileId, spec: FileSpec) -> (f: File)
        ensures
            f == File::fresh(id, spec, f.created_at),
            f.created_at.valid(),
    {
        File::new_at(id, spec, Moment::now())
    }

    /// A fresh file that was queued at `now`.
    pub fn new_at(id: FileId, spec: FileSpec, now: Moment) -> (f: File)
        ensures
            f == File::fresh(id, spec, now),
    {
        File {
            id,
            spec,
            status: FileStatus::Pending,
            attempt: 0,
            error: None,
            created_at: now,
            updated_at: now,
            workers_count: None,
        }
    }
}

} // verus!

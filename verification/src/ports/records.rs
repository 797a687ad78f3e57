//! Rows that a repository keeps of workers and of their attempts.

use vstd::prelude::*;
use crate::domain::id::{AttemptId, FileId, WorkerId};

verus! {

/// One worker of one engine session. Times are in seconds since 1970.
#[derive(Debug, Clone, Copy, PartialEq, Eq)]
pub struct WorkerRecord {
    pub id: WorkerId,
    pub file_id: FileId,
    pub slot_index: usize,
    pub started_at: i64,
    pub finished_at: Option<i64>,
}

/// One attempt of one worker to fetch one piece.
#[derive(Debug, PartialEq, Eq)]
pub struct AttemptRecord {
    pub id: AttemptId,
    pub piece_id: String,
    pub worker_id: WorkerId,
    pub started_at: i64,
    pub finished_at: Option<i64>,
    pub bytes: u64,
}

impl Clone for AttemptRecord {
    fn clone(&self) -> (r: AttemptRecord)
        ensures
            r == *self,
    {
        AttemptRecord {
            id: self.id,
            piece_id: self.piece_id.clone(),
            worker_id: self.worker_id,
            started_at: self.started_at,
            finished_at: self.finished_at,
            bytes: self.bytes,
        }
    }
}

} // verus!

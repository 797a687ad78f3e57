//! Repositories that keep nothing, for engines without a database.

use vstd::prelude::*;
use crate::domain::id::{is_random_uuid, AttemptId, FileId, WorkerId};
use crate::error::Error;
use super::records::{AttemptRecord, WorkerRecord};

verus! {

/// A repository of workers that keeps nothing.
#[derive(Debug, Clone, Copy, Default)]
pub struct NoopWorkerRepo;

impl NoopWorkerRepo {
    /// No rows, whatever was asked for.
    pub fn ensure_slots(&self, _file_id: FileId, _n: usize) -> (r: Result<Vec<WorkerRecord>, Error>)
        ensures
            r matches Ok(v) && v@.len() == 0,
    {
        Ok(Vec::new())
    }
}

/// A repository of attempts that keeps nothing.
#[derive(Debug, Clone, Copy, Default)]
pub struct NoopAttemptRepo;

impl NoopAttemptRepo {
    /// A row with a fresh identifier that is stored nowhere.
    pub fn start(&self, _file_id: FileId, _piece_number: u32, worker_id: WorkerId) -> (r: Result<
        AttemptRecord,
        Error,
    >)
        ensures
            r matches Ok(rec) && is_random_uuid(rec.id@) && rec.worker_id == worker_id
                && rec.piece_id@.len() == 0 && rec.started_at == 0 && rec.finished_at is None
                && rec.bytes == 0,
    {
        Ok(
            AttemptRecord {
                id: AttemptId::new(),
                piece_id: String::new(),
                worker_id,
                started_at: 0,
                finished_at: None,
                bytes: 0,
            },
        )
    }
}

} // verus!

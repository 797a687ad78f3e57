//! What an engine is given, and the ways in which it can fail.

use vstd::prelude::*;
use crate::domain::spec::FileSpec;
use crate::error::Error;
use crate::ports::http::{RangeError, RangeGuard};
use crate::service::retry::RetryPolicy;
use crate::text::{clone_text, concat2};

verus! {

/// What the manager found out before an engine starts. The place and the size of a piece
/// follow from the two sizes.
#[derive(Debug, PartialEq, Eq)]
pub struct EngineInputs {
    pub spec: FileSpec,
    pub total_size: u64,
    /// The size of every piece but the last, which may be shorter.
    pub piece_size: u64,
    pub accepts_ranges: bool,
    pub guard: Option<RangeGuard>,
    /// Where redirects led, if they led anywhere.
    pub effective_url: Option<String>,
}

/// What an engine for a file of unknown size is given.
#[derive(Debug, PartialEq, Eq)]
pub struct StreamingEngineInputs {
    pub spec: FileSpec,
    /// Where redirects led, if they led anywhere.
    pub effective_url: Option<String>,
}

/// The address that requests go to: where redirects led, or what the client asked for.
pub open spec fn request_url_of(effective: Option<String>, url: String) -> String {
    match effective {
        Some(u) => u,
        None => url,
    }
}

/// The address that requests go to.
pub fn request_url(effective: &Option<String>, url: &String) -> (r: String)
    ensures
        r == request_url_of(*effective, *url),
        *effective is Some ==> *effective == Some(r),
        *effective is None ==> r == *url,
{
    match effective {
        Some(u) => u.clone(),
        None => url.clone(),
    }
}

/// The same guard again.
pub fn clone_guard(g: &Option<RangeGuard>) -> (r: Option<RangeGuard>)
    ensures
        r == *g,
{
    match g {
        Some(x) => Some(x.clone()),
        None => None,
    }
}

impl Clone for EngineInputs {
    fn clone(&self) -> (r: EngineInputs)
        ensures
            r == *self,
    {
        EngineInputs {
            spec: self.spec.clone(),
            total_size: self.total_size,
            piece_size: self.piece_size,
            accepts_ranges: self.accepts_ranges,
            guard: clone_guard(&self.guard),
            effective_url: clone_text(&self.effective_url),
        }
    }
}

impl Clone for StreamingEngineInputs {
    fn clone(&self) -> (r: StreamingEngineInputs)
        ensures
            r == *self,
    {
        StreamingEngineInputs {
            spec: self.spec.clone(),
            effective_url: clone_text(&self.effective_url),
        }
    }
}

/// Settings of an engine.
#[derive(Debug, Clone, Copy, PartialEq, Eq, Structural)]
pub struct EngineConfig {
    /// How many bytes are collected before they are written.
    pub write_buffer: usize,
    /// How often progress is reported, in nanoseconds.
    pub progress_interval_nanos: u64,
    pub retry: RetryPolicy,
    /// How many events a slow subscriber may lag behind.
    pub events_capacity: usize,
}

impl Default for EngineConfig {
    fn default() -> (c: EngineConfig)
        ensures
            c.write_buffer == 131_072,
            c.progress_interval_nanos == 200_000_000,
            c.events_capacity == 1024,
            c.retry == (RetryPolicy {
                base_nanos: 1_000_000_000,
                max_delay_nanos: 60_000_000_000,
                max_attempts: 10,
                jitter_ppm: 200_000,
            }),
    {
        EngineConfig {
            write_buffer: 131_072,
            progress_interval_nanos: 200_000_000,
            retry: RetryPolicy::default(),
            events_capacity: 1024,
        }
    }
}

/// Why an engine failed.
#[derive(Debug, PartialEq, Eq)]
pub enum EngineFailure {
    /// The storage did not tell which pieces are missing when the engine started.
    PendingPieces(Error),
    /// The repository gave no rows for the workers.
    EnsureSlots(Error),
    /// A piece could not be committed.
    Commit(Error),
    /// The file could not be finished.
    Finalize(Error),
    /// The storage did not tell which pieces are missing when the workers were done.
    Pending(Error),
    /// Bytes could not be appended.
    Append(Error),
    /// The file could not be emptied to start over.
    Restart(Error),
    /// A worker gave up.
    Worker(String),
    /// The request for the whole body failed for good.
    Fetch(RangeError),
    /// The workers stopped and no piece was committed.
    NoProgress,
    /// The workers stopped and pieces are missing.
    BeforeCompletion,
}

impl EngineFailure {
    /// The failure as people read it.
    pub open spec fn text(&self) -> Seq<char> {
        match self {
            EngineFailure::PendingPieces(e) => "pending_pieces: "@ + e.text(),
            EngineFailure::EnsureSlots(e) => "ensure_slots: "@ + e.text(),
            EngineFailure::Commit(e) => "commit: "@ + e.text(),
            EngineFailure::Finalize(e) => "finalize: "@ + e.text(),
            EngineFailure::Pending(e) => "pending: "@ + e.text(),
            EngineFailure::Append(e) => "append: "@ + e.text(),
            EngineFailure::Restart(e) => "restart: "@ + e.text(),
            EngineFailure::Worker(s) => s@,
            EngineFailure::Fetch(e) => e.text(),
            EngineFailure::NoProgress => "workers exited without progress"@,
            EngineFailure::BeforeCompletion => "workers exited before completion"@,
        }
    }

    /// The failure as people read it.
    pub fn to_string(&self) -> (s: String)
        ensures
            s@ == self.text(),
    {
        match self {
            EngineFailure::PendingPieces(e) => concat2("pending_pieces: ", e.to_string().as_str()),
            EngineFailure::EnsureSlots(e) => concat2("ensure_slots: ", e.to_string().as_str()),
            EngineFailure::Commit(e) => concat2("commit: ", e.to_string().as_str()),
            EngineFailure::Finalize(e) => concat2("finalize: ", e.to_string().as_str()),
            EngineFailure::Pending(e) => concat2("pending: ", e.to_string().as_str()),
            EngineFailure::Append(e) => concat2("append: ", e.to_string().as_str()),
            EngineFailure::Restart(e) => concat2("restart: ", e.to_string().as_str()),
            EngineFailure::Worker(s) => s.clone(),
            EngineFailure::Fetch(e) => e.to_string(),
            EngineFailure::NoProgress => "workers exited without progress".to_owned(),
            EngineFailure::BeforeCompletion => "workers exited before completion".to_owned(),
        }
    }
}

impl Clone for EngineFailure {
    fn clone(&self) -> (r: EngineFailure)
        ensures
            r == *self,
    {
        match self {
            EngineFailure::PendingPieces(e) => EngineFailure::PendingPieces(e.clone()),
            EngineFailure::EnsureSlots(e) => EngineFailure::EnsureSlots(e.clone()),
            EngineFailure::Commit(e) => EngineFailure::Commit(e.clone()),
            EngineFailure::Finalize(e) => EngineFailure::Finalize(e.clone()),
            EngineFailure::Pending(e) => EngineFailure::Pending(e.clone()),
            EngineFailure::Append(e) => EngineFailure::Append(e.clone()),
            EngineFailure::Restart(e) => EngineFailure::Restart(e.clone()),
            EngineFailure::Worker(s) => EngineFailure::Worker(s.clone()),
            EngineFailure::Fetch(e) => EngineFailure::Fetch(e.clone()),
            EngineFailure::NoProgress => EngineFailure::NoProgress,
            EngineFailure::BeforeCompletion => EngineFailure::BeforeCompletion,
        }
    }
}

/// A failure says what was being done, and then what went wrong; a worker's report and a failed
/// request speak for themselves.
pub proof fn failures_tell_what_was_done(f: EngineFailure, e: Error, r: RangeError, report: String)
    ensures
        f == EngineFailure::PendingPieces(e) ==> f.text() == "pending_pieces: "@ + e.text(),
        f == EngineFailure::EnsureSlots(e) ==> f.text() == "ensure_slots: "@ + e.text(),
        f == EngineFailure::Commit(e) ==> f.text() == "commit: "@ + e.text(),
        f == EngineFailure::Finalize(e) ==> f.text() == "finalize: "@ + e.text(),
        f == EngineFailure::Pending(e) ==> f.text() == "pending: "@ + e.text(),
        f == EngineFailure::Append(e) ==> f.text() == "append: "@ + e.text(),
        f == EngineFailure::Restart(e) ==> f.text() == "restart: "@ + e.text(),
        f == EngineFailure::Worker(report) ==> f.text() == report@,
        f == EngineFailure::Fetch(r) ==> f.text() == r.text(),
        f is NoProgress ==> f.text() == "workers exited without progress"@,
        f is BeforeCompletion ==> f.text() == "workers exited before completion"@,
{
}

/// How an engine ends.
#[derive(Debug, PartialEq, Eq)]
pub enum Outcome {
    Completed,
    Failed(EngineFailure),
    Cancelled,
}

impl Clone for Outcome {
    fn clone(&self) -> (r: Outcome)
        ensures
            r == *self,
    {
        match self {
            Outcome::Completed => Outcome::Completed,
            Outcome::Failed(f) => Outcome::Failed(f.clone()),
            Outcome::Cancelled => Outcome::Cancelled,
        }
    }
}

} // verus!

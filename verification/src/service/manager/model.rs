//! What the manager knows, and what it asks to be stored and told.

use vstd::prelude::*;
use crate::domain::command::FileCommand;
use crate::domain::event::FileLifecycleEvent;
use crate::domain::file::File;
use crate::domain::id::FileId;
use crate::domain::reason::FailureReason;
use crate::domain::spec::FileSpec;
use crate::domain::status::FileStatus;
use crate::domain::time::Moment;
use crate::ports::prepared::PreparedMode;
use crate::service::engine::inputs::{EngineConfig, EngineInputs, StreamingEngineInputs};

verus! {

/// Settings of the manager.
#[derive(Debug, Clone, Copy, PartialEq, Eq, Structural)]
pub struct ManagerConfig {
    /// How many engines may run at the same time, where there is a limit.
    pub max_concurrent: Option<usize>,
    /// How many events a slow subscriber may lag behind.
    pub events_capacity: usize,
    /// Settings of every engine.
    pub engine: EngineConfig,
}

impl Default for ManagerConfig {
    fn default() -> (c: ManagerConfig)
        ensures
            c.max_concurrent is None,
            c.events_capacity == 1024,
            c.engine.write_buffer == 131_072,
            c.engine.events_capacity == 1024,
    {
        ManagerConfig { max_concurrent: None, events_capacity: 1024, engine: EngineConfig::default() }
    }
}

/// A status that is to be stored, with the reason for it.
#[derive(Debug, PartialEq, Eq)]
pub struct StatusUpdate {
    pub id: FileId,
    pub status: FileStatus,
    pub reason: Option<FailureReason>,
}

impl StatusUpdate {
    /// Whether a failure comes with a reason.
    pub open spec fn explained(self) -> bool {
        self.status is Failed ==> self.reason is Some
    }
}

/// A change of status: what is to be stored, and what subscribers are told.
#[derive(Debug, PartialEq, Eq)]
pub struct Change {
    pub update: StatusUpdate,
    pub event: FileLifecycleEvent,
}

/// What a command of the user leads to.
#[derive(Debug, PartialEq, Eq)]
pub enum CommandStep {
    /// An engine is running: it takes the command, and its events tell what came of it.
    Forward(FileCommand),
    /// The record has changed.
    Changed(Change),
    /// There was nothing to change.
    Unchanged,
}

/// What is left to be done after a record has been dropped.
#[derive(Debug, PartialEq, Eq)]
pub struct Removed {
    /// Whether the manager knew the file.
    pub was_known: bool,
    /// What was asked for, by which the file's remains are found on disk.
    pub spec: Option<FileSpec>,
}

/// What a command to remove a file leads to.
#[derive(Debug, PartialEq, Eq)]
pub enum RemoveStep {
    /// An engine is running: it takes the command, and the removal is tried again once the
    /// engine has ended.
    Forward(FileCommand),
    /// The record has been dropped.
    Removed(Removed),
}

/// The engine that a download gets.
#[derive(Debug, PartialEq, Eq)]
pub enum EnginePlan {
    /// The file is fetched in pieces.
    Pieces(EngineInputs),
    /// What comes is appended.
    Streaming(StreamingEngineInputs),
}

/// The engine for a download that was prepared: by pieces where the size is known.
pub fn plan_engine(spec: FileSpec, mode: PreparedMode, effective_url: Option<String>) -> (plan:
    EnginePlan)
    ensures
        plan == match mode {
            PreparedMode::Known { total_size, piece_size, accepts_ranges, guard } => EnginePlan::Pieces(
                EngineInputs { spec, total_size, piece_size, accepts_ranges, guard, effective_url },
            ),
            PreparedMode::Streaming => EnginePlan::Streaming(
                StreamingEngineInputs { spec, effective_url },
            ),
        },
{
    match mode {
        PreparedMode::Known { total_size, piece_size, accepts_ranges, guard } => EnginePlan::Pieces(
            EngineInputs { spec, total_size, piece_size, accepts_ranges, guard, effective_url },
        ),
        PreparedMode::Streaming => EnginePlan::Streaming(
            StreamingEngineInputs { spec, effective_url },
        ),
    }
}

/// What the manager knows. Files and engines are found by the value of the file's
/// identifier.
#[verifier::ext_equal]
pub struct ManagerModel {
    /// The files.
    pub records: Map<u128, File>,
    /// The files whose engines are running.
    pub engines: Set<u128>,
    /// The files that wait for an engine, in order. A file that was paused or cancelled
    /// meanwhile is passed over.
    pub waiting: Seq<FileId>,
    /// How many engines may run at the same time.
    pub max_concurrent: Option<usize>,
}

/// `s` without `id`, in the same order.
pub open spec fn without(s: Seq<FileId>, id: FileId) -> Seq<FileId>
    decreases s.len(),
{
    if s.len() == 0 {
        s
    } else if s.last() == id {
        without(s.drop_last(), id)
    } else {
        without(s.drop_last(), id).push(s.last())
    }
}

/// Dropping an identifier drops nothing else, and leaves none twice.
pub proof fn without_drops_only(s: Seq<FileId>, id: FileId)
    ensures
        !without(s, id).contains(id),
        forall|x: FileId| #![trigger without(s, id).contains(x)]
            x != id ==> (without(s, id).contains(x) <==> s.contains(x)),
        s.no_duplicates() ==> without(s, id).no_duplicates(),
        without(s, id).len() <= s.len(),
    decreases s.len(),
{
    if s.len() > 0 {
        let rest = s.drop_last();
        let w = without(rest, id);
        without_drops_only(rest, id);
        assert forall|x: FileId| #![trigger without(s, id).contains(x)]
            x != id implies (without(s, id).contains(x) <==> s.contains(x)) by {
            if s.contains(x) {
                let i = choose|i: int| 0 <= i < s.len() && s[i] == x;
                if i < rest.len() {
                    assert(rest[i] == x);
                    assert(rest.contains(x));
                    assert(w.contains(x));
                    let j = choose|j: int| 0 <= j < w.len() && w[j] == x;
                    assert(without(s, id)[j] == x);
                } else {
                    assert(without(s, id)[w.len() as int] == x);
                }
            }
            if without(s, id).contains(x) {
                let j = choose|j: int| 0 <= j < without(s, id).len() && without(s, id)[j] == x;
                if j < w.len() {
                    assert(w[j] == x);
                    assert(w.contains(x));
                    let i = choose|i: int| 0 <= i < rest.len() && rest[i] == x;
                    assert(s[i] == x);
                } else {
                    assert(s[s.len() - 1] == x);
                }
            }
        }
        if s.no_duplicates() {
            assert(rest.no_duplicates());
            if s.last() != id {
                assert forall|i: int| 0 <= i < w.len() implies w[i] != s.last() by {
                    assert(w.contains(w[i]));
                    if w[i] == s.last() {
                        assert(rest.contains(s.last()));
                        let k = choose|k: int| 0 <= k < rest.len() && rest[k] == s.last();
                        assert(s[k] == s[s.len() - 1]);
                    }
                }
            }
        }
    }
}

impl ManagerModel {
    /// Every file is found under its own identifier.
    pub open spec fn wf(self) -> bool {
        forall|k: u128| #[trigger] self.records.contains_key(k) ==> self.records[k].id@ == k
    }

    /// Whether as many engines run as may.
    pub open spec fn full(self) -> bool {
        self.max_concurrent matches Some(n) && self.engines.len() >= n
    }

    /// Whether an engine may be started for the file `id`.
    pub open spec fn startable(self, id: FileId) -> bool {
        self.records.contains_key(id@) && (self.records[id@].status is Pending
            || self.records[id@].status is Retrying)
    }

    /// The manager with the record of `id` in another status since `now`.
    pub open spec fn with_status(self, id: FileId, status: FileStatus, now: Moment) -> ManagerModel {
        ManagerModel {
            records: self.records.insert(
                id@,
                File { status, updated_at: now, ..self.records[id@] },
            ),
            ..self
        }
    }

    /// The manager with the record of `id` failed since `now`, with the text of the error.
    pub open spec fn with_failure(self, id: FileId, error: String, now: Moment) -> ManagerModel {
        ManagerModel {
            records: self.records.insert(
                id@,
                File {
                    status: FileStatus::Failed,
                    error: Some(error),
                    updated_at: now,
                    ..self.records[id@]
                },
            ),
            ..self
        }
    }

    /// The manager with one more file, which waits last.
    pub open spec fn added(self, file: File) -> ManagerModel {
        ManagerModel {
            records: self.records.insert(file.id@, file),
            waiting: self.waiting.push(file.id),
            ..self
        }
    }

    /// The manager without the file `id`.
    pub open spec fn removed(self, id: FileId) -> ManagerModel {
        ManagerModel {
            records: self.records.remove(id@),
            waiting: without(self.waiting, id),
            ..self
        }
    }

    /// Whether a manager that knows `self` answers the command to remove `id` by `r` and then
    /// knows `next`: a running engine is cancelled first and everything stays as it is; without
    /// one the file is dropped.
    pub open spec fn is_removal(self, id: FileId, r: RemoveStep, next: ManagerModel) -> bool {
        if self.engines.contains(id@) {
            r == RemoveStep::Forward(FileCommand::Cancel) && next == self
        } else {
            &&& next == self.removed(id)
            &&& r == RemoveStep::Removed(self.removal_of(id))
        }
    }

    /// What is left to be done after the record of `id` has been dropped.
    pub open spec fn removal_of(self, id: FileId) -> Removed {
        Removed {
            was_known: self.records.contains_key(id@),
            spec: if self.records.contains_key(id@) {
                Some(self.records[id@].spec)
            } else {
                None
            },
        }
    }

    /// The manager with `id` no longer waiting.
    pub open spec fn unqueued(self, id: FileId) -> ManagerModel {
        ManagerModel { waiting: without(self.waiting, id), ..self }
    }

    /// The manager with `id` waiting, at the end if it did not wait yet.
    pub open spec fn queued(self, id: FileId) -> ManagerModel {
        if self.waiting.contains(id) {
            self
        } else {
            ManagerModel { waiting: self.waiting.push(id), ..self }
        }
    }
}

/// A file as it is taken over at the start: no engine outlived the last run, so what was
/// running waits again.
pub open spec fn normalized(f: File) -> File {
    if f.status is Running || f.status is Retrying {
        File { status: FileStatus::Pending, ..f }
    } else {
        f
    }
}

impl ManagerModel {
    /// The manager after taking over the files of the queue.
    pub open spec fn bootstrapped(self, loaded: Seq<File>) -> ManagerModel
        decreases loaded.len(),
    {
        if loaded.len() == 0 {
            self
        } else {
            let before = self.bootstrapped(loaded.drop_last());
            let f = normalized(loaded.last());
            ManagerModel {
                records: before.records.insert(f.id@, f),
                waiting: if f.status is Pending {
                    before.waiting.push(f.id)
                } else {
                    before.waiting
                },
                ..before
            }
        }
    }
}

/// The statuses that are to be stored after taking over the files of the queue.
pub open spec fn bootstrap_updates(loaded: Seq<File>) -> Seq<StatusUpdate>
    decreases loaded.len(),
{
    if loaded.len() == 0 {
        Seq::empty()
    } else {
        let before = bootstrap_updates(loaded.drop_last());
        let f = loaded.last();
        if f.status is Running || f.status is Retrying {
            before.push(StatusUpdate { id: f.id, status: FileStatus::Pending, reason: None })
        } else {
            before
        }
    }
}

} // verus!

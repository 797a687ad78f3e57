//! The registry of files, engines and the queue, and what commands and events do to it.

use std::collections::{HashMap, HashSet, VecDeque};
use vstd::prelude::*;
use crate::domain::command::FileCommand;
use crate::domain::event::FileLifecycleEvent;
use crate::domain::file::File;
use crate::domain::id::FileId;
use crate::domain::reason::{FailureReason, ReasonCode};
use crate::domain::spec::FileSpec;
use crate::domain::status::FileStatus;
use crate::domain::time::Moment;
use crate::error::Error;
use super::model::{
    bootstrap_updates, normalized, without, Change, CommandStep, ManagerConfig, ManagerModel,
    RemoveStep, Removed, StatusUpdate,
};

verus! {

broadcast use vstd::std_specs::hash::group_hash_axioms;

/// The coordinator of all downloads: which files there are, which engines run, and which
/// files wait for one. Whoever runs it stores, tells and starts what its methods give.
pub struct DownloadManager {
    records: HashMap<u128, File>,
    engines: HashSet<u128>,
    waiting: VecDeque<FileId>,
    config: ManagerConfig,
}

impl DownloadManager {
    /// What the manager knows.
    pub closed spec fn view(&self) -> ManagerModel {
        ManagerModel {
            records: self.records@,
            engines: self.engines@,
            waiting: self.waiting@,
            max_concurrent: self.config.max_concurrent,
        }
    }

    /// A manager without files.
    pub fn new(config: ManagerConfig) -> (m: DownloadManager)
        ensures
            m@ == (ManagerModel {
                records: Map::empty(),
                engines: Set::empty(),
                waiting: Seq::empty(),
                max_concurrent: config.max_concurrent,
            }),
            m@.wf(),
    {
        DownloadManager {
            records: HashMap::new(),
            engines: HashSet::new(),
            waiting: VecDeque::new(),
            config,
        }
    }

    /// One file.
    pub fn get_file(&self, id: &FileId) -> (r: Option<File>)
        ensures
            r == (if self@.records.contains_key(id@) {
                Some(self@.records[id@])
            } else {
                None
            }),
    {
        match self.records.get(&id.as_uuid()) {
            Some(f) => Some(f.clone()),
            None => None,
        }
    }

    /// Whether an engine runs for a file.
    pub fn is_active(&self, id: FileId) -> (r: bool)
        ensures
            r == self@.engines.contains(id@),
    {
        self.engines.contains(&id.as_uuid())
    }

    /// Takes `id` out of the queue.
    pub(crate) fn unqueue(&mut self, id: FileId)
        ensures
            final(self)@ == old(self)@.unqueued(id),
    {
        let mut kept: VecDeque<FileId> = VecDeque::new();
        let mut i: usize = 0;
        let ghost all = self.waiting@;
        assert(without(all.take(0), id) =~= Seq::<FileId>::empty());
        while i < self.waiting.len()
            invariant
                i <= self.waiting@.len(),
                self.waiting@ == all,
                kept@ == without(all.take(i as int), id),
                self.records == old(self).records,
                self.engines == old(self).engines,
                self.config == old(self).config,
            decreases self.waiting@.len() - i,
        {
            let x: FileId = self.waiting[i];
            assert(all.take(i + 1).drop_last() =~= all.take(i as int));
            if x != id {
                kept.push_back(x);
            }
            i = i + 1;
        }
        assert(all.take(all.len() as int) =~= all);
        self.waiting = kept;
    }

    /// Whether `id` waits.
    fn is_waiting(&self, id: FileId) -> (r: bool)
        ensures
            r == self@.waiting.contains(id),
    {
        let mut i: usize = 0;
        while i < self.waiting.len()
            invariant
                i <= self.waiting@.len(),
                forall|j: int| 0 <= j < i ==> self.waiting@[j] != id,
            decreases self.waiting@.len() - i,
        {
            if self.waiting[i] == id {
                assert(self@.waiting[i as int] == id);
                return true;
            }
            i = i + 1;
        }
        false
    }

    /// Puts the record of `id` into another status.
    pub(crate) fn set_status(&mut self, id: FileId, status: FileStatus, now: Moment)
        requires
            old(self)@.records.contains_key(id@),
        ensures
            final(self)@ == old(self)@.with_status(id, status, now),
    {
        let found: Option<File> = self.records.remove(&id.as_uuid());
        if let Some(f) = found {
            let mut f: File = f;
            f.status = status;
            f.updated_at = now;
            self.records.insert(id.as_uuid(), f);
        }
        assert(self@ =~= old(self)@.with_status(id, status, now));
    }

    /// Marks the record of `id` as failed.
    pub(crate) fn set_failure(&mut self, id: FileId, error: String, now: Moment)
        requires
            old(self)@.records.contains_key(id@),
        ensures
            final(self)@ == old(self)@.with_failure(id, error, now),
    {
        let found: Option<File> = self.records.remove(&id.as_uuid());
        if let Some(f) = found {
            let mut f: File = f;
            f.status = FileStatus::Failed;
            f.error = Some(error);
            f.updated_at = now;
            self.records.insert(id.as_uuid(), f);
        }
        assert(self@ =~= old(self)@.with_failure(id, error, now));
    }

    /// The status of a file.
    pub(crate) fn status_of(&self, id: FileId) -> (r: Option<FileStatus>)
        ensures
            r == (if self@.records.contains_key(id@) {
                Some(self@.records[id@].status)
            } else {
                None
            }),
    {
        match self.records.get(&id.as_uuid()) {
            Some(f) => Some(f.status),
            None => None,
        }
    }

    /// Takes the first file out of the queue.
    pub(crate) fn pop_waiting(&mut self) -> (r: Option<FileId>)
        ensures
            if old(self)@.waiting.len() == 0 {
                r is None && final(self)@ == old(self)@
            } else {
                r == Some(old(self)@.waiting[0]) && final(self)@ == (ManagerModel {
                    waiting: old(self)@.waiting.drop_first(),
                    ..old(self)@
                })
            },
    {
        let r: Option<FileId> = self.waiting.pop_front();
        assert(r is Some ==> self.waiting@ =~= old(self)@.waiting.drop_first());
        assert(r is None ==> self.waiting@ =~= old(self)@.waiting);
        r
    }

    /// Whether as many engines run as may.
    pub(crate) fn is_full(&self) -> (r: bool)
        ensures
            r == self@.full(),
    {
        match self.config.max_concurrent {
            Some(n) => self.engines.len() >= n,
            None => false,
        }
    }

    /// Notes that an engine runs for a file.
    pub fn engine_started(&mut self, id: FileId)
        ensures
            final(self)@ == (ManagerModel {
                engines: old(self)@.engines.insert(id@),
                ..old(self)@
            }),
    {
        self.engines.insert(id.as_uuid());
    }

    /// Notes that the engine of a file has ended. The queue is then to be advanced.
    pub fn engine_ended(&mut self, id: FileId)
        ensures
            final(self)@ == (ManagerModel {
                engines: old(self)@.engines.remove(id@),
                ..old(self)@
            }),
    {
        self.engines.remove(&id.as_uuid());
    }

    /// The values of the identifiers of all files.
    pub(crate) fn record_keys(&self) -> (keys: Vec<u128>)
        ensures
            keys@.no_duplicates(),
            keys@.to_set() == self@.records.dom(),
    {
        let mut keys: Vec<u128> = Vec::new();
        let it = self.records.keys();
        let ghost all = vstd::std_specs::iter::IteratorSpec::remaining(&it);
        for k in iter: it
            invariant
                keys@.len() == iter.index(),
                iter.seq() == all,
                forall|i: int| 0 <= i < keys@.len() ==> keys@[i] == *all[i],
        {
            keys.push(*k);
        }
        assert(keys@ =~= all.unref());
        keys
    }

    /// The values of the identifiers of all files whose engines run.
    pub(crate) fn engine_keys(&self) -> (keys: Vec<u128>)
        ensures
            keys@.no_duplicates(),
            keys@.to_set() == self@.engines,
    {
        let mut keys: Vec<u128> = Vec::new();
        let it = self.engines.iter();
        let ghost all = vstd::std_specs::iter::IteratorSpec::remaining(&it);
        for k in iter: it
            invariant
                keys@.len() == iter.index(),
                iter.seq() == all,
                forall|i: int| 0 <= i < keys@.len() ==> keys@[i] == *all[i],
        {
            keys.push(*k);
        }
        assert(keys@ =~= all.unref());
        keys
    }

    /// Takes over the files of the queue at the start. What was running waits again, which is
    /// to be stored; what was paused stays paused.
    pub fn bootstrap(&mut self, loaded: Vec<File>) -> (updates: Vec<StatusUpdate>)
        ensures
            final(self)@ == old(self)@.bootstrapped(loaded@),
            updates@ == bootstrap_updates(loaded@),
    {
        let mut updates: Vec<StatusUpdate> = Vec::new();
        let mut i: usize = 0;
        assert(loaded@.take(0) =~= Seq::<File>::empty());
        while i < loaded.len()
            invariant
                i <= loaded@.len(),
                self@ == old(self)@.bootstrapped(loaded@.take(i as int)),
                updates@ == bootstrap_updates(loaded@.take(i as int)),
            decreases loaded@.len() - i,
        {
            let mut f: File = loaded[i].clone();
            assert(loaded@.take(i + 1).drop_last() =~= loaded@.take(i as int));
            if f.status == FileStatus::Running || f.status == FileStatus::Retrying {
                updates.push(
                    StatusUpdate { id: f.id, status: FileStatus::Pending, reason: None },
                );
                f.status = FileStatus::Pending;
            }
            assert(f == normalized(loaded@[i as int]));
            if f.status == FileStatus::Pending {
                self.waiting.push_back(f.id);
            }
            self.records.insert(f.id.as_uuid(), f);
            i = i + 1;
            assert(self@ =~= old(self)@.bootstrapped(loaded@.take(i as int)));
        }
        assert(loaded@.take(loaded@.len() as int) =~= loaded@);
        updates
    }

    /// Takes in a file whose row is stored, once its name has been found out. Where that
    /// failed the manager does not change, the row is to be removed and the error goes back
    /// to the client.
    pub fn add(&mut self, file: File, resolved: Result<String, Error>) -> (r: Result<FileId, Error>)
        ensures
            match resolved {
                Ok(name) => {
                    let named = File {
                        spec: FileSpec { filename: Some(name), ..file.spec },
                        ..file
                    };
                    &&& r == Ok::<FileId, Error>(file.id)
                    &&& final(self)@ == old(self)@.added(named)
                },
                Err(e) => r == Err::<FileId, Error>(e) && final(self)@ == old(self)@,
            },
    {
        match resolved {
            Ok(name) => {
                let id: FileId = file.id;
                let mut file: File = file;
                file.spec.filename = Some(name);
                self.records.insert(id.as_uuid(), file);
                self.waiting.push_back(id);
                Ok(id)
            },
            Err(e) => Err(e),
        }
    }

    /// Drops the record of a file and takes it out of the queue.
    fn drop_record(&mut self, id: FileId) -> (r: Removed)
        ensures
            final(self)@ == old(self)@.removed(id),
            r == old(self)@.removal_of(id),
    {
        let found: Option<File> = self.records.remove(&id.as_uuid());
        let ghost dropped = self@;
        assert(dropped.waiting == old(self)@.waiting);
        self.unqueue(id);
        match found {
            Some(f) => Removed { was_known: true, spec: Some(f.spec) },
            None => Removed { was_known: false, spec: None },
        }
    }

    /// Removes a file, in whatever state. A file whose engine runs is dropped once the engine
    /// was cancelled and has ended: until then the answer is to cancel it and to try again.
    pub fn remove(&mut self, id: FileId) -> (r: RemoveStep)
        ensures
            old(self)@.is_removal(id, r, final(self)@),
    {
        if self.is_active(id) {
            return RemoveStep::Forward(FileCommand::Cancel);
        }
        RemoveStep::Removed(self.drop_record(id))
    }

    /// Drops a file, but only if no engine runs for it.
    pub fn remove_idle(&mut self, id: FileId) -> (r: Result<Removed, Error>)
        ensures
            old(self)@.engines.contains(id@) ==> {
                &&& final(self)@ == old(self)@
                &&& r matches Err(e) && e is Other && e.text()
                    == "download is active, cancel before remove"@
            },
            !old(self)@.engines.contains(id@) ==> {
                &&& final(self)@ == old(self)@.removed(id)
                &&& r == Ok::<Removed, Error>(old(self)@.removal_of(id))
            },
    {
        if self.is_active(id) {
            return Err(Error::Other("download is active, cancel before remove".to_owned()));
        }
        Ok(self.drop_record(id))
    }

    /// Pauses a file. A running engine takes the command; a file that waits is taken out of
    /// the queue.
    pub fn pause(&mut self, id: FileId, now: Moment) -> (r: Result<CommandStep, Error>)
        ensures
            old(self)@.is_pause(id, now, r, final(self)@),
    {
        if self.is_active(id) {
            return Ok(CommandStep::Forward(FileCommand::Pause));
        }
        self.unqueue(id);
        match self.status_of(id) {
            None => Err(Error::NotFound),
            Some(status) => {
                if status.is_terminal() {
                    return Err(Error::Other("download is terminal".to_owned()));
                }
                if status == FileStatus::Paused {
                    return Ok(CommandStep::Unchanged);
                }
                self.set_status(id, FileStatus::Paused, now);
                Ok(CommandStep::Changed(changed(id, FileStatus::Paused)))
            },
        }
    }

    /// Resumes a file. A running engine takes the command; another file waits again, and the
    /// queue is to be advanced.
    pub fn resume(&mut self, id: FileId, now: Moment) -> (r: Result<CommandStep, Error>)
        ensures
            old(self)@.is_resume(id, now, r, final(self)@),
    {
        if self.is_active(id) {
            return Ok(CommandStep::Forward(FileCommand::Resume));
        }
        match self.status_of(id) {
            None => Err(Error::NotFound),
            Some(status) => {
                if status.is_terminal() {
                    return Err(Error::Other("download is terminal".to_owned()));
                }
                let step = if status == FileStatus::Pending {
                    CommandStep::Unchanged
                } else {
                    self.set_status(id, FileStatus::Pending, now);
                    CommandStep::Changed(changed(id, FileStatus::Pending))
                };
                if !self.is_waiting(id) {
                    self.waiting.push_back(id);
                }
                Ok(step)
            },
        }
    }

    /// Cancels a file. A running engine takes the command; a file that has ended stays as it
    /// is.
    pub fn cancel(&mut self, id: FileId, now: Moment) -> (r: Result<CommandStep, Error>)
        ensures
            old(self)@.is_cancel(id, now, r, final(self)@),
    {
        if self.is_active(id) {
            return Ok(CommandStep::Forward(FileCommand::Cancel));
        }
        self.unqueue(id);
        match self.status_of(id) {
            None => Err(Error::NotFound),
            Some(status) => {
                if status.is_terminal() {
                    return Ok(CommandStep::Unchanged);
                }
                self.set_status(id, FileStatus::Cancelled, now);
                let update = StatusUpdate {
                    id,
                    status: FileStatus::Cancelled,
                    reason: Some(FailureReason::new(ReasonCode::CancelledByUser)),
                };
                let event = FileLifecycleEvent::status(id, FileStatus::Cancelled);
                Ok(CommandStep::Changed(Change { update, event }))
            },
        }
    }
}

/// The change to a status that needs no reason.
pub open spec fn plain_change(id: FileId, status: FileStatus) -> Change {
    Change {
        update: StatusUpdate { id, status, reason: None },
        event: FileLifecycleEvent { id, status, description: None },
    }
}

fn changed(id: FileId, status: FileStatus) -> (c: Change)
    ensures
        c == plain_change(id, status),
{
    Change {
        update: StatusUpdate { id, status, reason: None },
        event: FileLifecycleEvent::status(id, status),
    }
}

/// The change to `Cancelled` at the user's wish.
pub open spec fn cancel_change(id: FileId) -> Change {
    Change {
        update: StatusUpdate {
            id,
            status: FileStatus::Cancelled,
            reason: Some(FailureReason { code: ReasonCode::CancelledByUser, message: None }),
        },
        event: FileLifecycleEvent { id, status: FileStatus::Cancelled, description: None },
    }
}

/// The answer to a command for a file that has ended.
pub open spec fn refuses_terminal(r: Result<CommandStep, Error>) -> bool {
    r matches Err(e) && e is Other && e.text() == "download is terminal"@
}

impl ManagerModel {
    /// Whether a manager that knows `self` answers the command to pause `id` by `r` and then
    /// knows `next`.
    pub open spec fn is_pause(
        self,
        id: FileId,
        now: Moment,
        r: Result<CommandStep, Error>,
        next: ManagerModel,
    ) -> bool {
        if self.engines.contains(id@) {
            r == Ok::<CommandStep, Error>(CommandStep::Forward(FileCommand::Pause)) && next == self
        } else if !self.records.contains_key(id@) {
            r == Err::<CommandStep, Error>(Error::NotFound) && next == self.unqueued(id)
        } else if self.records[id@].status.terminal() {
            refuses_terminal(r) && next == self.unqueued(id)
        } else if self.records[id@].status is Paused {
            r == Ok::<CommandStep, Error>(CommandStep::Unchanged) && next == self.unqueued(id)
        } else {
            r == Ok::<CommandStep, Error>(
                CommandStep::Changed(plain_change(id, FileStatus::Paused)),
            ) && next == self.unqueued(id).with_status(id, FileStatus::Paused, now)
        }
    }

    /// Whether a manager that knows `self` answers the command to resume `id` by `r` and then
    /// knows `next`.
    pub open spec fn is_resume(
        self,
        id: FileId,
        now: Moment,
        r: Result<CommandStep, Error>,
        next: ManagerModel,
    ) -> bool {
        if self.engines.contains(id@) {
            r == Ok::<CommandStep, Error>(CommandStep::Forward(FileCommand::Resume)) && next == self
        } else if !self.records.contains_key(id@) {
            r == Err::<CommandStep, Error>(Error::NotFound) && next == self
        } else if self.records[id@].status.terminal() {
            refuses_terminal(r) && next == self
        } else if self.records[id@].status is Pending {
            r == Ok::<CommandStep, Error>(CommandStep::Unchanged) && next == self.queued(id)
        } else {
            r == Ok::<CommandStep, Error>(
                CommandStep::Changed(plain_change(id, FileStatus::Pending)),
            ) && next == self.with_status(id, FileStatus::Pending, now).queued(id)
        }
    }

    /// Whether a manager that knows `self` answers the command to cancel `id` by `r` and then
    /// knows `next`.
    pub open spec fn is_cancel(
        self,
        id: FileId,
        now: Moment,
        r: Result<CommandStep, Error>,
        next: ManagerModel,
    ) -> bool {
        if self.engines.contains(id@) {
            r == Ok::<CommandStep, Error>(CommandStep::Forward(FileCommand::Cancel)) && next == self
        } else if !self.records.contains_key(id@) {
            r == Err::<CommandStep, Error>(Error::NotFound) && next == self.unqueued(id)
        } else if self.records[id@].status.terminal() {
            r == Ok::<CommandStep, Error>(CommandStep::Unchanged) && next == self.unqueued(id)
        } else {
            r == Ok::<CommandStep, Error>(CommandStep::Changed(cancel_change(id))) && next
                == self.unqueued(id).with_status(id, FileStatus::Cancelled, now)
        }
    }
}

/// What removing a file comes to, once the row was removed from storage: a row that was not
/// there is no error, whether the manager knew the file or not.
pub fn remove_result(stored: Result<(), Error>) -> (r: Result<(), Error>)
    ensures
        r == (if stored == Err::<(), Error>(Error::NotFound) {
            Ok(())
        } else {
            stored
        }),
{
    match stored {
        Err(Error::NotFound) => Ok(()),
        other => other,
    }
}

} // verus!

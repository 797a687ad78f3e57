//! Advancing the queue: which file gets the next engine, and what happens when none can be
//! started.

use vstd::prelude::*;
use crate::domain::event::FileLifecycleEvent;
use crate::domain::file::File;
use crate::domain::id::FileId;
use crate::domain::reason::{FailureReason, ReasonCode};
use crate::domain::spec::FileSpec;
use crate::domain::status::FileStatus;
use crate::domain::time::Moment;
use crate::error::Error;
use super::model::{Change, ManagerModel, StatusUpdate};
use super::registry::DownloadManager;

verus! {

impl ManagerModel {
    /// Whether none of the first `n` files of the queue may be started.
    pub open spec fn passes_over(self, n: int) -> bool {
        forall|j: int| 0 <= j < n ==> !self.startable(#[trigger] self.waiting[j])
    }

    /// Whether a manager that knows `self` picks `r` for the next engine and then knows
    /// `next`: the first file of the queue that may be started, unless enough engines run.
    /// The files before it leave the queue.
    pub open spec fn is_pick(self, r: Option<FileId>, next: ManagerModel) -> bool {
        if self.full() {
            r is None && next == self
        } else {
            match r {
                Some(id) => exists|i: int|
                    {
                        &&& 0 <= i < self.waiting.len()
                        &&& #[trigger] self.waiting[i] == id
                        &&& self.startable(id)
                        &&& self.passes_over(i)
                        &&& next == ManagerModel { waiting: self.waiting.skip(i + 1), ..self }
                    },
                None => self.passes_over(self.waiting.len() as int) && next == ManagerModel {
                    waiting: Seq::empty(),
                    ..self
                },
            }
        }
    }
}

impl DownloadManager {
    /// The file that gets the next engine, if one may be started now.
    pub fn take_next(&mut self) -> (r: Option<FileId>)
        ensures
            old(self)@.is_pick(r, final(self)@),
    {
        if self.is_full() {
            return None;
        }
        let ghost before = self@;
        let ghost mut n: int = 0;
        assert(before.waiting.skip(0) =~= before.waiting);
        loop
            invariant
                before == old(self)@,
                !before.full(),
                0 <= n <= before.waiting.len(),
                before.passes_over(n),
                self@ == (ManagerModel { waiting: before.waiting.skip(n), ..before }),
            decreases before.waiting.len() - n,
        {
            match self.pop_waiting() {
                None => {
                    assert(n == before.waiting.len());
                    assert(self@.waiting =~= Seq::<FileId>::empty());
                    return None;
                },
                Some(id) => {
                    assert(before.waiting[n] == id);
                    assert(before.waiting.skip(n).drop_first() =~= before.waiting.skip(n + 1));
                    let status: Option<FileStatus> = self.status_of(id);
                    if status == Some(FileStatus::Pending) || status == Some(FileStatus::Retrying) {
                        assert(before.startable(id));
                        assert(self@ == (ManagerModel {
                            waiting: before.waiting.skip(n + 1),
                            ..before
                        }));
                        return Some(id);
                    }
                    assert(!before.startable(id));
                    proof {
                        n = n + 1;
                    }
                },
            }
        }
    }

    /// What was asked for, by which an engine for the file is prepared.
    pub fn spec_of(&self, id: FileId) -> (r: Result<FileSpec, Error>)
        ensures
            r == (if self@.records.contains_key(id@) {
                Ok(self@.records[id@].spec)
            } else {
                Err(Error::NotFound)
            }),
    {
        match self.get_file(&id) {
            Some(f) => Ok(f.spec),
            None => Err(Error::NotFound),
        }
    }

    /// Takes note that no engine could be started for a file: it has failed, with the text
    /// and the category of the error.
    pub fn spawn_failed(&mut self, id: FileId, error: &Error, now: Moment) -> (c: Change)
        ensures
            c.update.id == id,
            c.update.status == FileStatus::Failed,
            c.update.reason matches Some(r) && r.code == ReasonCode::of_error(*error)
                && (r.message matches Some(m) && m@ == error.text()),
            c.event.id == id,
            c.event.status == FileStatus::Failed,
            c.event.description matches Some(text) && text@ == error.text(),
            if old(self)@.records.contains_key(id@) {
                exists|text: String|
                    text@ == error.text() && final(self)@ == #[trigger] old(self)@.with_failure(
                        id,
                        text,
                        now,
                    )
            } else {
                final(self)@ == old(self)@
            },
    {
        let text: String = error.to_string();
        if self.status_of(id).is_some() {
            self.set_failure(id, text.clone(), now);
        }
        Change {
            update: StatusUpdate {
                id,
                status: FileStatus::Failed,
                reason: Some(FailureReason::from_error(error)),
            },
            event: FileLifecycleEvent::failed(id, text),
        }
    }

    /// What was asked for, if the file may be tried once more: only one that has failed may.
    /// The file is then removed and its description added anew.
    pub fn retry(&self, id: FileId) -> (r: Result<FileSpec, Error>)
        ensures
            if !self@.records.contains_key(id@) {
                r == Err::<FileSpec, Error>(Error::NotFound)
            } else if self@.records[id@].status is Failed {
                r == Ok::<FileSpec, Error>(self@.records[id@].spec)
            } else {
                r matches Err(e) && e is Other && e.text() == "download is not in failed state"@
            },
    {
        match self.get_file(&id) {
            Some(f) => if f.status == FileStatus::Failed {
                Ok(f.spec)
            } else {
                Err(Error::Other("download is not in failed state".to_owned()))
            },
            None => Err(Error::NotFound),
        }
    }

    /// All files, in no particular order.
    pub fn snapshot(&self) -> (files: Vec<File>)
        requires
            self@.wf(),
        ensures
            forall|i: int|
                0 <= i < files@.len() ==> self@.records.contains_key((#[trigger] files@[i]).id@)
                    && self@.records[files@[i].id@] == files@[i],
            files@.map_values(|f: File| f.id@).no_duplicates(),
            files@.map_values(|f: File| f.id@).to_set() == self@.records.dom(),
    {
        let keys: Vec<u128> = self.record_keys();
        let mut files: Vec<File> = Vec::new();
        let mut i: usize = 0;
        while i < keys.len()
            invariant
                i <= keys@.len(),
                self@.wf(),
                keys@.to_set() == self@.records.dom(),
                files@.len() == i,
                forall|j: int|
                    0 <= j < i ==> (#[trigger] files@[j]).id@ == keys@[j]
                        && self@.records.contains_key(keys@[j]) && self@.records[keys@[j]]
                        == files@[j],
            decreases keys@.len() - i,
        {
            let id: FileId = FileId::from_value(keys[i]);
            assert(keys@.to_set().contains(keys@[i as int]));
            match self.get_file(&id) {
                Some(f) => {
                    files.push(f);
                },
                None => {},
            }
            i = i + 1;
        }
        assert(files@.map_values(|f: File| f.id@) =~= keys@);
        files
    }

    /// The files whose engines run.
    pub fn active_ids(&self) -> (ids: Vec<FileId>)
        ensures
            ids@.map_values(|id: FileId| id@).no_duplicates(),
            ids@.map_values(|id: FileId| id@).to_set() == self@.engines,
    {
        let keys: Vec<u128> = self.engine_keys();
        let mut ids: Vec<FileId> = Vec::new();
        let mut i: usize = 0;
        while i < keys.len()
            invariant
                i <= keys@.len(),
                ids@.len() == i,
                forall|j: int| 0 <= j < i ==> (#[trigger] ids@[j])@ == keys@[j],
            decreases keys@.len() - i,
        {
            ids.push(FileId::from_value(keys[i]));
            i = i + 1;
        }
        assert(ids@.map_values(|id: FileId| id@) =~= keys@);
        ids
    }

    /// Whether none of `active` is at work any more: each is paused, has ended or is gone.
    pub fn is_drained(&self, active: &Vec<FileId>) -> (r: bool)
        ensures
            r == (forall|i: int|
                0 <= i < active@.len() ==> self@.at_rest(#[trigger] active@[i])),
    {
        let mut i: usize = 0;
        while i < active.len()
            invariant
                i <= active@.len(),
                forall|j: int| 0 <= j < i ==> self@.at_rest(#[trigger] active@[j]),
            decreases active@.len() - i,
        {
            let rest: bool = match self.status_of(active[i]) {
                Some(status) => status == FileStatus::Paused || status.is_terminal(),
                None => true,
            };
            if !rest {
                assert(!self@.at_rest(active@[i as int]));
                return false;
            }
            i = i + 1;
        }
        true
    }
}

impl ManagerModel {
    /// Whether a file is paused, has ended or is gone.
    pub open spec fn at_rest(self, id: FileId) -> bool {
        self.records.contains_key(id@) ==> self.records[id@].status is Paused
            || self.records[id@].status.terminal()
    }
}

/// The error of a shutdown whose time ran out before all engines were at rest.
pub fn shutdown_timeout() -> (e: Error)
    ensures
        e is Other,
        e.text() == "shutdown timeout"@,
{
    Error::Other("shutdown timeout".to_owned())
}

} // verus!

//! Finished files that are no longer on disk.

use vstd::prelude::*;
use crate::domain::event::FileLifecycleEvent;
use crate::domain::file::File;
use crate::domain::id::FileId;
use crate::domain::reason::{FailureReason, ReasonCode};
use crate::domain::status::FileStatus;
use crate::domain::time::Moment;
use super::model::{ManagerModel, StatusUpdate};
use super::registry::DownloadManager;

verus! {

/// The text that a file gets that was done and is no longer there.
pub open spec fn missing_text() -> Seq<char> {
    "file no longer exists on disk"@
}

fn missing() -> (s: String)
    ensures
        s@ == missing_text(),
{
    "file no longer exists on disk".to_owned()
}

/// Whether it is to be checked that a file is on disk: it is done and its name is known.
pub open spec fn checked_on_disk(f: File) -> bool {
    f.status is Done && f.spec.filename is Some
}

/// Whether it is to be checked that a file is on disk.
pub fn needs_presence_check(f: &File) -> (r: bool)
    ensures
        r == checked_on_disk(*f),
{
    f.status == FileStatus::Done && f.spec.filename.is_some()
}

/// Whether `g` is the file `f` marked as missing at `now`.
pub open spec fn is_marked_missing(f: File, g: File, now: Moment) -> bool {
    &&& g == File {
        status: FileStatus::Failed,
        error: g.error,
        updated_at: now,
        ..f
    }
    &&& g.error matches Some(text) && text@ == missing_text()
}

/// What is to be stored of a missing file, and what subscribers are told, if they are told.
#[derive(Debug, PartialEq, Eq)]
pub struct MissingChange {
    pub update: StatusUpdate,
    pub event: Option<FileLifecycleEvent>,
}

/// Whether a change stores that the file `id` is missing.
pub open spec fn stores_missing(c: MissingChange, id: FileId) -> bool {
    &&& c.update.id == id
    &&& c.update.status == FileStatus::Failed
    &&& c.update.reason matches Some(r) && r.code == ReasonCode::FileMissing && (r.message matches Some(
        m,
    ) && m@ == missing_text())
}

/// Whether a change tells that the file `id` is missing.
pub open spec fn tells_missing(c: MissingChange, id: FileId) -> bool {
    &&& c.event matches Some(event) && {
        &&& event.id == id
        &&& event.status == FileStatus::Failed
        &&& event.description matches Some(text) && text@ == missing_text()
    }
}

impl ManagerModel {
    /// Whether a manager that knows `self` and hears at `now` that the finished file `id` is
    /// missing answers by `c` and then knows `next`. A record that has left `Done` meanwhile
    /// is left alone. Of a file without a record the failure is stored and nothing else: there
    /// is nobody to tell.
    pub open spec fn is_flip(
        self,
        id: FileId,
        now: Moment,
        c: Option<MissingChange>,
        next: ManagerModel,
    ) -> bool {
        if !self.records.contains_key(id@) {
            next == self && (c matches Some(change) && stores_missing(change, id)
                && change.event is None)
        } else if self.records[id@].status is Done {
            &&& c matches Some(change) && stores_missing(change, id) && tells_missing(change, id)
            &&& is_marked_missing(self.records[id@], next.records[id@], now)
            &&& next == ManagerModel {
                records: self.records.insert(id@, next.records[id@]),
                ..self
            }
        } else {
            next == self && c is None
        }
    }
}

impl DownloadManager {
    /// Takes note that a finished file is missing.
    pub fn flip_done_to_failed_missing(&mut self, id: FileId, now: Moment) -> (c: Option<
        MissingChange,
    >)
        ensures
            old(self)@.is_flip(id, now, c, final(self)@),
    {
        let mut event: Option<FileLifecycleEvent> = None;
        match self.status_of(id) {
            Some(FileStatus::Done) => {
                self.set_failure(id, missing(), now);
                event = Some(FileLifecycleEvent::failed(id, missing()));
                assert(self@.records =~= old(self)@.records.insert(id@, self@.records[id@]));
            },
            Some(_) => {
                return None;
            },
            None => {},
        }
        let text: String = missing();
        Some(
            MissingChange {
                update: StatusUpdate {
                    id,
                    status: FileStatus::Failed,
                    reason: Some(
                        FailureReason::with_message(ReasonCode::FileMissing, text.as_str()),
                    ),
                },
                event,
            },
        )
    }

    /// Checks a list of files against what is on disk: `present` says of each file whether it
    /// is there, and counts for finished files only. Missing ones are marked in the list and
    /// in the records. Gives what is to be stored and told, in the order of the list.
    pub fn audit_done_presence(
        &mut self,
        files: &mut Vec<File>,
        present: &Vec<bool>,
        now: Moment,
    ) -> (changes: Vec<MissingChange>)
        requires
            old(files)@.len() == present@.len(),
        ensures
            final(files)@.len() == old(files)@.len(),
            forall|i: int|
                #![trigger final(files)@[i]]
                0 <= i < old(files)@.len() ==> if checked_on_disk(old(files)@[i])
                    && !present@[i] {
                    is_marked_missing(old(files)@[i], final(files)@[i], now)
                } else {
                    final(files)@[i] == old(files)@[i]
                },
            old(self)@.is_audited(old(files)@, present@, now, changes@, final(self)@),
    {
        let mut changes: Vec<MissingChange> = Vec::new();
        let mut i: usize = 0;
        let ghost all = files@;
        assert(all.take(0) =~= Seq::<File>::empty());
        while i < files.len()
            invariant
                i <= all.len(),
                all == old(files)@,
                files@.len() == all.len(),
                all.len() == present@.len(),
                forall|j: int| i <= j < all.len() ==> files@[j] == all[j],
                forall|j: int|
                    #![trigger files@[j]]
                    0 <= j < i ==> if checked_on_disk(all[j]) && !present@[j] {
                        is_marked_missing(all[j], files@[j], now)
                    } else {
                        files@[j] == all[j]
                    },
                old(self)@.is_audited(all.take(i as int), present@, now, changes@, self@),
            decreases all.len() - i,
        {
            let ghost m = self@;
            let ghost done = changes@;
            assert(all.take(i + 1).drop_last() =~= all.take(i as int));
            if needs_presence_check(&files[i]) && !present[i] {
                let mut f: File = files[i].clone();
                let change: Option<MissingChange> = self.flip_done_to_failed_missing(f.id, now);
                f.status = FileStatus::Failed;
                f.error = Some(missing());
                f.updated_at = now;
                files.set(i, f);
                assert(m.is_flip(all[i as int].id, now, change, self@));
                if let Some(c) = change {
                    changes.push(c);
                    assert(changes@.drop_last() =~= done);
                }
            }
            i = i + 1;
        }
        assert(all.take(all.len() as int) =~= all);
        changes
    }
}

impl ManagerModel {
    /// Whether checking `files` one after the other takes a manager from `self` to `next`
    /// with `changes` to be stored and told.
    pub open spec fn is_audited(
        self,
        files: Seq<File>,
        present: Seq<bool>,
        now: Moment,
        changes: Seq<MissingChange>,
        next: ManagerModel,
    ) -> bool
        decreases files.len(),
    {
        if files.len() == 0 {
            next == self && changes.len() == 0
        } else {
            let f = files.last();
            let rest = files.drop_last();
            if checked_on_disk(f) && !present[rest.len() as int] {
                exists|mid: ManagerModel, c: Option<MissingChange>| #[trigger]
                    mid.is_flip(f.id, now, c, next) && match c {
                        Some(change) => changes.len() > 0 && changes.last() == change
                            && self.is_audited(rest, present, now, changes.drop_last(), mid),
                        None => self.is_audited(rest, present, now, changes, mid),
                    }
            } else {
                self.is_audited(rest, present, now, changes, next)
            }
        }
    }
}

} // verus!

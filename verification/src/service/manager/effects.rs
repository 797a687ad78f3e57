//! What each command and event does to a file, status by status.

use vstd::prelude::*;
use crate::domain::command::FileCommand;
use crate::domain::event::FileLifecycleEvent;
use crate::domain::file::File;
use crate::domain::id::FileId;
use crate::domain::reason::{FailureReason, ReasonCode};
use crate::domain::status::FileStatus;
use crate::domain::time::Moment;
use crate::error::Error;
use super::audit::{checked_on_disk, is_marked_missing, MissingChange};
use super::bulk::{kept, FileStep};
use super::model::{
    bootstrap_updates, normalized, without, CommandStep, ManagerModel, RemoveStep, StatusUpdate,
};

verus! {

/// Taking a file out of the queue leaves the others in their order.
pub proof fn queue_keeps_its_order(s: Seq<FileId>, id: FileId)
    ensures
        without(s, id) == s.filter(|x: FileId| x != id),
    decreases s.len(),
{
    reveal(Seq::filter);
    if s.len() > 0 {
        queue_keeps_its_order(s.drop_last(), id);
    } else {
        assert(without(s, id) =~= s.filter(|x: FileId| x != id));
    }
}

/// Keeping some files of the queue leaves them in their order.
pub proof fn kept_files_keep_their_order(s: Seq<FileId>, keep: spec_fn(FileId) -> bool)
    ensures
        kept(s, keep) == s.filter(keep),
    decreases s.len(),
{
    reveal(Seq::filter);
    if s.len() > 0 {
        kept_files_keep_their_order(s.drop_last(), keep);
    } else {
        assert(kept(s, keep) =~= s.filter(keep));
    }
}

/// A file without an engine that is cancelled has ended: one that waited, was paused, ran or was
/// being tried again is cancelled at the user's wish, which is stored and told; one that had
/// ended before stays as it is. It no longer waits. An engine takes the command itself, and an
/// unknown file is not found.
pub proof fn cancel_ends_the_file(
    m: ManagerModel,
    id: FileId,
    now: Moment,
    r: Result<CommandStep, Error>,
    next: ManagerModel,
)
    requires
        m.is_cancel(id, now, r, next),
    ensures
        m.engines.contains(id@) ==> next == m && r == Ok::<CommandStep, Error>(
            CommandStep::Forward(FileCommand::Cancel),
        ),
        !m.engines.contains(id@) && !m.records.contains_key(id@) ==> next.records == m.records && r
            == Err::<CommandStep, Error>(Error::NotFound),
        !m.engines.contains(id@) && m.records.contains_key(id@) ==> {
            let before = m.records[id@];
            let after = next.records[id@];
            &&& next.records.contains_key(id@)
            &&& after.status is Done || after.status is Failed || after.status is Cancelled
            &&& before.status is Done || before.status is Failed || before.status is Cancelled
                ==> after == before && r == Ok::<CommandStep, Error>(CommandStep::Unchanged)
            &&& before.status is Pending || before.status is Paused || before.status is Running
                || before.status is Retrying ==> {
                &&& after == (File { status: FileStatus::Cancelled, updated_at: now, ..before })
                &&& r matches Ok(CommandStep::Changed(change)) && {
                    &&& change.update.id == id
                    &&& change.update.status is Cancelled
                    &&& change.update.reason == Some(
                        FailureReason { code: ReasonCode::CancelledByUser, message: None },
                    )
                    &&& change.event.id == id
                    &&& change.event.status is Cancelled
                    &&& change.event.description is None
                }
            }
            &&& r matches Ok(CommandStep::Changed(change)) ==> change.update.status == after.status
                && before.status != after.status
        },
        !m.engines.contains(id@) ==> next.waiting == m.waiting.filter(|x: FileId| x != id),
        next.engines == m.engines,
        next.max_concurrent == m.max_concurrent,
{
    queue_keeps_its_order(m.waiting, id);
}

/// A file without an engine that is paused no longer waits: one that had ended is refused, one
/// that was paused already stays as it is, and any other is paused, which is stored and told. An
/// engine takes the command itself, and an unknown file is not found.
pub proof fn pause_holds_the_file(
    m: ManagerModel,
    id: FileId,
    now: Moment,
    r: Result<CommandStep, Error>,
    next: ManagerModel,
)
    requires
        m.is_pause(id, now, r, next),
    ensures
        m.engines.contains(id@) ==> next == m && r == Ok::<CommandStep, Error>(
            CommandStep::Forward(FileCommand::Pause),
        ),
        !m.engines.contains(id@) && !m.records.contains_key(id@) ==> next.records == m.records && r
            == Err::<CommandStep, Error>(Error::NotFound),
        !m.engines.contains(id@) && m.records.contains_key(id@) ==> {
            let before = m.records[id@];
            let after = next.records[id@];
            &&& next.records.contains_key(id@)
            &&& before.status is Done || before.status is Failed || before.status is Cancelled ==> {
                &&& after == before
                &&& r matches Err(e) && e is Other && e.text() == "download is terminal"@
            }
            &&& before.status is Paused ==> after == before && r == Ok::<CommandStep, Error>(
                CommandStep::Unchanged,
            )
            &&& before.status is Pending || before.status is Running || before.status
                is Retrying ==> {
                &&& after == (File { status: FileStatus::Paused, updated_at: now, ..before })
                &&& r matches Ok(step) && tells_plainly(step, id, FileStatus::Paused)
            }
        },
        !m.engines.contains(id@) ==> next.waiting == m.waiting.filter(|x: FileId| x != id),
        next.engines == m.engines,
        next.max_concurrent == m.max_concurrent,
{
    queue_keeps_its_order(m.waiting, id);
}

/// Whether a step stores and tells that the file `id` has the given status, without a reason and
/// without a text.
pub open spec fn tells_plainly(step: CommandStep, id: FileId, status: FileStatus) -> bool {
    step matches CommandStep::Changed(change) && {
        &&& change.update.id == id
        &&& change.update.status == status
        &&& change.update.reason is None
        &&& change.event.id == id
        &&& change.event.status == status
        &&& change.event.description is None
    }
}

/// A file without an engine that is resumed waits, last unless it waited already: one that had
/// ended is refused, one that is pending stays as it is, and any other is pending again, which is
/// stored and told. An engine takes the command itself, and an unknown file is not found.
pub proof fn resume_lets_the_file_wait(
    m: ManagerModel,
    id: FileId,
    now: Moment,
    r: Result<CommandStep, Error>,
    next: ManagerModel,
)
    requires
        m.is_resume(id, now, r, next),
    ensures
        m.engines.contains(id@) ==> next == m && r == Ok::<CommandStep, Error>(
            CommandStep::Forward(FileCommand::Resume),
        ),
        !m.engines.contains(id@) && !m.records.contains_key(id@) ==> next == m && r == Err::<
            CommandStep,
            Error,
        >(Error::NotFound),
        !m.engines.contains(id@) && m.records.contains_key(id@) ==> {
            let before = m.records[id@];
            let after = next.records[id@];
            &&& before.status is Done || before.status is Failed || before.status is Cancelled ==> {
                &&& next == m
                &&& r matches Err(e) && e is Other && e.text() == "download is terminal"@
            }
            &&& before.status is Pending ==> next.records == m.records && r == Ok::<
                CommandStep,
                Error,
            >(CommandStep::Unchanged)
            &&& before.status is Paused || before.status is Running || before.status
                is Retrying ==> {
                &&& next.records.contains_key(id@)
                &&& after == (File { status: FileStatus::Pending, updated_at: now, ..before })
                &&& r matches Ok(step) && tells_plainly(step, id, FileStatus::Pending)
            }
            &&& r is Ok ==> next.waiting == (if m.waiting.contains(id) {
                m.waiting
            } else {
                m.waiting.push(id)
            })
        },
        next.engines == m.engines,
        next.max_concurrent == m.max_concurrent,
{
}

/// An event of an engine is taken over by the record of its file: a failure with its text, always;
/// another status where the record does not have it yet. What the record takes over is stored, a
/// failure under the category for what has none of its own. An event of a file without a record
/// leads to nothing.
pub proof fn events_reach_the_record(m: ManagerModel, ev: FileLifecycleEvent, now: Moment)
    ensures
        ({
            let r = m.fanned_in(ev, now);
            let known = m.records.contains_key(ev.id@);
            let before = m.records[ev.id@];
            let after = r.0.records[ev.id@];
            &&& !known ==> r.0 == m && r.1 is None
            &&& r.0.records.dom() == m.records.dom()
            &&& forall|k: u128| #[trigger]
                m.records.contains_key(k) && k != ev.id@ ==> r.0.records[k] == m.records[k]
            &&& known ==> after.status == ev.status
            &&& known && ev.status is Failed && ev.description is Some ==> {
                &&& after == (File {
                    status: FileStatus::Failed,
                    error: ev.description,
                    updated_at: now,
                    ..before
                })
                &&& r.1 == Some(
                    StatusUpdate {
                        id: ev.id,
                        status: FileStatus::Failed,
                        reason: Some(
                            FailureReason { code: ReasonCode::Unknown, message: ev.description },
                        ),
                    },
                )
            }
            &&& known && !(ev.status is Failed && ev.description is Some) ==> {
                &&& before.status == ev.status ==> r.0 == m && r.1 is None
                &&& before.status != ev.status ==> {
                    &&& after == (File { status: ev.status, updated_at: now, ..before })
                    &&& r.1 matches Some(u) && u.id == ev.id && u.status == ev.status
                    &&& r.1 matches Some(u) && (!(ev.status is Failed) ==> u.reason is None)
                    &&& r.1 matches Some(u) && (ev.status is Failed ==> u.reason == Some(
                        FailureReason { code: ReasonCode::Unknown, message: None },
                    ))
                }
            }
            &&& r.0.waiting == m.waiting
            &&& r.0.engines == m.engines
            &&& r.0.max_concurrent == m.max_concurrent
        }),
{
    assert(m.fanned_in(ev, now).0.records.dom() =~= m.records.dom());
}

/// A file that was added is known as it is and waits last; nothing else changes.
pub proof fn added_file_waits_last(m: ManagerModel, file: File)
    ensures
        m.added(file).records == m.records.insert(file.id@, file),
        m.added(file).waiting == m.waiting.push(file.id),
        m.added(file).engines == m.engines,
        m.added(file).max_concurrent == m.max_concurrent,
{
}

/// A file without an engine that is removed is gone from the records and from the queue, and
/// nothing else is. The answer tells whether it was known, and what had been asked for. A file
/// with an engine is cancelled first.
pub proof fn removal_drops_only_the_file(
    m: ManagerModel,
    id: FileId,
    r: RemoveStep,
    next: ManagerModel,
)
    requires
        m.is_removal(id, r, next),
    ensures
        m.engines.contains(id@) ==> next == m && r == RemoveStep::Forward(FileCommand::Cancel),
        !m.engines.contains(id@) ==> {
            &&& next.records == m.records.remove(id@)
            &&& next.waiting == m.waiting.filter(|x: FileId| x != id)
            &&& next.engines == m.engines
            &&& next.max_concurrent == m.max_concurrent
            &&& r matches RemoveStep::Removed(left) && {
                &&& left.was_known == m.records.contains_key(id@)
                &&& m.records.contains_key(id@) ==> left.spec == Some(m.records[id@].spec)
                &&& !m.records.contains_key(id@) ==> left.spec is None
            }
        },
        m.removed(id).records == m.records.remove(id@),
        m.removed(id).waiting == m.waiting.filter(|x: FileId| x != id),
        m.removal_of(id).was_known == m.records.contains_key(id@),
        m.records.contains_key(id@) ==> m.removal_of(id).spec == Some(m.records[id@].spec),
{
    queue_keeps_its_order(m.waiting, id);
}

/// A failure and a change of status are noted in the record of the file with their time; nothing
/// else about the file, and no other file, changes.
pub proof fn changes_are_noted_with_their_time(
    m: ManagerModel,
    id: FileId,
    status: FileStatus,
    error: String,
    now: Moment,
)
    ensures
        m.with_status(id, status, now) == (ManagerModel {
            records: m.records.insert(
                id@,
                File { status, updated_at: now, ..m.records[id@] },
            ),
            ..m
        }),
        m.with_failure(id, error, now) == (ManagerModel {
            records: m.records.insert(
                id@,
                File {
                    status: FileStatus::Failed,
                    updated_at: now,
                    error: Some(error),
                    ..m.records[id@]
                },
            ),
            ..m
        }),
{
}

/// Whether the file `id` is pending or is being tried again.
pub open spec fn awaits_engine(m: ManagerModel, id: FileId) -> bool {
    m.records.contains_key(id@) && (m.records[id@].status == FileStatus::Pending
        || m.records[id@].status == FileStatus::Retrying)
}

/// While as many engines run as may, no file gets one and the queue stays. Otherwise the first
/// file of the queue that is pending or being tried again gets one, and the queue goes on behind
/// it; if there is no such file, the queue is empty afterwards.
pub proof fn first_pending_file_gets_the_engine(
    m: ManagerModel,
    r: Option<FileId>,
    next: ManagerModel,
)
    requires
        m.is_pick(r, next),
    ensures
        next.records == m.records,
        next.engines == m.engines,
        next.max_concurrent == m.max_concurrent,
        (m.max_concurrent matches Some(n) && m.engines.len() >= n) ==> r is None && next == m,
        (m.max_concurrent matches Some(n) ==> m.engines.len() < n) ==> match r {
            Some(id) => {
                &&& awaits_engine(m, id)
                &&& exists|i: int|
                    {
                        &&& 0 <= i < m.waiting.len()
                        &&& #[trigger] m.waiting[i] == id
                        &&& next.waiting == m.waiting.skip(i + 1)
                        &&& forall|j: int| 0 <= j < i ==> !awaits_engine(m, #[trigger] m.waiting[j])
                    }
            },
            None => {
                &&& next.waiting.len() == 0
                &&& forall|j: int|
                    0 <= j < m.waiting.len() ==> !awaits_engine(m, #[trigger] m.waiting[j])
            },
        },
{
    if let Some(id) = r {
        if !m.full() {
            let i = choose|i: int|
                {
                    &&& 0 <= i < m.waiting.len()
                    &&& #[trigger] m.waiting[i] == id
                    &&& m.startable(id)
                    &&& m.passes_over(i)
                    &&& next == ManagerModel { waiting: m.waiting.skip(i + 1), ..m }
                };
            assert forall|j: int| 0 <= j < i implies !awaits_engine(m, #[trigger] m.waiting[j]) by {
                assert(!m.startable(m.waiting[j]));
            }
            assert(m.waiting[i] == id);
        }
    } else {
        if !m.full() {
            assert forall|j: int| 0 <= j < m.waiting.len() implies !awaits_engine(
                m,
                #[trigger] m.waiting[j],
            ) by {
                assert(!m.startable(m.waiting[j]));
            }
        }
    }
}

/// A file is at rest exactly where it is gone, is paused or has ended.
pub proof fn rest_is_pause_or_end(m: ManagerModel, id: FileId)
    ensures
        m.at_rest(id) <==> !m.records.contains_key(id@) || m.records[id@].status is Paused
            || m.records[id@].status is Done || m.records[id@].status is Failed
            || m.records[id@].status is Cancelled,
{
}

/// At the start, a file that ran or was being tried again is pending; any other stays as it was.
pub proof fn only_work_is_taken_back(f: File)
    ensures
        f.status is Running || f.status is Retrying ==> normalized(f) == (File {
            status: FileStatus::Pending,
            ..f
        }),
        !(f.status is Running || f.status is Retrying) ==> normalized(f) == f,
{
}

/// At the start, the pending files and those that ran or were being tried again wait, in the order
/// in which they were loaded; of the latter it is stored that they are pending. No engine runs for
/// them.
pub proof fn loaded_files_wait_in_order(m: ManagerModel, loaded: Seq<File>)
    ensures
        ({
            let waits = |f: File|
                f.status is Pending || f.status is Running || f.status is Retrying;
            let was_at_work = |f: File| f.status is Running || f.status is Retrying;
            &&& m.bootstrapped(loaded).waiting == m.waiting + loaded.filter(waits).map_values(
                |f: File| f.id,
            )
            &&& bootstrap_updates(loaded) == loaded.filter(was_at_work).map_values(
                |f: File|
                    StatusUpdate { id: f.id, status: FileStatus::Pending, reason: None },
            )
            &&& m.bootstrapped(loaded).engines == m.engines
            &&& m.bootstrapped(loaded).max_concurrent == m.max_concurrent
        }),
    decreases loaded.len(),
{
    reveal(Seq::filter);
    let waits = |f: File| f.status is Pending || f.status is Running || f.status is Retrying;
    let was_at_work = |f: File| f.status is Running || f.status is Retrying;
    let id_of = |f: File| f.id;
    let update_of = |f: File|
        StatusUpdate { id: f.id, status: FileStatus::Pending, reason: None };
    if loaded.len() == 0 {
        assert(m.bootstrapped(loaded).waiting =~= m.waiting + loaded.filter(waits).map_values(
            id_of,
        ));
        assert(bootstrap_updates(loaded) =~= loaded.filter(was_at_work).map_values(update_of));
    } else {
        let rest = loaded.drop_last();
        loaded_files_wait_in_order(m, rest);
        assert(m.bootstrapped(loaded).waiting =~= m.waiting + loaded.filter(waits).map_values(
            id_of,
        ));
        assert(bootstrap_updates(loaded) =~= loaded.filter(was_at_work).map_values(update_of));
    }
}

/// Pausing every file leaves files with an engine and files that are paused or have ended as they
/// are, and pauses every other; only files with an engine, and files that nobody knows, still
/// wait. Engines are asked to pause, pauses are stored and told, and every file that has not ended
/// or has an engine is answered.
pub proof fn pausing_all_holds_every_file(
    m: ManagerModel,
    now: Moment,
    steps: Seq<FileStep>,
    next: ManagerModel,
    id: FileId,
)
    requires
        m.is_pause_of_all(now, steps, next),
        m.records.contains_key(id@),
    ensures
        ({
            let before = m.records[id@];
            let after = next.records[id@];
            let ended = before.status is Done || before.status is Failed || before.status
                is Cancelled;
            &&& next.records.dom() == m.records.dom()
            &&& m.engines.contains(id@) || ended || before.status is Paused ==> after == before
            &&& !m.engines.contains(id@) && !ended ==> after.status is Paused
            &&& !m.engines.contains(id@) && (before.status is Pending || before.status is Running
                || before.status is Retrying) ==> after == (File {
                status: FileStatus::Paused,
                updated_at: now,
                ..before
            })
            &&& forall|i: int|
                0 <= i < steps.len() && (#[trigger] steps[i]).id == id ==> {
                    &&& m.engines.contains(id@) ==> steps[i].step == CommandStep::Forward(
                        FileCommand::Pause,
                    )
                    &&& !m.engines.contains(id@) ==> !ended
                    &&& !m.engines.contains(id@) && before.status is Paused ==> steps[i].step
                        == CommandStep::Unchanged
                    &&& !m.engines.contains(id@) && !(before.status is Paused) ==> tells_plainly(
                        steps[i].step,
                        id,
                        FileStatus::Paused,
                    )
                }
            &&& m.engines.contains(id@) || !ended ==> exists|i: int|
                0 <= i < steps.len() && (#[trigger] steps[i]).id == id
        }),
        next.waiting == m.waiting.filter(
            |x: FileId| m.engines.contains(x@) || !m.records.contains_key(x@),
        ),
        next.engines == m.engines,
        next.max_concurrent == m.max_concurrent,
{
    let keep = |x: FileId| m.engines.contains(x@) || !m.records.dom().contains(x@);
    let stays = |x: FileId| m.engines.contains(x@) || !m.records.contains_key(x@);
    assert(keep =~= stays);
    kept_files_keep_their_order(m.waiting, keep);
    assert forall|i: int| 0 <= i < steps.len() && (#[trigger] steps[i]).id == id implies m.pause_step(
        id,
    ) == Some(steps[i].step) by {}
    let ended = m.records[id@].status is Done || m.records[id@].status is Failed
        || m.records[id@].status is Cancelled;
    if m.engines.contains(id@) || !ended {
        assert(m.pause_step(id) is Some);
    }
}

/// Resuming every file makes the paused files without an engine pending and leaves every other
/// file as it is. They wait behind those that waited before.
pub proof fn resuming_all_lets_paused_files_wait(
    m: ManagerModel,
    now: Moment,
    next: ManagerModel,
    id: FileId,
)
    requires
        m.is_resume_of(m.records.dom(), now, next),
        m.records.contains_key(id@),
    ensures
        ({
            let before = m.records[id@];
            let after = next.records[id@];
            let n = m.waiting.len() as int;
            let resumed = before.status is Paused && !m.engines.contains(id@);
            &&& next.records.dom() == m.records.dom()
            &&& resumed ==> after == (File {
                status: FileStatus::Pending,
                updated_at: now,
                ..before
            })
            &&& !resumed ==> after == before
            &&& n <= next.waiting.len()
            &&& next.waiting.take(n) == m.waiting
            &&& resumed ==> next.waiting.contains(id)
            &&& next.waiting.contains(id) ==> resumed || m.waiting.contains(id)
        }),
        next.engines == m.engines,
        next.max_concurrent == m.max_concurrent,
{
    let n = m.waiting.len() as int;
    let added = next.waiting.skip(n);
    let resumed = m.records[id@].status is Paused && !m.engines.contains(id@);
    if resumed {
        if m.waiting.contains(id) {
            let i = choose|i: int| 0 <= i < n && m.waiting[i] == id;
            assert(next.waiting.take(n)[i] == id);
            assert(next.waiting[i] == id);
        } else {
            assert(added.contains(id));
            let i = choose|i: int| 0 <= i < added.len() && added[i] == id;
            assert(next.waiting[n + i] == id);
        }
    }
    if next.waiting.contains(id) {
        let i = choose|i: int| 0 <= i < next.waiting.len() && next.waiting[i] == id;
        if i < n {
            assert(next.waiting.take(n)[i] == id);
            assert(m.waiting[i] == id);
        } else {
            assert(added[i - n] == id);
            assert(added.contains(id));
        }
    }
}

/// A command to resume every file is answered for the paused files and for no other: an engine
/// takes it, and of a file without one it is stored and told that it is pending.
pub proof fn resuming_all_answers_paused_files(m: ManagerModel, id: FileId)
    ensures
        ({
            let paused = m.records.contains_key(id@) && m.records[id@].status is Paused;
            &&& m.resume_step(id) is Some <==> paused
            &&& paused && m.engines.contains(id@) ==> m.resume_step(id) == Some(
                CommandStep::Forward(FileCommand::Resume),
            )
            &&& paused && !m.engines.contains(id@) ==> (m.resume_step(id) matches Some(step)
                && tells_plainly(step, id, FileStatus::Pending))
        }),
{
}

/// Only finished files whose name is known are looked for on disk.
pub proof fn only_named_finished_files_are_checked(f: File)
    ensures
        checked_on_disk(f) <==> f.status is Done && f.spec.filename is Some,
{
}

/// A file that is marked as missing has failed, with a text that says so, and is otherwise the
/// file that it was.
pub proof fn missing_file_has_failed(f: File, g: File, now: Moment)
    requires
        is_marked_missing(f, g, now),
    ensures
        g.status is Failed,
        g.error matches Some(text) && text@ == "file no longer exists on disk"@,
        g.updated_at == now,
        g.id == f.id,
        g.spec == f.spec,
        g.attempt == f.attempt,
        g.created_at == f.created_at,
{
}

/// A finished file that is missing is marked so in its record, which is stored and told; a file
/// that is not done any more is left alone, and of one without a record the failure is stored and
/// nobody is told.
pub proof fn missing_file_is_marked(
    m: ManagerModel,
    id: FileId,
    now: Moment,
    c: Option<MissingChange>,
    next: ManagerModel,
)
    requires
        m.is_flip(id, now, c, next),
    ensures
        ({
            let known = m.records.contains_key(id@);
            let done = known && m.records[id@].status is Done;
            &&& c is Some <==> done || !known
            &&& c matches Some(change) ==> {
                &&& change.update.id == id
                &&& change.update.status is Failed
                &&& change.update.reason matches Some(reason) && reason.code
                    == ReasonCode::FileMissing && (reason.message matches Some(text) && text@
                    == "file no longer exists on disk"@)
                &&& change.event is Some <==> done
                &&& change.event matches Some(event) ==> event.id == id && event.status is Failed
                    && (event.description matches Some(text) && text@
                    == "file no longer exists on disk"@)
            }
            &&& !done ==> next == m
            &&& done ==> {
                let after = next.records[id@];
                &&& next == (ManagerModel { records: m.records.insert(id@, after), ..m })
                &&& after == (File {
                    status: FileStatus::Failed,
                    error: after.error,
                    updated_at: now,
                    ..m.records[id@]
                })
                &&& after.error matches Some(text) && text@ == "file no longer exists on disk"@
            }
        }),
{
}

/// Whether the file under `k` is among `files` as finished, with a known name, and is not there.
pub open spec fn found_missing(files: Seq<File>, present: Seq<bool>, k: u128) -> bool {
    exists|i: int|
        {
            &&& 0 <= i < files.len()
            &&& (#[trigger] files[i]).id@ == k
            &&& files[i].status == FileStatus::Done
            &&& files[i].spec.filename is Some
            &&& !present[i]
        }
}

/// Looking for a list of files marks exactly those records as missing that are done and whose file
/// is among the finished ones of the list that are not there. Every other record, the queue and
/// the engines stay as they are.
pub proof fn audit_marks_exactly_the_missing(
    m: ManagerModel,
    files: Seq<File>,
    present: Seq<bool>,
    now: Moment,
    changes: Seq<MissingChange>,
    next: ManagerModel,
    k: u128,
)
    requires
        m.is_audited(files, present, now, changes, next),
    ensures
        next.records.contains_key(k) == m.records.contains_key(k),
        m.records.contains_key(k) ==> {
            let before = m.records[k];
            let after = next.records[k];
            let gone = before.status is Done && found_missing(files, present, k);
            &&& !gone ==> after == before
            &&& gone ==> {
                &&& after == (File {
                    status: FileStatus::Failed,
                    error: after.error,
                    updated_at: now,
                    ..before
                })
                &&& after.error matches Some(text) && text@ == "file no longer exists on disk"@
            }
        },
        next.waiting == m.waiting,
        next.engines == m.engines,
        next.max_concurrent == m.max_concurrent,
    decreases files.len(),
{
    if files.len() > 0 {
        let rest = files.drop_last();
        let f = files.last();
        let n = rest.len() as int;
        assert(files[n] == f);
        assert(found_missing(files, present, k) <==> found_missing(rest, present, k) || (f.id@ == k
            && f.status == FileStatus::Done && f.spec.filename is Some && !present[n])) by {
            if found_missing(files, present, k) {
                let i = choose|i: int|
                    {
                        &&& 0 <= i < files.len()
                        &&& (#[trigger] files[i]).id@ == k
                        &&& files[i].status == FileStatus::Done
                        &&& files[i].spec.filename is Some
                        &&& !present[i]
                    };
                if i < n {
                    assert(rest[i] == files[i]);
                }
            }
            if found_missing(rest, present, k) {
                let i = choose|i: int|
                    {
                        &&& 0 <= i < rest.len()
                        &&& (#[trigger] rest[i]).id@ == k
                        &&& rest[i].status == FileStatus::Done
                        &&& rest[i].spec.filename is Some
                        &&& !present[i]
                    };
                assert(files[i] == rest[i]);
            }
        }
        if checked_on_disk(f) && !present[n] {
            let (mid, c) = choose|mid: ManagerModel, c: Option<MissingChange>| #[trigger]
                mid.is_flip(f.id, now, c, next) && match c {
                    Some(change) => changes.len() > 0 && changes.last() == change && m.is_audited(
                        rest,
                        present,
                        now,
                        changes.drop_last(),
                        mid,
                    ),
                    None => m.is_audited(rest, present, now, changes, mid),
                };
            if c is Some {
                audit_marks_exactly_the_missing(
                    m,
                    rest,
                    present,
                    now,
                    changes.drop_last(),
                    mid,
                    k,
                );
            } else {
                audit_marks_exactly_the_missing(m, rest, present, now, changes, mid, k);
            }
        } else {
            audit_marks_exactly_the_missing(m, rest, present, now, changes, next, k);
        }
    }
}

} // verus!

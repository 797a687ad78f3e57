//! What every command and event keeps.

use vstd::prelude::*;
use crate::domain::command::FileCommand;
use crate::domain::event::FileLifecycleEvent;
use crate::domain::file::File;
use crate::domain::id::FileId;
use crate::domain::time::Moment;
use crate::error::Error;
use super::audit::{checked_on_disk, MissingChange};
use super::bulk::FileStep;
use super::model::{
    normalized, without, without_drops_only, Change, CommandStep, ManagerModel, RemoveStep,
};

verus! {

/// Whether one of the commands of the user takes a manager from `m` to `next`.
pub open spec fn is_command(
    m: ManagerModel,
    id: FileId,
    now: Moment,
    r: Result<CommandStep, Error>,
    next: ManagerModel,
) -> bool {
    ||| m.is_pause(id, now, r, next)
    ||| m.is_resume(id, now, r, next)
    ||| m.is_cancel(id, now, r, next)
}

/// No command changes a file that has ended.
pub proof fn ended_files_stay(
    m: ManagerModel,
    id: FileId,
    now: Moment,
    r: Result<CommandStep, Error>,
    next: ManagerModel,
    k: u128,
)
    requires
        is_command(m, id, now, r, next),
        m.records.contains_key(k),
        m.records[k].status.terminal(),
    ensures
        next.records.contains_key(k),
        next.records[k] == m.records[k],
{
}

/// A command for one file changes no other file, and starts or ends no engine.
pub proof fn other_files_stay(
    m: ManagerModel,
    id: FileId,
    now: Moment,
    r: Result<CommandStep, Error>,
    next: ManagerModel,
    k: u128,
)
    requires
        is_command(m, id, now, r, next),
        k != id@,
    ensures
        next.records.contains_key(k) == m.records.contains_key(k),
        m.records.contains_key(k) ==> next.records[k] == m.records[k],
        next.engines == m.engines,
{
}

/// A command that an engine takes changes nothing in the registry.
pub proof fn forwarded_commands_change_nothing(
    m: ManagerModel,
    id: FileId,
    now: Moment,
    r: Result<CommandStep, Error>,
    next: ManagerModel,
)
    requires
        is_command(m, id, now, r, next),
        m.engines.contains(id@),
    ensures
        next == m,
        r matches Ok(CommandStep::Forward(_)),
{
}

/// A file that was paused before it got an engine gets none until it is resumed.
pub proof fn paused_file_is_not_started(
    m: ManagerModel,
    id: FileId,
    now: Moment,
    r: Result<CommandStep, Error>,
    next: ManagerModel,
    picked: FileId,
    last: ManagerModel,
)
    requires
        m.is_pause(id, now, r, next),
        !m.engines.contains(id@),
        next.is_pick(Some(picked), last),
    ensures
        picked != id,
{
    without_drops_only(m.waiting, id);
    if picked == id {
        let i = choose|i: int| 0 <= i < next.waiting.len() && #[trigger] next.waiting[i] == id;
        assert(next.waiting.contains(id));
    }
}

/// A file that was resumed waits, and it waits once.
pub proof fn resumed_file_waits_once(
    m: ManagerModel,
    id: FileId,
    now: Moment,
    r: Result<CommandStep, Error>,
    next: ManagerModel,
)
    requires
        m.waiting.no_duplicates(),
        m.is_resume(id, now, r, next),
        r is Ok,
        !m.engines.contains(id@),
    ensures
        next.waiting.contains(id),
        next.waiting.no_duplicates(),
        next.startable(id),
{
    if !m.waiting.contains(id) {
        let w = m.waiting.push(id);
        assert(w[m.waiting.len() as int] == id);
        assert forall|i: int, j: int| 0 <= i < w.len() && 0 <= j < w.len() && i != j implies w[i]
            != w[j] by {
            if i < m.waiting.len() && j < m.waiting.len() {
                assert(m.waiting[i] != m.waiting[j]);
            } else if i < m.waiting.len() {
                assert(m.waiting.contains(m.waiting[i]));
            } else {
                assert(m.waiting.contains(m.waiting[j]));
            }
        }
    }
}

/// No command puts a file into the queue twice.
pub proof fn queue_holds_each_file_once(
    m: ManagerModel,
    id: FileId,
    now: Moment,
    r: Result<CommandStep, Error>,
    next: ManagerModel,
)
    requires
        m.waiting.no_duplicates(),
        is_command(m, id, now, r, next),
    ensures
        next.waiting.no_duplicates(),
        m.removed(id).waiting.no_duplicates(),
{
    without_drops_only(m.waiting, id);
    if m.is_resume(id, now, r, next) && r is Ok && !m.engines.contains(id@) {
        resumed_file_waits_once(m, id, now, r, next);
    }
}

/// A removal changes nothing while the file's engine runs, and otherwise leaves nothing of the
/// file.
pub proof fn removal_waits_for_the_engine(
    m: ManagerModel,
    id: FileId,
    r: RemoveStep,
    next: ManagerModel,
)
    requires
        m.is_removal(id, r, next),
    ensures
        m.engines.contains(id@) ==> next == m && r is Forward,
        !m.engines.contains(id@) ==> r is Removed && !next.records.contains_key(id@)
            && !next.waiting.contains(id) && !next.engines.contains(id@),
{
    removal_is_complete(m, id);
}

/// Pausing every file asks every running engine to pause, and each of them once.
pub proof fn every_engine_is_asked_to_pause(
    m: ManagerModel,
    now: Moment,
    steps: Seq<FileStep>,
    next: ManagerModel,
    id: FileId,
)
    requires
        m.is_pause_of_all(now, steps, next),
        m.records.contains_key(id@),
        m.engines.contains(id@),
    ensures
        exists|i: int|
            {
                &&& 0 <= i < steps.len()
                &&& #[trigger] steps[i] == (FileStep {
                    id,
                    step: CommandStep::Forward(FileCommand::Pause),
                })
                &&& forall|j: int| 0 <= j < steps.len() && j != i ==> (#[trigger] steps[j]).id != id
            },
{
    assert(m.pause_step(id) is Some);
    let i = choose|i: int| 0 <= i < steps.len() && (#[trigger] steps[i]).id == id;
    assert(steps[i] == FileStep { id, step: CommandStep::Forward(FileCommand::Pause) });
    assert forall|j: int| 0 <= j < steps.len() && j != i implies (#[trigger] steps[j]).id != id by {
        if j < i {
            assert(steps[j].id != steps[i].id);
        } else {
            assert(steps[i].id != steps[j].id);
        }
    }
}

/// Removing a file leaves nothing of it, and removing it again changes nothing.
pub proof fn removal_is_complete(m: ManagerModel, id: FileId)
    ensures
        !m.removed(id).records.contains_key(id@),
        !m.removed(id).waiting.contains(id),
        m.removed(id).removed(id) == m.removed(id),
{
    without_drops_only(m.waiting, id);
    without_absent(without(m.waiting, id), id);
    assert(m.removed(id).records.remove(id@) =~= m.removed(id).records);
}

proof fn without_absent(s: Seq<FileId>, id: FileId)
    requires
        !s.contains(id),
    ensures
        without(s, id) == s,
    decreases s.len(),
{
    if s.len() > 0 {
        assert(s[s.len() - 1] != id);
        assert(!s.drop_last().contains(id)) by {
            if s.drop_last().contains(id) {
                let i = choose|i: int| 0 <= i < s.len() - 1 && s.drop_last()[i] == id;
                assert(s[i] == id);
            }
        }
        without_absent(s.drop_last(), id);
        assert(s.drop_last().push(s.last()) =~= s);
    }
}

/// A manager that has taken over the queue has no file that claims to be running, and every
/// file that waits is pending, every pending file waits, once.
pub proof fn bootstrap_leaves_nothing_running(m: ManagerModel, loaded: Seq<File>)
    requires
        m.records.dom() == Set::<u128>::empty(),
        m.waiting.len() == 0,
        loaded.map_values(|f: File| f.id@).no_duplicates(),
    ensures
        ({
            let next = m.bootstrapped(loaded);
            &&& next.wf()
            &&& next.waiting.no_duplicates()
            &&& forall|k: u128| #[trigger]
                next.records.contains_key(k) ==> !next.records[k].status.active()
            &&& forall|i: int|
                0 <= i < loaded.len() ==> next.records.contains_key((#[trigger] loaded[i]).id@)
                    && next.records[loaded[i].id@] == normalized(loaded[i])
            &&& forall|x: FileId| #[trigger]
                next.waiting.contains(x) <==> next.records.contains_key(x@)
                    && next.records[x@].status is Pending
            &&& next.records.dom() == loaded.map_values(|f: File| f.id@).to_set()
        }),
    decreases loaded.len(),
{
    let ids = loaded.map_values(|f: File| f.id@);
    if loaded.len() == 0 {
        assert(ids.to_set() =~= Set::<u128>::empty());
    } else {
        let rest = loaded.drop_last();
        let rest_ids = rest.map_values(|f: File| f.id@);
        assert(rest_ids =~= ids.drop_last());
        bootstrap_leaves_nothing_running(m, rest);
        let before = m.bootstrapped(rest);
        let next = m.bootstrapped(loaded);
        let f = normalized(loaded.last());
        let n = rest.len() as int;
        assert(ids[n] == f.id@);
        assert(!rest_ids.contains(f.id@)) by {
            if rest_ids.contains(f.id@) {
                let i = choose|i: int| 0 <= i < rest_ids.len() && rest_ids[i] == f.id@;
                assert(ids[i] == ids[n]);
            }
        }
        assert(!before.records.contains_key(f.id@));
        assert(ids.to_set() =~= rest_ids.to_set().insert(f.id@)) by {
            assert(ids =~= rest_ids.push(f.id@));
            assert forall|k: u128| ids.contains(k) == (rest_ids.contains(k) || k == f.id@) by {
                if ids.contains(k) {
                    let i = choose|i: int| 0 <= i < ids.len() && ids[i] == k;
                    if i < n {
                        assert(rest_ids[i] == k);
                    }
                }
                if rest_ids.contains(k) {
                    let i = choose|i: int| 0 <= i < rest_ids.len() && rest_ids[i] == k;
                    assert(ids[i] == k);
                }
            }
        }
        assert forall|i: int| 0 <= i < loaded.len() implies next.records.contains_key(
            (#[trigger] loaded[i]).id@,
        ) && next.records[loaded[i].id@] == normalized(loaded[i]) by {
            if i < n {
                assert(rest[i] == loaded[i]);
                assert(rest_ids[i] == loaded[i].id@);
                assert(rest_ids.contains(loaded[i].id@));
            }
        }
        assert(!before.waiting.contains(f.id));
        assert forall|x: FileId| (#[trigger] x@) == f.id@ implies x == f.id by {
            FileId::same_value(x, f.id);
        }
        if f.status is Pending {
            let w = next.waiting;
            assert forall|i: int, j: int|
                0 <= i < w.len() && 0 <= j < w.len() && i != j implies w[i] != w[j] by {
                let old = before.waiting;
                if i < old.len() && j < old.len() {
                    assert(old[i] != old[j]);
                } else if i < old.len() {
                    assert(old.contains(old[i]));
                } else {
                    assert(old.contains(old[j]));
                }
            }
            assert forall|x: FileId| #[trigger] w.contains(x) <==> before.waiting.contains(x) || x
                == f.id by {
                if w.contains(x) {
                    let i = choose|i: int| 0 <= i < w.len() && w[i] == x;
                    if i < before.waiting.len() {
                        assert(before.waiting[i] == x);
                    }
                }
                if before.waiting.contains(x) {
                    let i = choose|i: int|
                        0 <= i < before.waiting.len() && before.waiting[i] == x;
                    assert(w[i] == x);
                }
                assert(w[before.waiting.len() as int] == f.id);
            }
        }
    }
}

/// A picked file may be started, and with its engine no more engines run than may.
pub proof fn pick_respects_limit(m: ManagerModel, id: FileId, next: ManagerModel)
    requires
        m.engines.finite(),
        m.is_pick(Some(id), next),
    ensures
        m.startable(id),
        next.engines == m.engines,
        m.max_concurrent matches Some(n) ==> next.engines.insert(id@).len() <= n,
{
}

/// Files are picked in the order in which they began to wait: whoever still waits came later
/// than the picked file.
pub proof fn picks_follow_the_queue(m: ManagerModel, id: FileId, next: ManagerModel)
    requires
        m.is_pick(Some(id), next),
    ensures
        exists|i: int|
            {
                &&& 0 <= i < m.waiting.len()
                &&& #[trigger] m.waiting[i] == id
                &&& m.waiting == m.waiting.take(i).push(id) + next.waiting
                &&& forall|j: int| 0 <= j < i ==> !m.startable(#[trigger] m.waiting[j])
            },
{
    let i = choose|i: int|
        {
            &&& 0 <= i < m.waiting.len()
            &&& #[trigger] m.waiting[i] == id
            &&& m.startable(id)
            &&& m.passes_over(i)
            &&& next == ManagerModel { waiting: m.waiting.skip(i + 1), ..m }
        };
    assert(m.waiting =~= m.waiting.take(i).push(id) + next.waiting);
}

/// Whatever happens, every file is found under its own identifier.
pub proof fn records_stay_under_their_ids(
    m: ManagerModel,
    id: FileId,
    now: Moment,
    r: Result<CommandStep, Error>,
    c: Option<MissingChange>,
    next: ManagerModel,
    ev: FileLifecycleEvent,
    file: File,
    text: String,
    keys: Set<u128>,
    picked: Option<FileId>,
)
    requires
        m.wf(),
        ({
            ||| is_command(m, id, now, r, next)
            ||| m.is_pause_of(keys, now, next)
            ||| m.is_resume_of(keys, now, next)
            ||| m.is_pick(picked, next)
            ||| m.is_flip(id, now, c, next)
            ||| next == m.fanned_in(ev, now).0
            ||| next == m.added(file)
            ||| next == m.removed(id)
            ||| m.records.contains_key(id@) && next == m.with_failure(id, text, now)
        }),
    ensures
        next.wf(),
{
    if m.is_pause_of(keys, now, next) || m.is_resume_of(keys, now, next) {
        assert forall|k: u128| #[trigger] next.records.contains_key(k) implies next.records[k].id@
            == k by {
            assert(m.records.contains_key(k));
        }
    }
}

/// Taking over a queue and looking for missing files leave every file under its own
/// identifier, too.
pub proof fn lists_keep_files_under_their_ids(
    m: ManagerModel,
    files: Seq<File>,
    present: Seq<bool>,
    now: Moment,
    changes: Seq<MissingChange>,
    next: ManagerModel,
)
    requires
        m.wf(),
    ensures
        m.bootstrapped(files).wf(),
        m.is_audited(files, present, now, changes, next) ==> next.wf(),
    decreases files.len(),
{
    if files.len() > 0 {
        let rest = files.drop_last();
        let f = files.last();
        lists_keep_files_under_their_ids(m, rest, present, now, changes, next);
        if m.is_audited(files, present, now, changes, next) && checked_on_disk(f)
            && !present[rest.len() as int] {
            let (mid, c) = choose|mid: ManagerModel, c: Option<MissingChange>| #[trigger]
                mid.is_flip(f.id, now, c, next) && match c {
                    Some(change) => changes.len() > 0 && changes.last() == change && m.is_audited(
                        rest,
                        present,
                        now,
                        changes.drop_last(),
                        mid,
                    ),
                    None => m.is_audited(rest, present, now, changes, mid),
                };
            lists_keep_files_under_their_ids(m, rest, present, now, changes.drop_last(), mid);
            lists_keep_files_under_their_ids(m, rest, present, now, changes, mid);
        }
    }
}

/// A failure is never stored without a reason.
pub proof fn failures_have_reasons(
    m: ManagerModel,
    ev: FileLifecycleEvent,
    id: FileId,
    now: Moment,
    r: Result<CommandStep, Error>,
    c: Option<MissingChange>,
    next: ManagerModel,
)
    ensures
        m.fanned_in(ev, now).1 matches Some(u) ==> u.explained(),
        is_command(m, id, now, r, next) ==> (r matches Ok(CommandStep::Changed(change))
            ==> change.update.explained()),
        m.is_flip(id, now, c, next) ==> (c matches Some(change) ==> change.update.explained()),
{
}

/// Subscribers get a text with a change of status only if the file has failed, and then
/// always; what they are told is what is stored.
pub proof fn only_failures_are_described(
    m: ManagerModel,
    id: FileId,
    now: Moment,
    r: Result<CommandStep, Error>,
    c: Option<MissingChange>,
    next: ManagerModel,
)
    ensures
        is_command(m, id, now, r, next) ==> (r matches Ok(CommandStep::Changed(change))
            ==> is_plainly_told(change, id)),
        m.is_flip(id, now, c, next) ==> (c matches Some(change) ==> (change.event matches Some(
            event,
        ) ==> is_plainly_told(Change { update: change.update, event }, id))),
{
}

/// Whether a change stores and tells the same status of the file `id`, with a text exactly
/// where the file has failed.
pub open spec fn is_plainly_told(change: Change, id: FileId) -> bool {
    &&& change.update.id == id
    &&& change.event.id == id
    &&& change.event.status == change.update.status
    &&& change.event.description is Some <==> change.event.status is Failed
}

/// A finished file that is missing is told once: a second look at it changes nothing.
pub proof fn missing_file_is_told_once(
    m: ManagerModel,
    id: FileId,
    now: Moment,
    later: Moment,
    c: Option<MissingChange>,
    again: Option<MissingChange>,
    next: ManagerModel,
    last: ManagerModel,
)
    requires
        m.records.contains_key(id@),
        m.is_flip(id, now, c, next),
        next.is_flip(id, later, again, last),
    ensures
        again is None,
        last == next,
{
}

} // verus!

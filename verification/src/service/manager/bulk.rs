//! Commands for all files at once.

use vstd::prelude::*;
use crate::domain::command::FileCommand;
use crate::domain::file::File;
use crate::domain::id::FileId;
use crate::domain::status::FileStatus;
use crate::domain::time::Moment;
use crate::error::Error;
use super::model::{without, CommandStep, ManagerModel};
use super::queue::shutdown_timeout;
use super::registry::{plain_change, DownloadManager};

verus! {

/// A file and what the command led to for it.
pub struct FileStep {
    pub id: FileId,
    pub step: CommandStep,
}

/// The identifiers that pass a test, in the same order.
pub open spec fn kept(s: Seq<FileId>, keep: spec_fn(FileId) -> bool) -> Seq<FileId>
    decreases s.len(),
{
    if s.len() == 0 {
        s
    } else if keep(s.last()) {
        kept(s.drop_last(), keep).push(s.last())
    } else {
        kept(s.drop_last(), keep)
    }
}

/// Taking one more identifier out of those that were kept.
proof fn kept_without(
    s: Seq<FileId>,
    id: FileId,
    keep: spec_fn(FileId) -> bool,
    fewer: spec_fn(FileId) -> bool,
)
    requires
        forall|x: FileId| #[trigger] fewer(x) == (keep(x) && x != id),
    ensures
        without(kept(s, keep), id) == kept(s, fewer),
    decreases s.len(),
{
    if s.len() > 0 {
        kept_without(s.drop_last(), id, keep, fewer);
        let k = kept(s.drop_last(), keep);
        let x = s.last();
        assert(fewer(x) == (keep(x) && x != id));
        if keep(x) {
            assert(k.push(x).drop_last() =~= k);
        }
    }
}

proof fn kept_same(
    s: Seq<FileId>,
    one: spec_fn(FileId) -> bool,
    two: spec_fn(FileId) -> bool,
)
    requires
        forall|x: FileId| #[trigger] one(x) == two(x),
    ensures
        kept(s, one) == kept(s, two),
    decreases s.len(),
{
    if s.len() > 0 {
        kept_same(s.drop_last(), one, two);
        assert(one(s.last()) == two(s.last()));
    }
}

impl ManagerModel {
    /// The record under `k` after a command to pause every file.
    pub open spec fn paused_record(self, k: u128, now: Moment) -> File {
        let f = self.records[k];
        if self.engines.contains(k) || f.status.terminal() || f.status is Paused {
            f
        } else {
            File { status: FileStatus::Paused, updated_at: now, ..f }
        }
    }

    /// What the command to pause leads to for `id`, if it is not refused.
    pub open spec fn pause_step(self, id: FileId) -> Option<CommandStep> {
        if !self.records.contains_key(id@) {
            None
        } else if self.engines.contains(id@) {
            Some(CommandStep::Forward(FileCommand::Pause))
        } else if self.records[id@].status.terminal() {
            None
        } else if self.records[id@].status is Paused {
            Some(CommandStep::Unchanged)
        } else {
            Some(CommandStep::Changed(plain_change(id, FileStatus::Paused)))
        }
    }

    /// Whether pausing the files under `keys` takes a manager from `self` to `next`: those
    /// without an engine are paused and wait no longer.
    pub open spec fn is_pause_of(self, keys: Set<u128>, now: Moment, next: ManagerModel) -> bool {
        &&& next.engines == self.engines
        &&& next.max_concurrent == self.max_concurrent
        &&& next.records.dom() == self.records.dom()
        &&& forall|k: u128| #[trigger]
            self.records.contains_key(k) ==> next.records[k] == (if keys.contains(k) {
                self.paused_record(k, now)
            } else {
                self.records[k]
            })
        &&& next.waiting == kept(
            self.waiting,
            |x: FileId| self.engines.contains(x@) || !keys.contains(x@),
        )
    }

    /// Whether a manager that knows `self` answers the command to pause every file by `steps`,
    /// one for each file that does not refuse it, in no particular order, and then knows
    /// `next`.
    pub open spec fn is_pause_of_all(
        self,
        now: Moment,
        steps: Seq<FileStep>,
        next: ManagerModel,
    ) -> bool {
        &&& self.is_pause_of(self.records.dom(), now, next)
        &&& forall|i: int|
            0 <= i < steps.len() ==> self.pause_step((#[trigger] steps[i]).id) == Some(
                steps[i].step,
            )
        &&& forall|i: int, j: int|
            0 <= i < j < steps.len() ==> (#[trigger] steps[i]).id != (#[trigger] steps[j]).id
        &&& forall|id: FileId|
            (#[trigger] self.pause_step(id)) is Some ==> exists|i: int|
                0 <= i < steps.len() && (#[trigger] steps[i]).id == id
    }
}

impl DownloadManager {
    /// Pauses every file, in no particular order. Gives what is to be forwarded, stored and
    /// told for each file that did not refuse the command.
    pub fn pause_all(&mut self, now: Moment) -> (steps: Vec<FileStep>)
        ensures
            old(self)@.is_pause_of_all(now, steps@, final(self)@),
    {
        let keys: Vec<u128> = self.record_keys();
        let ghost m = self@;
        let mut steps: Vec<FileStep> = Vec::new();
        let mut i: usize = 0;
        proof {
            kept_all(m.waiting);
            kept_same(
                m.waiting,
                |x: FileId| true,
                |x: FileId| m.engines.contains(x@) || !keys@.take(0).to_set().contains(x@),
            );
        }
        while i < keys.len()
            invariant
                i <= keys@.len(),
                m == old(self)@,
                keys@.no_duplicates(),
                keys@.to_set() == m.records.dom(),
                m.is_pause_of(keys@.take(i as int).to_set(), now, self@),
                forall|j: int|
                    0 <= j < steps@.len() ==> m.pause_step((#[trigger] steps@[j]).id) == Some(
                        steps@[j].step,
                    ) && keys@.take(i as int).contains(steps@[j].id@),
                forall|a: int, b: int|
                    0 <= a < b < steps@.len() ==> (#[trigger] steps@[a]).id != (
                    #[trigger] steps@[b]).id,
                forall|id: FileId|
                    (#[trigger] m.pause_step(id)) is Some && keys@.take(i as int).contains(id@)
                        ==> exists|j: int|
                        0 <= j < steps@.len() && (#[trigger] steps@[j]).id == id,
            decreases keys@.len() - i,
        {
            let id: FileId = FileId::from_value(keys[i]);
            let ghost before = self@;
            let ghost old_steps = steps@;
            let ghost done = keys@.take(i as int);
            let ghost more = keys@.take(i + 1);
            assert(more =~= done.push(id@));
            assert(keys@.to_set().contains(keys@[i as int]));
            assert(m.records.contains_key(id@));
            assert(!done.contains(id@)) by {
                if done.contains(id@) {
                    let j = choose|j: int| 0 <= j < done.len() && done[j] == id@;
                    assert(keys@[j] == keys@[i as int]);
                }
            }
            assert(before.records[id@] == m.records[id@]);
            let result: Result<CommandStep, Error> = self.pause(id, now);
            proof {
                assert(before.is_pause(id, now, result, self@));
                let old_keep = |x: FileId|
                    m.engines.contains(x@) || !done.to_set().contains(x@);
                let new_keep = |x: FileId|
                    m.engines.contains(x@) || !more.to_set().contains(x@);
                assert forall|k: u128| more.to_set().contains(k) == (done.to_set().contains(k) || k
                    == id@) by {
                    if more.contains(k) {
                        let j = choose|j: int| 0 <= j < more.len() && more[j] == k;
                        if j < done.len() {
                            assert(done[j] == k);
                        }
                    }
                    if done.contains(k) {
                        let j = choose|j: int| 0 <= j < done.len() && done[j] == k;
                        assert(more[j] == k);
                    }
                    assert(more[done.len() as int] == id@);
                }
                if m.engines.contains(id@) {
                    kept_same(m.waiting, old_keep, new_keep);
                    assert(self@.waiting == kept(m.waiting, new_keep));
                } else {
                    assert forall|x: FileId| #[trigger] new_keep(x) == (old_keep(x) && x
                        != id) by {
                        FileId::same_value(x, id);
                    }
                    kept_without(m.waiting, id, old_keep, new_keep);
                    assert(self@.waiting == kept(m.waiting, new_keep));
                }
                assert(self@.records.dom() =~= m.records.dom());
                assert(m.is_pause_of(more.to_set(), now, self@));
            }
            match result {
                Ok(step) => {
                    steps.push(FileStep { id, step });
                },
                Err(_) => {},
            }
            proof {
                assert forall|j: int| 0 <= j < steps@.len() implies m.pause_step(
                    (#[trigger] steps@[j]).id,
                ) == Some(steps@[j].step) && more.contains(steps@[j].id@) by {
                    if j < old_steps.len() {
                        assert(steps@[j] == old_steps[j]);
                        let k = choose|k: int| 0 <= k < done.len() && done[k] == steps@[j].id@;
                        assert(more[k] == steps@[j].id@);
                    } else {
                        assert(more[done.len() as int] == id@);
                    }
                }
                assert forall|a: int, b: int| 0 <= a < b < steps@.len() implies (
                #[trigger] steps@[a]).id != (#[trigger] steps@[b]).id by {
                    assert(steps@[a] == old_steps[a]);
                    if b < old_steps.len() {
                        assert(steps@[b] == old_steps[b]);
                    } else {
                        assert(done.contains(steps@[a].id@));
                    }
                }
                assert forall|x: FileId| (#[trigger] m.pause_step(x)) is Some && more.contains(
                    x@,
                ) implies exists|j: int| 0 <= j < steps@.len() && (#[trigger] steps@[j]).id == x by {
                    if x@ == id@ {
                        FileId::same_value(x, id);
                        assert(steps@[steps@.len() - 1].id == x);
                    } else {
                        let k = choose|k: int| 0 <= k < more.len() && more[k] == x@;
                        assert(done[k] == x@);
                        assert(done.contains(x@));
                        let j = choose|j: int|
                            0 <= j < old_steps.len() && (#[trigger] old_steps[j]).id == x;
                        assert(steps@[j].id == x);
                    }
                }
            }
            i = i + 1;
        }
        proof {
            assert(keys@.take(keys@.len() as int) =~= keys@);
            assert forall|id: FileId| (#[trigger] m.pause_step(id)) is Some implies exists|j: int|
                0 <= j < steps@.len() && (#[trigger] steps@[j]).id == id by {
                assert(keys@.to_set().contains(id@));
                assert(keys@.contains(id@));
            }
        }
        steps
    }
}

impl DownloadManager {
    /// Begins to shut down. Where no engine runs, there is nothing to wait for: nothing is
    /// paused and the shutdown has succeeded. Otherwise every file is paused; gives the files
    /// whose engines are to come to rest, and what is to be forwarded, stored and told.
    pub fn begin_shutdown(&mut self, now: Moment) -> (r: Option<(Vec<FileId>, Vec<FileStep>)>)
        ensures
            r is None <==> old(self)@.engines == Set::<u128>::empty(),
            match r {
                None => final(self)@ == old(self)@,
                Some((active, steps)) => {
                    &&& active@.map_values(|id: FileId| id@).no_duplicates()
                    &&& active@.map_values(|id: FileId| id@).to_set() == old(self)@.engines
                    &&& old(self)@.is_pause_of_all(now, steps@, final(self)@)
                },
            },
    {
        let active: Vec<FileId> = self.active_ids();
        let ghost ids = active@.map_values(|id: FileId| id@);
        if active.len() == 0 {
            assert(ids.to_set() =~= Set::<u128>::empty());
            return None;
        }
        assert(ids.to_set().contains(ids[0]));
        let steps: Vec<FileStep> = self.pause_all(now);
        Some((active, steps))
    }

    /// How a shutdown stands that waits for `active` to come to rest: it has succeeded once all
    /// are, it has failed if the time ran out before that, and otherwise it waits on.
    pub fn shutdown_result(&self, active: &Vec<FileId>, expired: bool) -> (r: Option<
        Result<(), Error>,
    >)
        ensures
            ({
                let rest = forall|i: int|
                    0 <= i < active@.len() ==> self@.at_rest(#[trigger] active@[i]);
                if rest {
                    r == Some(Ok::<(), Error>(()))
                } else if expired {
                    r matches Some(Err(e)) && e is Other && e.text() == "shutdown timeout"@
                } else {
                    r is None
                }
            }),
    {
        if self.is_drained(active) {
            Some(Ok(()))
        } else if expired {
            Some(Err(shutdown_timeout()))
        } else {
            None
        }
    }
}

proof fn kept_all(s: Seq<FileId>)
    ensures
        kept(s, |x: FileId| true) == s,
    decreases s.len(),
{
    if s.len() > 0 {
        kept_all(s.drop_last());
        assert(s.drop_last().push(s.last()) =~= s);
    }
}

impl ManagerModel {
    /// Whether the file under `k` is resumed by a command to resume every paused file.
    pub open spec fn resumed(self, k: u128) -> bool {
        &&& self.records.contains_key(k)
        &&& self.records[k].status is Paused
        &&& !self.engines.contains(k)
    }

    /// What the command to resume leads to for `id`, if it is paused.
    pub open spec fn resume_step(self, id: FileId) -> Option<CommandStep> {
        if !self.records.contains_key(id@) || self.records[id@].status !is Paused {
            None
        } else if self.engines.contains(id@) {
            Some(CommandStep::Forward(FileCommand::Resume))
        } else {
            Some(CommandStep::Changed(plain_change(id, FileStatus::Pending)))
        }
    }

    /// Whether resuming the paused files under `keys` takes a manager from `self` to `next`:
    /// those without an engine are pending and wait, each once, behind those that waited
    /// before.
    pub open spec fn is_resume_of(self, keys: Set<u128>, now: Moment, next: ManagerModel) -> bool {
        let n = self.waiting.len() as int;
        let added = next.waiting.skip(n);
        &&& next.engines == self.engines
        &&& next.max_concurrent == self.max_concurrent
        &&& next.records.dom() == self.records.dom()
        &&& forall|k: u128| #[trigger]
            self.records.contains_key(k) ==> next.records[k] == (if keys.contains(k)
                && self.resumed(k) {
                File { status: FileStatus::Pending, updated_at: now, ..self.records[k] }
            } else {
                self.records[k]
            })
        &&& n <= next.waiting.len()
        &&& next.waiting.take(n) == self.waiting
        &&& added.no_duplicates()
        &&& forall|x: FileId| #[trigger]
            added.contains(x) <==> keys.contains(x@) && self.resumed(x@)
                && !self.waiting.contains(x)
    }
}

impl DownloadManager {
    /// Resumes every paused file, in no particular order. Gives what is to be forwarded,
    /// stored and told for each of them; the queue is then to be advanced.
    pub fn resume_all(&mut self, now: Moment) -> (steps: Vec<FileStep>)
        ensures
            old(self)@.is_resume_of(old(self)@.records.dom(), now, final(self)@),
            forall|i: int|
                0 <= i < steps@.len() ==> old(self)@.resume_step((#[trigger] steps@[i]).id) == Some(
                    steps@[i].step,
                ),
            forall|i: int, j: int|
                0 <= i < j < steps@.len() ==> (#[trigger] steps@[i]).id != (#[trigger] steps@[j]).id,
            forall|id: FileId|
                (#[trigger] old(self)@.resume_step(id)) is Some ==> exists|i: int|
                    0 <= i < steps@.len() && (#[trigger] steps@[i]).id == id,
    {
        let keys: Vec<u128> = self.record_keys();
        let ghost m = self@;
        let ghost n = m.waiting.len() as int;
        let mut steps: Vec<FileStep> = Vec::new();
        let mut i: usize = 0;
        assert(m.waiting.take(n) =~= m.waiting);
        while i < keys.len()
            invariant
                i <= keys@.len(),
                m == old(self)@,
                n == m.waiting.len(),
                keys@.no_duplicates(),
                keys@.to_set() == m.records.dom(),
                m.is_resume_of(keys@.take(i as int).to_set(), now, self@),
                forall|j: int|
                    0 <= j < steps@.len() ==> m.resume_step((#[trigger] steps@[j]).id) == Some(
                        steps@[j].step,
                    ) && keys@.take(i as int).contains(steps@[j].id@),
                forall|a: int, b: int|
                    0 <= a < b < steps@.len() ==> (#[trigger] steps@[a]).id != (
                    #[trigger] steps@[b]).id,
                forall|id: FileId|
                    (#[trigger] m.resume_step(id)) is Some && keys@.take(i as int).contains(id@)
                        ==> exists|j: int|
                        0 <= j < steps@.len() && (#[trigger] steps@[j]).id == id,
            decreases keys@.len() - i,
        {
            let id: FileId = FileId::from_value(keys[i]);
            let ghost before = self@;
            let ghost old_steps = steps@;
            let ghost done = keys@.take(i as int);
            let ghost more = keys@.take(i + 1);
            assert(more =~= done.push(id@));
            assert(keys@.to_set().contains(keys@[i as int]));
            assert(m.records.contains_key(id@));
            assert(!done.contains(id@)) by {
                if done.contains(id@) {
                    let j = choose|j: int| 0 <= j < done.len() && done[j] == id@;
                    assert(keys@[j] == keys@[i as int]);
                }
            }
            assert(before.records[id@] == m.records[id@]);
            assert forall|k: u128| more.to_set().contains(k) == (done.to_set().contains(k) || k
                == id@) by {
                if more.contains(k) {
                    let j = choose|j: int| 0 <= j < more.len() && more[j] == k;
                    if j < done.len() {
                        assert(done[j] == k);
                    }
                }
                if done.contains(k) {
                    let j = choose|j: int| 0 <= j < done.len() && done[j] == k;
                    assert(more[j] == k);
                }
                assert(more[done.len() as int] == id@);
            }
            if self.status_of(id) == Some(FileStatus::Paused) {
                let result: Result<CommandStep, Error> = self.resume(id, now);
                assert(before.is_resume(id, now, result, self@));
                proof {
                    resumed_one(m, before, self@, id, done.to_set(), more.to_set(), now, result);
                }
                match result {
                    Ok(step) => {
                        steps.push(FileStep { id, step });
                    },
                    Err(_) => {},
                }
            } else {
                assert forall|x: FileId| x@ == id@ implies x == id by {
                    FileId::same_value(x, id);
                }
                assert(m.is_resume_of(more.to_set(), now, self@));
            }
            proof {
                assert forall|j: int| 0 <= j < steps@.len() implies m.resume_step(
                    (#[trigger] steps@[j]).id,
                ) == Some(steps@[j].step) && more.contains(steps@[j].id@) by {
                    if j < old_steps.len() {
                        assert(steps@[j] == old_steps[j]);
                        let k = choose|k: int| 0 <= k < done.len() && done[k] == steps@[j].id@;
                        assert(more[k] == steps@[j].id@);
                    } else {
                        assert(more[done.len() as int] == id@);
                    }
                }
                assert forall|a: int, b: int| 0 <= a < b < steps@.len() implies (
                #[trigger] steps@[a]).id != (#[trigger] steps@[b]).id by {
                    assert(steps@[a] == old_steps[a]);
                    if b < old_steps.len() {
                        assert(steps@[b] == old_steps[b]);
                    } else {
                        assert(done.contains(steps@[a].id@));
                    }
                }
                assert forall|x: FileId| (#[trigger] m.resume_step(x)) is Some && more.contains(
                    x@,
                ) implies exists|j: int| 0 <= j < steps@.len() && (#[trigger] steps@[j]).id == x by {
                    if x@ == id@ {
                        FileId::same_value(x, id);
                        assert(steps@[steps@.len() - 1].id == x);
                    } else {
                        let k = choose|k: int| 0 <= k < more.len() && more[k] == x@;
                        assert(done[k] == x@);
                        assert(done.contains(x@));
                        let j = choose|j: int|
                            0 <= j < old_steps.len() && (#[trigger] old_steps[j]).id == x;
                        assert(steps@[j].id == x);
                    }
                }
            }
            i = i + 1;
        }
        proof {
            assert(keys@.take(keys@.len() as int) =~= keys@);
            assert forall|id: FileId| (#[trigger] m.resume_step(id)) is Some implies exists|j: int|
                0 <= j < steps@.len() && (#[trigger] steps@[j]).id == id by {
                assert(keys@.to_set().contains(id@));
                assert(keys@.contains(id@));
            }
        }
        steps
    }
}

/// Resuming one more paused file keeps the account of those that were resumed.
proof fn resumed_one(
    m: ManagerModel,
    before: ManagerModel,
    after: ManagerModel,
    id: FileId,
    done: Set<u128>,
    more: Set<u128>,
    now: Moment,
    result: Result<CommandStep, Error>,
)
    requires
        m.is_resume_of(done, now, before),
        !done.contains(id@),
        forall|k: u128| #[trigger] more.contains(k) == (done.contains(k) || k == id@),
        m.records.contains_key(id@),
        m.records[id@].status is Paused,
        before.records[id@] == m.records[id@],
        before.is_resume(id, now, result, after),
    ensures
        m.is_resume_of(more, now, after),
{
    let n = m.waiting.len() as int;
    let old_added = before.waiting.skip(n);
    let added = after.waiting.skip(n);
    assert(after.records.dom() =~= m.records.dom());
    assert forall|x: FileId| x@ == id@ implies x == id by {
        FileId::same_value(x, id);
    }
    if m.engines.contains(id@) {
        assert(after == before);
    } else {
        assert(after.waiting == before.queued(id).waiting);
        assert(!old_added.contains(id));
        assert(before.waiting.contains(id) == m.waiting.contains(id)) by {
            if before.waiting.contains(id) {
                let j = choose|j: int| 0 <= j < before.waiting.len() && before.waiting[j] == id;
                if j < n {
                    assert(m.waiting[j] == before.waiting.take(n)[j]);
                } else {
                    assert(old_added[j - n] == id);
                }
            }
            if m.waiting.contains(id) {
                let j = choose|j: int| 0 <= j < n && m.waiting[j] == id;
                assert(before.waiting.take(n)[j] == id);
            }
        }
        if !before.waiting.contains(id) {
            assert(added =~= old_added.push(id));
            assert(after.waiting.take(n) =~= before.waiting.take(n));
            assert forall|x: FileId| #[trigger] added.contains(x) <==> more.contains(x@)
                && m.resumed(x@) && !m.waiting.contains(x) by {
                if added.contains(x) {
                    let j = choose|j: int| 0 <= j < added.len() && added[j] == x;
                    if j < old_added.len() {
                        assert(old_added[j] == x);
                        assert(old_added.contains(x));
                    }
                }
                if old_added.contains(x) {
                    let j = choose|j: int| 0 <= j < old_added.len() && old_added[j] == x;
                    assert(added[j] == x);
                }
                assert(added[old_added.len() as int] == id);
            }
        } else {
            assert(added == old_added);
        }
    }
}

} // verus!

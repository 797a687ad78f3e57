//! What holds of every run of an engine.

use vstd::prelude::*;
use crate::domain::command::FileCommand;
use crate::domain::id::{AttemptId, WorkerId};
use crate::domain::status::FileStatus;
use crate::error::Error;
use super::dispatch::body_fills_pieces_like_file;
use super::geometry::piece_count;
use super::held::missing_pieces_are_left_out;
use super::inputs::{request_url_of, Outcome};
use super::supervisor::{EngineAction, EngineEvent, EngineModel, EnginePhase};
use super::worker::{RunState, WorkerMsg};

verus! {

/// Where a sequence of events takes an engine, and everything it asks for on the way.
pub open spec fn run(m: EngineModel, evs: Seq<EngineEvent>) -> (EngineModel, Seq<EngineAction>)
    decreases evs.len(),
{
    if evs.len() == 0 {
        (m, Seq::empty())
    } else {
        let before = run(m, evs.drop_last());
        let last = before.0.step(evs.last());
        (last.0, before.1 + last.1)
    }
}

/// Whether an action tells subscribers that the download has ended.
pub open spec fn tells_end(a: EngineAction) -> bool {
    match a {
        EngineAction::EmitFailed(_) => true,
        EngineAction::EmitStatus(s) => s.terminal(),
        _ => false,
    }
}

/// Whether an event says that no piece is missing.
pub open spec fn nothing_missing(ev: EngineEvent) -> bool {
    match ev {
        EngineEvent::PendingLoaded(Ok(p)) => p@.len() == 0,
        EngineEvent::PendingChecked(Ok(p)) => p@.len() == 0,
        _ => false,
    }
}

/// Whether an event says that the file was finished.
pub open spec fn file_finished(ev: EngineEvent) -> bool {
    ev matches EngineEvent::Finalized(Ok(_))
}

/// Whether subscribers are told of the end exactly once, by the last action, in a finished
/// engine, and not at all before.
pub open spec fn end_told_once(finished: bool, actions: Seq<EngineAction>) -> bool {
    if finished {
        &&& actions.len() > 0
        &&& tells_end(actions.last())
        &&& forall|i: int| 0 <= i < actions.len() - 1 ==> !tells_end(#[trigger] actions[i])
    } else {
        forall|i: int| 0 <= i < actions.len() ==> !tells_end(#[trigger] actions[i])
    }
}

/// One step tells of the end exactly where it finishes the engine.
proof fn step_tells_end_once(m: EngineModel, ev: EngineEvent)
    requires
        m.phase != EnginePhase::Finished,
    ensures
        end_told_once(m.step(ev).0.phase == EnginePhase::Finished, m.step(ev).1),
{
    let r = m.step(ev);
    if m.phase == EnginePhase::Draining && ev is WorkersDrained && m.outcome is Some {
        let marks = m.marks(m.outcome->0);
        assert forall|i: int| 0 <= i < marks.len() implies !tells_end(#[trigger] marks[i]) by {}
        assert forall|i: int| 0 <= i < r.1.len() - 1 implies !tells_end(#[trigger] r.1[i]) by {
            if i < marks.len() {
                assert(r.1[i] == marks[i]);
            }
        }
    }
    if m.phase == EnginePhase::Checking {
        if let EngineEvent::PendingChecked(_) = ev {
            let marks = m.marks(r.0.outcome->0);
            assert forall|i: int| 0 <= i < marks.len() implies !tells_end(#[trigger] marks[i]) by {}
            assert forall|i: int| 0 <= i < r.1.len() - 1 implies !tells_end(#[trigger] r.1[i]) by {
                if i < marks.len() {
                    assert(r.1[i] == marks[i]);
                }
            }
        }
    }
}

/// A finished engine asks for nothing more and does not change.
pub proof fn finished_engine_is_silent(m: EngineModel, evs: Seq<EngineEvent>)
    requires
        m.phase == EnginePhase::Finished,
    ensures
        run(m, evs) == (m, Seq::<EngineAction>::empty()),
    decreases evs.len(),
{
    if evs.len() > 0 {
        finished_engine_is_silent(m, evs.drop_last());
        assert(run(m, evs).1 =~= Seq::<EngineAction>::empty());
    }
}

/// Whatever happens, subscribers are told of the end of a download at most once, and nothing
/// is asked for after it.
pub proof fn end_is_told_once(m: EngineModel, evs: Seq<EngineEvent>)
    requires
        m.phase != EnginePhase::Finished,
    ensures
        end_told_once(run(m, evs).0.phase == EnginePhase::Finished, run(m, evs).1),
    decreases evs.len(),
{
    if evs.len() > 0 {
        let before = run(m, evs.drop_last());
        end_is_told_once(m, evs.drop_last());
        let all = run(m, evs).1;
        if before.0.phase == EnginePhase::Finished {
            assert(all =~= before.1);
        } else {
            step_tells_end_once(before.0, evs.last());
            let last = before.0.step(evs.last()).1;
            assert forall|i: int| 0 <= i < all.len() implies all[i] == (if i < before.1.len() {
                before.1[i]
            } else {
                last[i - before.1.len()]
            }) by {}
            if run(m, evs).0.phase == EnginePhase::Finished {
                assert(all.last() == last.last());
                assert forall|i: int| 0 <= i < all.len() - 1 implies !tells_end(
                    #[trigger] all[i],
                ) by {}
            } else {
                assert forall|i: int| 0 <= i < all.len() implies !tells_end(#[trigger] all[i]) by {}
            }
        }
    }
}

/// Whether some event of a sequence satisfies `p`.
pub open spec fn some_event(evs: Seq<EngineEvent>, p: spec_fn(EngineEvent) -> bool) -> bool {
    exists|i: int| 0 <= i < evs.len() && p(#[trigger] evs[i])
}

proof fn some_event_grows(evs: Seq<EngineEvent>, p: spec_fn(EngineEvent) -> bool)
    requires
        evs.len() > 0,
    ensures
        some_event(evs.drop_last(), p) ==> some_event(evs, p),
        p(evs.last()) ==> some_event(evs, p),
{
    if some_event(evs.drop_last(), p) {
        let i = choose|i: int| 0 <= i < evs.len() - 1 && p(#[trigger] evs.drop_last()[i]);
        assert(p(evs[i]));
    }
    if p(evs.last()) {
        assert(p(evs[evs.len() - 1]));
    }
}

/// Whether `Done` is among the actions.
pub open spec fn tells_done(actions: Seq<EngineAction>) -> bool {
    actions.contains(EngineAction::EmitStatus(FileStatus::Done))
}

/// One step says `Done` only on hearing that the file was finished, while it was being
/// finished; and it begins to finish the file only on hearing that nothing is missing.
proof fn step_to_done(m: EngineModel, ev: EngineEvent)
    ensures
        tells_done(m.step(ev).1) ==> file_finished(ev) && (m.phase == EnginePhase::Finishing
            || m.phase == EnginePhase::FinishingAtOnce),
        m.step(ev).0.phase == EnginePhase::Finishing && m.phase != EnginePhase::Finishing ==> {
            ||| nothing_missing(ev)
            ||| m.outcome == Some(Outcome::Completed)
        },
        m.step(ev).0.phase == EnginePhase::FinishingAtOnce && m.phase
            != EnginePhase::FinishingAtOnce ==> nothing_missing(ev),
        m.step(ev).0.outcome == Some(Outcome::Completed) && m.outcome != Some(Outcome::Completed)
            ==> nothing_missing(ev),
{
    let r = m.step(ev);
    if tells_done(r.1) {
        let i = choose|i: int| 0 <= i < r.1.len() && r.1[i] == EngineAction::EmitStatus(
            FileStatus::Done,
        );
        if m.phase == EnginePhase::Draining && ev is WorkersDrained && m.outcome is Some {
            let marks = m.marks(m.outcome->0);
            if i < marks.len() {
                assert(r.1[i] == marks[i]);
            }
        }
        if m.phase == EnginePhase::Checking {
            if let EngineEvent::PendingChecked(_) = ev {
                let marks = m.marks(r.0.outcome->0);
                if i < marks.len() {
                    assert(r.1[i] == marks[i]);
                }
            }
        }
    }
}

/// A download is reported done only after the storage said that no piece is missing and that
/// the file was finished.
pub proof fn done_means_complete(m: EngineModel, evs: Seq<EngineEvent>)
    requires
        m.phase == EnginePhase::Loading,
        m.outcome is None,
        tells_done(run(m, evs).1),
    ensures
        some_event(evs, |ev: EngineEvent| nothing_missing(ev)),
        some_event(evs, |ev: EngineEvent| file_finished(ev)),
{
    done_invariant(m, evs);
}

proof fn done_invariant(m: EngineModel, evs: Seq<EngineEvent>)
    requires
        m.phase == EnginePhase::Loading,
        m.outcome is None,
    ensures
        ({
            let r = run(m, evs);
            let found = some_event(evs, |ev: EngineEvent| nothing_missing(ev));
            &&& (r.0.phase == EnginePhase::Finishing || r.0.phase == EnginePhase::FinishingAtOnce)
                ==> found
            &&& r.0.outcome == Some(Outcome::Completed) ==> found
            &&& tells_done(r.1) ==> found && some_event(
                evs,
                |ev: EngineEvent| file_finished(ev),
            )
        }),
    decreases evs.len(),
{
    if evs.len() > 0 {
        let before = run(m, evs.drop_last());
        done_invariant(m, evs.drop_last());
        step_to_done(before.0, evs.last());
        some_event_grows(evs, |ev: EngineEvent| nothing_missing(ev));
        some_event_grows(evs, |ev: EngineEvent| file_finished(ev));
        let last = before.0.step(evs.last()).1;
        let all = run(m, evs).1;
        let done = EngineAction::EmitStatus(FileStatus::Done);
        if tells_done(all) {
            let i = choose|i: int| 0 <= i < all.len() && all[i] == done;
            if i < before.1.len() {
                assert(before.1[i] == done);
            } else {
                assert(last[i - before.1.len()] == done);
            }
        }
    } else {
        assert(!tells_done(run(m, evs).1));
    }
}

/// Once a running engine has been told to cancel, it does not end in any other way: if it
/// ends, it has removed what was fetched and says that it was cancelled, last.
pub proof fn cancel_is_final(m: EngineModel, evs: Seq<EngineEvent>)
    requires
        m.phase == EnginePhase::Active,
    ensures
        ({
            let cancelled = m.step(EngineEvent::Command(FileCommand::Cancel)).0;
            let r = run(cancelled, evs);
            &&& r.0.outcome == Some(Outcome::Cancelled)
            &&& r.0.run == RunState::Stopping
            &&& r.0.phase == EnginePhase::Draining || r.0.phase == EnginePhase::Finished
            &&& r.0.phase == EnginePhase::Finished ==> {
                &&& r.1.len() >= 2
                &&& r.1.last() == EngineAction::EmitStatus(FileStatus::Cancelled)
                &&& r.1[r.1.len() - 2] == EngineAction::Abort
            }
        }),
    decreases evs.len(),
{
    if evs.len() > 0 {
        cancel_is_final(m, evs.drop_last());
        let cancelled = m.step(EngineEvent::Command(FileCommand::Cancel)).0;
        let before = run(cancelled, evs.drop_last());
        let last = before.0.step(evs.last());
        if before.0.phase == EnginePhase::Finished {
            assert(run(cancelled, evs).1 =~= before.1);
        }
    }
}

/// Whether an action is a report of progress.
pub open spec fn tells_progress(a: EngineAction) -> bool {
    a is EmitProgress
}

/// Progress is reported when it is time for it, and once more when the file has been finished;
/// nothing else leads to a report, however many pieces arrive.
pub proof fn progress_follows_the_clock(m: EngineModel, ev: EngineEvent, i: int)
    requires
        0 <= i < m.step(ev).1.len(),
        tells_progress(m.step(ev).1[i]),
    ensures
        ({
            ||| ev is Tick && m.phase == EnginePhase::Active && m.step(ev).1.len() == 1
            ||| file_finished(ev) && m.phase == EnginePhase::Finishing && i == 0
        }),
{
    let r = m.step(ev);
    if m.phase == EnginePhase::Draining && ev is WorkersDrained && m.outcome is Some {
        let marks = m.marks(m.outcome->0);
        if i < marks.len() {
            assert(r.1[i] == marks[i]);
        }
    }
    if m.phase == EnginePhase::Checking {
        if let EngineEvent::PendingChecked(_) = ev {
            let marks = m.marks(r.0.outcome->0);
            if i < marks.len() {
                assert(r.1[i] == marks[i]);
            }
        }
    }
}

/// An engine whose workers are refused ranges waits until they have stopped, whatever they
/// still report, and then starts one worker that fetches the whole body; the user's pause, if
/// there was one, holds. It does not matter whether the refusal comes while the workers are at
/// it or among their last reports. What is complete stays complete.
pub proof fn refused_ranges_lead_to_the_whole_body(m: EngineModel, evs: Seq<EngineEvent>)
    requires
        m.phase == EnginePhase::Active || m.phase == EnginePhase::Draining,
        m.ranges,
        m.outcome is None,
        forall|i: int| 0 <= i < evs.len() ==> !(#[trigger] evs[i] is WorkersDrained),
    ensures
        ({
            let refused = m.step(EngineEvent::Worker(WorkerMsg::RangesRefused)).0;
            let drained = run(refused, evs).0;
            let r = drained.step(EngineEvent::WorkersDrained);
            &&& drained.phase == EnginePhase::Draining
            &&& m.phase == EnginePhase::Active ==> drained.run == RunState::Stopping
            &&& r.0.phase == EnginePhase::Active
            &&& r.0.run == m.run
            &&& !r.0.ranges
            &&& r.0.workers == m.workers
            &&& r.0.held.len() == m.held.len()
            &&& forall|i: int| 0 <= i < m.held.len() && m.held[i] ==> #[trigger] r.0.held[i]
            &&& r.1.len() == 3
            &&& r.1[0] == EngineAction::SetRun(m.run)
            &&& r.1[2] matches EngineAction::SpawnFull { url, worker } && url == request_url_of(
                m.inputs.effective_url,
                m.inputs.spec.url,
            ) && (worker is Some <==> m.workers.len() > 0)
        }),
{
    refused_waits(m, evs);
}

proof fn refused_waits(m: EngineModel, evs: Seq<EngineEvent>)
    requires
        m.phase == EnginePhase::Active || m.phase == EnginePhase::Draining,
        m.ranges,
        m.outcome is None,
        forall|i: int| 0 <= i < evs.len() ==> !(#[trigger] evs[i] is WorkersDrained),
    ensures
        ({
            let refused = m.step(EngineEvent::Worker(WorkerMsg::RangesRefused)).0;
            let drained = run(refused, evs).0;
            &&& drained.phase == EnginePhase::Draining
            &&& m.phase == EnginePhase::Active ==> drained.run == RunState::Stopping
            &&& drained.outcome is None
            &&& drained.switching == Some(m.run)
            &&& !drained.ranges
            &&& drained.workers == m.workers
            &&& drained.inputs == m.inputs
            &&& drained.held.len() == m.held.len()
            &&& forall|i: int| 0 <= i < m.held.len() && m.held[i] ==> #[trigger] drained.held[i]
        }),
    decreases evs.len(),
{
    if evs.len() > 0 {
        assert forall|i: int| 0 <= i < evs.drop_last().len() implies !(#[trigger] evs.drop_last()[i]
            is WorkersDrained) by {
            assert(evs.drop_last()[i] == evs[i]);
        }
        refused_waits(m, evs.drop_last());
        assert(!(evs[evs.len() - 1] is WorkersDrained));
    }
}

/// A download that is taken up again reports the pieces that are complete already: all but the
/// missing ones.
pub proof fn resumed_download_counts_complete_pieces(m: EngineModel, pending: Vec<u32>)
    requires
        m.phase == EnginePhase::Loading,
        0 < m.inputs.piece_size,
        piece_count(m.inputs.total_size as int, m.inputs.piece_size as int) < 0x1_0000_0000,
        0 < pending@.len(),
        pending@.no_duplicates(),
        forall|i: int|
            0 <= i < pending@.len() ==> (#[trigger] pending@[i]) < piece_count(
                m.inputs.total_size as int,
                m.inputs.piece_size as int,
            ),
    ensures
        m.step(EngineEvent::PendingLoaded(Ok::<Vec<u32>, Error>(pending))).0.progress()
            == (EngineAction::EmitProgress {
            pieces_done: (m.total_pieces() - pending@.len()) as u32,
            pieces_total: m.total_pieces(),
        }),
{
    body_fills_pieces_like_file(m.inputs.total_size as int, m.inputs.piece_size as int);
    missing_pieces_are_left_out(
        pending@,
        m.inputs.piece_size as int,
        m.inputs.total_size as int,
    );
}

/// What was fetched is removed exactly where subscribers are told that the download was
/// cancelled, over whole runs.
pub proof fn storage_is_aborted_exactly_on_cancel(m: EngineModel, evs: Seq<EngineEvent>)
    ensures
        run(m, evs).1.contains(EngineAction::Abort) <==> run(m, evs).1.contains(
            EngineAction::EmitStatus(FileStatus::Cancelled),
        ),
    decreases evs.len(),
{
    let abort = EngineAction::Abort;
    let told = EngineAction::EmitStatus(FileStatus::Cancelled);
    if evs.len() > 0 {
        let before = run(m, evs.drop_last());
        let last = before.0.step(evs.last()).1;
        storage_is_aborted_exactly_on_cancel(m, evs.drop_last());
        step_aborts_exactly_on_cancel(before.0, evs.last());
        contained_in_either(before.1, last, abort);
        contained_in_either(before.1, last, told);
    }
}

proof fn contained_in_either(a: Seq<EngineAction>, b: Seq<EngineAction>, x: EngineAction)
    ensures
        (a + b).contains(x) <==> a.contains(x) || b.contains(x),
{
    if a.contains(x) {
        let i = choose|i: int| 0 <= i < a.len() && a[i] == x;
        assert((a + b)[i] == x);
    }
    if b.contains(x) {
        let i = choose|i: int| 0 <= i < b.len() && b[i] == x;
        assert((a + b)[a.len() + i] == x);
    }
    if (a + b).contains(x) {
        let i = choose|i: int| 0 <= i < (a + b).len() && (a + b)[i] == x;
        if i < a.len() {
            assert(a[i] == x);
        } else {
            assert(b[i - a.len()] == x);
        }
    }
}

proof fn step_aborts_exactly_on_cancel(m: EngineModel, ev: EngineEvent)
    ensures
        m.step(ev).1.contains(EngineAction::Abort) <==> m.step(ev).1.contains(
            EngineAction::EmitStatus(FileStatus::Cancelled),
        ),
{
    let r = m.step(ev);
    let abort = EngineAction::Abort;
    let told = EngineAction::EmitStatus(FileStatus::Cancelled);
    let ends = (m.phase == EnginePhase::Draining && ev is WorkersDrained && m.outcome is Some) || (
    m.phase == EnginePhase::Checking && ev is PendingChecked);
    if ends {
        let outcome = r.0.outcome->0;
        let marks = m.marks(outcome);
        assert forall|i: int| 0 <= i < marks.len() implies (#[trigger] marks[i]) != abort
            && marks[i] != told by {}
        let tail = r.1.skip(marks.len() as int);
        assert(r.1 =~= marks + tail);
        contained_in_either(marks, tail, abort);
        contained_in_either(marks, tail, told);
        if outcome is Cancelled {
            assert(tail[1] == abort);
            assert(tail[2] == told);
        }
    }
}

/// Pausing a running engine and resuming it leads back to where it was, and doing either
/// twice does no more than doing it once.
pub proof fn pause_and_resume(m: EngineModel)
    requires
        m.phase == EnginePhase::Active,
        m.run == RunState::Running,
    ensures
        ({
            let pause = EngineEvent::Command(FileCommand::Pause);
            let resume = EngineEvent::Command(FileCommand::Resume);
            let paused = m.step(pause).0;
            &&& paused.step(resume).0 == m
            &&& paused.step(pause) == (paused, Seq::<EngineAction>::empty())
            &&& m.step(resume) == (m, Seq::<EngineAction>::empty())
        }),
{
}

/// A step closes an attempt's row only if the row was open, and it is not open afterwards:
/// no row is closed twice.
pub proof fn attempt_is_closed_once(
    m: EngineModel,
    ev: EngineEvent,
    attempt: AttemptId,
    bytes: u64,
    error: String,
)
    requires
        ({
            ||| m.step(ev).1.contains(EngineAction::FinishAttempt { attempt, bytes })
            ||| m.step(ev).1.contains(EngineAction::FailAttempt { attempt, error })
        }),
    ensures
        exists|key: (WorkerId, u32)|
            {
                &&& #[trigger] m.open.contains_key(key)
                &&& m.open[key] == attempt
                &&& m.step(ev).0.open == m.open.remove(key)
            },
{
    let r = m.step(ev);
    let finish = EngineAction::FinishAttempt { attempt, bytes };
    let fail = EngineAction::FailAttempt { attempt, error };
    let i = choose|i: int| 0 <= i < r.1.len() && (r.1[i] == finish || r.1[i] == fail);
    if m.phase == EnginePhase::Draining && ev is WorkersDrained && m.outcome is Some {
        let marks = m.marks(m.outcome->0);
        if i < marks.len() {
            assert(r.1[i] == marks[i]);
        }
    }
    if m.phase == EnginePhase::Checking {
        if let EngineEvent::PendingChecked(_) = ev {
            let marks = m.marks(r.0.outcome->0);
            if i < marks.len() {
                assert(r.1[i] == marks[i]);
            }
        }
    }
    match ev {
        EngineEvent::Worker(WorkerMsg::AttemptFinished { worker_id, piece, bytes: b })
        => {
            assert(m.open.contains_key((worker_id, piece)));
        },
        EngineEvent::Worker(WorkerMsg::AttemptFailed { worker_id, piece, error: e })
        => {
            assert(m.open.contains_key((worker_id, piece)));
        },
        _ => {},
    }
}

} // verus!

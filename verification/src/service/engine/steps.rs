//! What an engine does on each event that it hears.

use vstd::prelude::*;
use vstd::arithmetic::power2::pow2;
use crate::domain::command::FileCommand;
use crate::domain::id::{AttemptId, WorkerId};
use crate::domain::spec::{
    every_size_has_workers, is_worker_count, ten_mib_units, workers_follow_the_bytes,
};
use crate::domain::status::FileStatus;
use crate::error::Error;
use crate::ports::records::WorkerRecord;
use super::geometry::piece_count;
use super::held::held_count;
use super::inputs::{EngineFailure, Outcome};
use super::laws::run;
use super::supervisor::{EngineAction, EngineEvent, EngineModel, EnginePhase};
use super::worker::{RunState, WorkerMsg};

verus! {

/// An engine that is told of missing pieces says that it runs and asks for the rows of its
/// workers: as many as the size of the file calls for where the server takes ranges, and one
/// where it does not. Once it has the rows, it starts that many workers on those pieces, at
/// the address that redirects led to or, without redirects, at the one that was asked for.
pub proof fn workers_follow_the_size(
    m: EngineModel,
    missing: Vec<u32>,
    records: Vec<WorkerRecord>,
)
    requires
        m.phase == EnginePhase::Loading,
        missing@.len() > 0,
    ensures
        ({
            let asked = m.step(EngineEvent::PendingLoaded(Ok::<Vec<u32>, Error>(missing)));
            let begun = asked.0.step(
                EngineEvent::SlotsReady(Ok::<Vec<WorkerRecord>, Error>(records)),
            );
            &&& asked.0.phase == EnginePhase::Allocating
            &&& asked.1.len() == 2
            &&& asked.1[0] == EngineAction::EmitStatus(FileStatus::Running)
            &&& asked.1[1] matches EngineAction::EnsureSlots { count } && {
                &&& m.inputs.accepts_ranges ==> {
                    &&& is_worker_count(count as int, ten_mib_units(m.inputs.total_size as int))
                    &&& 1 <= count <= 12
                    &&& count < 12 ==> m.inputs.total_size <= 10_485_760 * pow2(count as nat)
                    &&& count > 1 ==> m.inputs.total_size > 10_485_760 * pow2((count - 1) as nat)
                }
                &&& !m.inputs.accepts_ranges ==> count == 1
                &&& begun.0.phase == EnginePhase::Active
                &&& begun.0.run == RunState::Running
                &&& begun.0.inputs == m.inputs
                &&& begun.0.ranges == m.ranges
                &&& begun.0.outcome == m.outcome
                &&& begun.0.workers.len() == records@.len()
                &&& forall|i: int|
                    0 <= i < records@.len() ==> #[trigger] begun.0.workers[i] == records@[i].id
                &&& begun.1.len() == 1
                &&& begun.1[0] matches EngineAction::Spawn {
                    url,
                    guard,
                    ranges,
                    count: started,
                    records: rows,
                    pending,
                } && {
                    &&& started == count
                    &&& rows == records
                    &&& pending == missing
                    &&& guard == m.inputs.guard
                    &&& ranges == m.inputs.accepts_ranges
                    &&& m.inputs.effective_url is Some ==> m.inputs.effective_url == Some(url)
                    &&& m.inputs.effective_url is None ==> url == m.inputs.spec.url
                }
            }
        }),
{
    every_size_has_workers(m.inputs.total_size as int);
    workers_follow_the_bytes(
        m.inputs.total_size as int,
        crate::domain::spec::worker_count(m.inputs.total_size as int),
    );
}

/// Before any worker starts, exactly the pieces that are not missing count as complete.
pub proof fn missing_pieces_are_fetched(m: EngineModel, missing: Vec<u32>, i: int)
    requires
        m.phase == EnginePhase::Loading,
        missing@.len() > 0,
        0 <= i < m.step(EngineEvent::PendingLoaded(Ok::<Vec<u32>, Error>(missing))).0.held.len(),
    ensures
        m.step(EngineEvent::PendingLoaded(Ok::<Vec<u32>, Error>(missing))).0.held[i]
            <==> !missing@.contains(i as u32),
{
}

/// An engine that is told of no missing piece says that it runs and finishes the file at once;
/// one that is told of an error, or gets no rows, fails with that error and says so.
pub proof fn start_can_end_at_once(m: EngineModel, none: Vec<u32>, e: Error)
    requires
        none@.len() == 0,
    ensures
        m.phase == EnginePhase::Loading ==> {
            let complete = m.step(EngineEvent::PendingLoaded(Ok::<Vec<u32>, Error>(none)));
            let refused = m.step(EngineEvent::PendingLoaded(Err::<Vec<u32>, Error>(e)));
            &&& complete.0 == (EngineModel { phase: EnginePhase::FinishingAtOnce, ..m })
            &&& complete.1 == seq![
                EngineAction::EmitStatus(FileStatus::Running),
                EngineAction::Finalize,
            ]
            &&& refused.0 == (EngineModel { phase: EnginePhase::Finished, ..m })
            &&& refused.1 == seq![EngineAction::EmitFailed(EngineFailure::PendingPieces(e))]
        },
        m.phase == EnginePhase::Allocating ==> m.step(
            EngineEvent::SlotsReady(Err::<Vec<WorkerRecord>, Error>(e)),
        ) == (
            EngineModel { phase: EnginePhase::Finished, ..m },
            seq![EngineAction::EmitFailed(EngineFailure::EnsureSlots(e))],
        ),
{
}

/// While the workers are at it, and whether they fetch by ranges or not, a pause stops a
/// running engine and says so, and a resumption takes a paused one up again and says so. Apart
/// from that, nothing about the engine changes.
pub proof fn pause_stops_and_resume_goes_on(m: EngineModel)
    requires
        m.phase == EnginePhase::Active,
    ensures
        ({
            let paused = m.step(EngineEvent::Command(FileCommand::Pause));
            let resumed = m.step(EngineEvent::Command(FileCommand::Resume));
            &&& m.run == RunState::Running ==> {
                &&& paused.0 == (EngineModel { run: RunState::Paused, ..m })
                &&& paused.1 == seq![
                    EngineAction::SetRun(RunState::Paused),
                    EngineAction::EmitStatus(FileStatus::Paused),
                    EngineAction::ResetSpeed,
                ]
                &&& resumed == (m, Seq::<EngineAction>::empty())
            }
            &&& m.run == RunState::Paused ==> {
                &&& resumed.0 == (EngineModel { run: RunState::Running, ..m })
                &&& resumed.1 == seq![
                    EngineAction::SetRun(RunState::Running),
                    EngineAction::EmitStatus(FileStatus::Running),
                    EngineAction::ResetSpeed,
                ]
                &&& paused == (m, Seq::<EngineAction>::empty())
            }
        }),
{
}

/// A cancellation reaches an engine in every state of its workers: they are told to stop and
/// waited for.
pub proof fn cancel_stops_the_workers(m: EngineModel)
    requires
        m.phase == EnginePhase::Active,
    ensures
        ({
            let r = m.step(EngineEvent::Command(FileCommand::Cancel));
            &&& r.0.phase == EnginePhase::Draining
            &&& r.0.run == RunState::Stopping
            &&& r.0.outcome == Some(Outcome::Cancelled)
            &&& r.0.workers == m.workers
            &&& r.0.open == m.open
            &&& r.0.held == m.held
            &&& r.1 == seq![EngineAction::SetRun(RunState::Stopping), EngineAction::JoinWorkers]
        }),
{
}

/// A piece that a worker reports is committed, while the workers are at it and while their
/// last reports come in; only once that has succeeded does it count.
pub proof fn reported_pieces_are_committed(m: EngineModel, piece: u32)
    requires
        m.phase == EnginePhase::Active || m.phase == EnginePhase::Draining,
    ensures
        ({
            let reported = m.step(EngineEvent::Worker(WorkerMsg::PieceDone { piece }));
            let done = m.step(EngineEvent::Committed { piece, result: Ok::<(), Error>(()) });
            &&& reported == (m, seq![EngineAction::Commit { piece }])
            &&& done.1 == Seq::<EngineAction>::empty()
            &&& done.0.phase == m.phase
            &&& done.0.run == m.run
            &&& done.0.outcome == m.outcome
            &&& done.0.switching == m.switching
            &&& done.0.ranges == m.ranges
            &&& done.0.workers == m.workers
            &&& done.0.open == m.open
            &&& done.0.held.len() == m.held.len()
            &&& forall|i: int|
                0 <= i < m.held.len() ==> #[trigger] done.0.held[i] == (m.held[i] || i == piece)
            &&& m.committed < usize::MAX ==> done.0.committed == m.committed + 1
            &&& m.committed == usize::MAX ==> done.0.committed == m.committed
        }),
{
}

/// A worker that gives up, and a piece that cannot be committed, stop the engine. Whatever is
/// reported on the way, once the workers have ended every row is marked with that failure and
/// subscribers are told of it, last.
pub proof fn failures_are_told(m: EngineModel, report: String, e: Error, evs: Seq<EngineEvent>)
    requires
        m.phase == EnginePhase::Active,
        forall|i: int| 0 <= i < evs.len() ==> !(#[trigger] evs[i] is WorkersDrained),
    ensures
        ends_with(
            m,
            m.step(EngineEvent::Worker(WorkerMsg::Failed(report))),
            evs,
            EngineFailure::Worker(report),
        ),
        forall|piece: u32| #[trigger]
            ends_with(
                m,
                m.step(EngineEvent::Committed { piece, result: Err::<(), Error>(e) }),
                evs,
                EngineFailure::Commit(e),
            ),
{
    failure_waits(
        m.step(EngineEvent::Worker(WorkerMsg::Failed(report))).0,
        evs,
        EngineFailure::Worker(report),
    );
    assert forall|piece: u32| #[trigger]
        ends_with(
            m,
            m.step(EngineEvent::Committed { piece, result: Err::<(), Error>(e) }),
            evs,
            EngineFailure::Commit(e),
        ) by {
        failure_waits(
            m.step(EngineEvent::Committed { piece, result: Err::<(), Error>(e) }).0,
            evs,
            EngineFailure::Commit(e),
        );
    }
}

/// Whether a first step stops the workers of `m`, and the engine ends with `failure` once they
/// have ended.
pub open spec fn ends_with(
    m: EngineModel,
    first: (EngineModel, Seq<EngineAction>),
    evs: Seq<EngineEvent>,
    failure: EngineFailure,
) -> bool {
    let n = m.workers.len() as int;
    let last = run(first.0, evs).0.step(EngineEvent::WorkersDrained);
    &&& first.0.phase == EnginePhase::Draining
    &&& first.0.run == RunState::Stopping
    &&& first.1 == seq![EngineAction::SetRun(RunState::Stopping), EngineAction::JoinWorkers]
    &&& last.0.phase == EnginePhase::Finished
    &&& last.1.len() == n + 1
    &&& last.1[n] == EngineAction::EmitFailed(failure)
    &&& forall|i: int|
        0 <= i < n ==> #[trigger] last.1[i] == EngineAction::MarkFailed(m.workers[i], failure)
}

proof fn failure_waits(m: EngineModel, evs: Seq<EngineEvent>, failure: EngineFailure)
    requires
        m.phase == EnginePhase::Draining,
        m.outcome == Some(Outcome::Failed(failure)),
        forall|i: int| 0 <= i < evs.len() ==> !(#[trigger] evs[i] is WorkersDrained),
    ensures
        run(m, evs).0.phase == EnginePhase::Draining,
        run(m, evs).0.outcome == m.outcome,
        run(m, evs).0.workers == m.workers,
    decreases evs.len(),
{
    if evs.len() > 0 {
        assert forall|i: int| 0 <= i < evs.drop_last().len() implies !(#[trigger] evs.drop_last()[i]
            is WorkersDrained) by {
            assert(evs.drop_last()[i] == evs[i]);
        }
        failure_waits(m, evs.drop_last(), failure);
        assert(!(evs[evs.len() - 1] is WorkersDrained));
    }
}

/// When the workers of a cancelled engine have ended, every row is marked as cancelled, the
/// open attempts are paused, what was fetched is removed and subscribers are told, in this
/// order.
pub proof fn cancelled_engine_cleans_up(m: EngineModel)
    requires
        m.phase == EnginePhase::Draining,
        m.outcome == Some(Outcome::Cancelled),
    ensures
        ({
            let n = m.workers.len() as int;
            let r = m.step(EngineEvent::WorkersDrained);
            &&& r.0.phase == EnginePhase::Finished
            &&& r.1.len() == n + 3
            &&& forall|i: int|
                0 <= i < n ==> #[trigger] r.1[i] == EngineAction::MarkCancelled(m.workers[i])
            &&& r.1[n] == EngineAction::PauseAttempts
            &&& r.1[n + 1] == EngineAction::Abort
            &&& r.1[n + 2] == EngineAction::EmitStatus(FileStatus::Cancelled)
        }),
{
}

/// An engine whose workers have all ended by themselves waits for their last reports and then
/// asks which pieces are missing, unless they were refused ranges.
pub proof fn ended_workers_lead_to_a_check(m: EngineModel)
    ensures
        m.phase == EnginePhase::Active ==> m.step(EngineEvent::WorkersClosed) == (
            EngineModel { phase: EnginePhase::Draining, ..m },
            seq![EngineAction::JoinWorkers],
        ),
        m.phase == EnginePhase::Draining && m.outcome is None && m.switching is None ==> m.step(
            EngineEvent::WorkersDrained,
        ) == (
            EngineModel { phase: EnginePhase::Checking, ..m },
            seq![EngineAction::CheckPending],
        ),
{
}

/// If no piece is missing after the workers have ended, every row is marked as done and the
/// file is finished. If pieces are missing, or nobody knows, every row is marked as failed and
/// subscribers are told why: no piece was committed, or not all of them were, or the error.
pub proof fn check_decides_the_end(m: EngineModel, missing: Vec<u32>, e: Error)
    requires
        m.phase == EnginePhase::Checking,
    ensures
        ({
            let n = m.workers.len() as int;
            let checked = m.step(EngineEvent::PendingChecked(Ok::<Vec<u32>, Error>(missing)));
            let unknown = m.step(EngineEvent::PendingChecked(Err::<Vec<u32>, Error>(e)));
            &&& missing@.len() == 0 ==> {
                &&& checked.0.phase == EnginePhase::Finishing
                &&& checked.1.len() == n + 1
                &&& checked.1[n] == EngineAction::Finalize
                &&& forall|i: int|
                    0 <= i < n ==> #[trigger] checked.1[i] == EngineAction::MarkDone(m.workers[i])
            }
            &&& missing@.len() > 0 ==> {
                let failure = if m.committed == 0 {
                    EngineFailure::NoProgress
                } else {
                    EngineFailure::BeforeCompletion
                };
                &&& checked.0.phase == EnginePhase::Finished
                &&& checked.1.len() == n + 1
                &&& checked.1[n] == EngineAction::EmitFailed(failure)
                &&& forall|i: int|
                    0 <= i < n ==> #[trigger] checked.1[i] == EngineAction::MarkFailed(
                        m.workers[i],
                        failure,
                    )
            }
            &&& unknown.0.phase == EnginePhase::Finished
            &&& unknown.1.len() == n + 1
            &&& unknown.1[n] == EngineAction::EmitFailed(EngineFailure::Pending(e))
            &&& forall|i: int|
                0 <= i < n ==> #[trigger] unknown.1[i] == EngineAction::MarkFailed(
                    m.workers[i],
                    EngineFailure::Pending(e),
                )
        }),
{
}

/// When the file has been finished, subscribers are told that all pieces are there, if any had
/// to be fetched, and then that the download is done. If it cannot be finished, they are told
/// so instead.
pub proof fn finished_file_is_told(m: EngineModel, e: Error)
    requires
        m.phase == EnginePhase::Finishing || m.phase == EnginePhase::FinishingAtOnce,
    ensures
        ({
            let done = m.step(EngineEvent::Finalized(Ok::<(), Error>(())));
            let refused = m.step(EngineEvent::Finalized(Err::<(), Error>(e)));
            &&& done.0 == (EngineModel { phase: EnginePhase::Finished, ..m })
            &&& m.phase == EnginePhase::FinishingAtOnce ==> done.1 == seq![
                EngineAction::EmitStatus(FileStatus::Done),
            ]
            &&& m.phase == EnginePhase::Finishing ==> {
                &&& done.1.len() == 2
                &&& done.1[0] matches EngineAction::EmitProgress { pieces_done, pieces_total }
                    && pieces_done == pieces_total && pieces_total == m.total_pieces()
                &&& done.1[1] == EngineAction::EmitStatus(FileStatus::Done)
            }
            &&& refused == (
                EngineModel { phase: EnginePhase::Finished, ..m },
                seq![EngineAction::EmitFailed(EngineFailure::Finalize(e))],
            )
        }),
{
}

/// The number of pieces is the smallest that holds the whole file.
pub proof fn pieces_hold_the_file(m: EngineModel, n: int)
    requires
        0 < m.inputs.piece_size,
        0 <= n < 0x1_0000_0000,
        m.inputs.total_size <= n * m.inputs.piece_size,
        n > 0 ==> (n - 1) * m.inputs.piece_size < m.inputs.total_size,
    ensures
        m.total_pieces() == n,
        n == piece_count(m.inputs.total_size as int, m.inputs.piece_size as int),
{
    let total = m.inputs.total_size as int;
    let size = m.inputs.piece_size as int;
    let rest = total + size - 1 - n * size;
    assert(total + size - 1 == n * size + rest);
    assert((n - 1) * size == n * size - size) by (nonlinear_arith);
    if n == 0 {
        assert(n * size == 0) by (nonlinear_arith)
            requires
                n == 0,
        ;
    }
    assert(size * n == n * size) by (nonlinear_arith);
    vstd::arithmetic::div_mod::lemma_fundamental_div_mod_converse(total + size - 1, size, n, rest);
    vstd::arithmetic::div_mod::lemma_small_mod(n as nat, 0x1_0000_0000);
}

/// As many pieces are complete as are marked so.
pub proof fn complete_pieces_are_counted(held: Seq<bool>)
    ensures
        held_count(held) == held.filter(|complete: bool| complete).len(),
        held_count(held) <= held.len(),
    decreases held.len(),
{
    reveal(Seq::filter);
    if held.len() > 0 {
        complete_pieces_are_counted(held.drop_last());
    }
}

/// A report of progress tells how many pieces are complete, out of all of them, and changes
/// nothing.
pub proof fn progress_counts_complete_pieces(m: EngineModel)
    requires
        m.phase == EnginePhase::Active,
        m.held.len() < 0x1_0000_0000,
    ensures
        m.step(EngineEvent::Tick).0 == m,
        m.step(EngineEvent::Tick).1.len() == 1,
        m.step(EngineEvent::Tick).1[0] matches EngineAction::EmitProgress {
            pieces_done,
            pieces_total,
        } && pieces_done == m.held.filter(|complete: bool| complete).len() && pieces_total
            == m.total_pieces(),
{
    complete_pieces_are_counted(m.held);
}

/// Each attempt gets a row of its own: it is stored when it begins, and its row is closed with
/// the bytes that it fetched or the error that it met. An attempt without a row leaves no trace.
pub proof fn attempts_get_rows(
    m: EngineModel,
    worker_id: WorkerId,
    piece: u32,
    row: AttemptId,
    bytes: u64,
    error: String,
)
    requires
        m.phase == EnginePhase::Active || m.phase == EnginePhase::Draining,
    ensures
        ({
            let begun = m.step(EngineEvent::Worker(WorkerMsg::AttemptStarted { worker_id, piece }));
            let stored = m.step(
                EngineEvent::AttemptOpened { worker_id, piece, attempt: Some(row) },
            );
            let unstored = m.step(EngineEvent::AttemptOpened { worker_id, piece, attempt: None });
            let finished = m.step(
                EngineEvent::Worker(WorkerMsg::AttemptFinished { worker_id, piece, bytes }),
            );
            let failed = m.step(
                EngineEvent::Worker(WorkerMsg::AttemptFailed { worker_id, piece, error }),
            );
            let key = (worker_id, piece);
            let closed = EngineModel { open: m.open.remove(key), ..m };
            let opened = EngineModel { open: m.open.insert(key, row), ..m };
            &&& begun == (m, seq![EngineAction::StartAttempt { worker_id, piece }])
            &&& stored == (opened, Seq::<EngineAction>::empty())
            &&& unstored == (m, Seq::<EngineAction>::empty())
            &&& m.open.contains_key(key) ==> {
                &&& finished == (
                    closed,
                    seq![EngineAction::FinishAttempt { attempt: m.open[key], bytes }],
                )
                &&& failed == (
                    closed,
                    seq![EngineAction::FailAttempt { attempt: m.open[key], error }],
                )
            }
            &&& !m.open.contains_key(key) ==> {
                &&& finished == (m, Seq::<EngineAction>::empty())
                &&& failed == (m, Seq::<EngineAction>::empty())
            }
        }),
{
}

/// Refused ranges stop the workers of an engine that fetches by ranges, and mean nothing to one
/// that fetches the whole body. The worker that follows continues the row of the first one.
pub proof fn refusal_is_heard_once(m: EngineModel)
    ensures
        m.phase == EnginePhase::Active && m.ranges ==> {
            let r = m.step(EngineEvent::Worker(WorkerMsg::RangesRefused));
            &&& r.0 == (EngineModel {
                phase: EnginePhase::Draining,
                run: RunState::Stopping,
                ranges: false,
                switching: Some(m.run),
                ..m
            })
            &&& r.1 == seq![EngineAction::SetRun(RunState::Stopping), EngineAction::JoinWorkers]
        },
        (m.phase == EnginePhase::Active || m.phase == EnginePhase::Draining) && !m.ranges
            ==> m.step(EngineEvent::Worker(WorkerMsg::RangesRefused)) == (
            m,
            Seq::<EngineAction>::empty(),
        ),
        m.phase == EnginePhase::Draining && m.outcome is Some ==> m.step(
            EngineEvent::Worker(WorkerMsg::RangesRefused),
        ) == (m, Seq::<EngineAction>::empty()),
        m.phase == EnginePhase::Draining && m.outcome is None && m.switching is Some ==> {
            let r = m.step(EngineEvent::WorkersDrained);
            &&& r.0 == (EngineModel {
                phase: EnginePhase::Active,
                run: m.switching->0,
                switching: None,
                ..m
            })
            &&& r.1.len() == 3
            &&& r.1[0] == EngineAction::SetRun(m.switching->0)
            &&& r.1[1] == EngineAction::ResetSpeed
            &&& r.1[2] matches EngineAction::SpawnFull { url, worker } && {
                &&& m.workers.len() > 0 ==> worker == Some(m.workers[0])
                &&& m.workers.len() == 0 ==> worker is None
                &&& m.inputs.effective_url is Some ==> m.inputs.effective_url == Some(url)
                &&& m.inputs.effective_url is None ==> url == m.inputs.spec.url
            }
        },
{
}

/// An event that comes when it has no meaning is passed over: commands unless the workers are
/// at it, reports of workers before they start and after they have ended, and answers that
/// nobody asked for.
pub proof fn untimely_events_are_passed_over(m: EngineModel, ev: EngineEvent)
    requires
        ev is PendingLoaded ==> m.phase != EnginePhase::Loading,
        ev is SlotsReady ==> m.phase != EnginePhase::Allocating,
        ev is Command || ev is Tick || ev is WorkersClosed ==> m.phase != EnginePhase::Active,
        ev is Worker || ev is AttemptOpened || ev is Committed ==> m.phase != EnginePhase::Active
            && m.phase != EnginePhase::Draining,
        ev is WorkersDrained ==> m.phase != EnginePhase::Draining,
        ev is PendingChecked ==> m.phase != EnginePhase::Checking,
        ev is Finalized ==> m.phase != EnginePhase::Finishing && m.phase
            != EnginePhase::FinishingAtOnce,
    ensures
        m.step(ev) == (m, Seq::<EngineAction>::empty()),
{
}

/// While the last reports of the workers come in, a piece that cannot be committed and a worker
/// that gives up change nothing: what decides is which pieces are missing afterwards, or what
/// stopped the workers.
pub proof fn late_failures_do_not_decide(m: EngineModel, piece: u32, report: String, e: Error)
    requires
        m.phase == EnginePhase::Draining,
    ensures
        m.step(EngineEvent::Committed { piece, result: Err::<(), Error>(e) }) == (
            m,
            Seq::<EngineAction>::empty(),
        ),
        m.step(EngineEvent::Worker(WorkerMsg::Failed(report))) == (m, Seq::<EngineAction>::empty()),
{
}

} // verus!

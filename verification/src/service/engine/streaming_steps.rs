//! What an engine for a file of unknown size does on each event that it hears.

use vstd::prelude::*;
use crate::domain::command::FileCommand;
use crate::domain::progress::ProgressCounts;
use crate::domain::status::FileStatus;
use crate::error::Error;
use crate::ports::http::RangeError;
use crate::ports::records::WorkerRecord;
use crate::service::retry::RetryDecision;
use super::inputs::{EngineFailure, Outcome};
use super::streaming::{wrapped_sum, StreamAction, StreamEvent, StreamModel, StreamPhase};

verus! {

/// An engine that has the row of its worker says that it runs and asks for the body, at the
/// address that redirects led to or, without redirects, at the one that was asked for. One that
/// gets no row fails with that error.
pub proof fn stream_asks_for_the_body(m: StreamModel, records: Vec<WorkerRecord>, e: Error)
    requires
        m.phase == StreamPhase::Allocating,
    ensures
        ({
            let ready = m.step(StreamEvent::SlotsReady(Ok::<Vec<WorkerRecord>, Error>(records)));
            let refused = m.step(StreamEvent::SlotsReady(Err::<Vec<WorkerRecord>, Error>(e)));
            &&& ready.0 == (StreamModel {
                phase: StreamPhase::Opening,
                workers: ready.0.workers,
                ..m
            })
            &&& ready.0.workers.len() == records@.len()
            &&& forall|i: int|
                0 <= i < records@.len() ==> #[trigger] ready.0.workers[i] == records@[i].id
            &&& ready.1.len() == 2
            &&& ready.1[0] == StreamAction::EmitStatus(FileStatus::Running)
            &&& asks_at_its_address(m, ready.1[1])
            &&& refused == (
                StreamModel { phase: StreamPhase::Finished, ..m },
                seq![StreamAction::EmitFailed(EngineFailure::EnsureSlots(e))],
            )
        }),
{
}

/// Whether `a` asks for the body at the address that redirects led to or, without redirects, at
/// the one that was asked for.
pub open spec fn asks_at_its_address(m: StreamModel, a: StreamAction) -> bool {
    a matches StreamAction::Open { url } && {
        &&& m.inputs.effective_url is Some ==> m.inputs.effective_url == Some(url)
        &&& m.inputs.effective_url is None ==> url == m.inputs.spec.url
    }
}

/// A response that has begun is read; every chunk of it is appended as it is and counts once it
/// has been appended.
pub proof fn stream_appends_every_chunk(m: StreamModel, chunk: Vec<u8>)
    ensures
        m.phase == StreamPhase::Opening ==> m.step(StreamEvent::Opened) == (
            StreamModel { phase: StreamPhase::Reading, ..m },
            Seq::<StreamAction>::empty(),
        ),
        m.phase == StreamPhase::Reading && m.appending == 0 ==> {
            let taken = m.step(StreamEvent::Chunk(chunk));
            let appended = taken.0.step(StreamEvent::Appended(Ok::<(), Error>(())));
            &&& taken.0.phase == StreamPhase::Appending
            &&& taken.0.bytes_done == m.bytes_done
            &&& taken.1 == seq![StreamAction::Append(chunk)]
            &&& appended.0 == (StreamModel { bytes_done: appended.0.bytes_done, ..m })
            &&& m.bytes_done + chunk@.len() <= u64::MAX && chunk@.len() <= u64::MAX
                ==> appended.0.bytes_done == m.bytes_done + chunk@.len()
            &&& appended.1 == Seq::<StreamAction>::empty()
        },
{
    if m.bytes_done + chunk@.len() <= u64::MAX && chunk@.len() <= u64::MAX {
        vstd::arithmetic::div_mod::lemma_small_mod(
            (m.bytes_done + chunk@.len()) as nat,
            0x1_0000_0000_0000_0000,
        );
    }
}

/// Sums of bytes are taken modulo `2^64`.
pub proof fn sums_wrap(a: int, b: int)
    ensures
        wrapped_sum(a, b) as int % 0x1_0000_0000_0000_0000 == (a + b) % 0x1_0000_0000_0000_0000,
        0 <= a + b < 0x1_0000_0000_0000_0000 ==> wrapped_sum(a, b) == a + b,
{
    vstd::arithmetic::div_mod::lemma_mod_bound(a + b, 0x1_0000_0000_0000_0000);
    vstd::arithmetic::div_mod::lemma_small_mod(
        ((a + b) % 0x1_0000_0000_0000_0000) as nat,
        0x1_0000_0000_0000_0000,
    );
    if 0 <= a + b < 0x1_0000_0000_0000_0000 {
        vstd::arithmetic::div_mod::lemma_small_mod((a + b) as nat, 0x1_0000_0000_0000_0000);
    }
}

/// A pause stops an engine that reads, says so and drops the connection. A resumption of a
/// paused one says so and has the file emptied; once it is empty, the body is asked for anew.
pub proof fn stream_pauses_and_starts_over(m: StreamModel)
    ensures
        m.phase == StreamPhase::Reading ==> m.step(StreamEvent::Command(FileCommand::Pause)) == (
            StreamModel { phase: StreamPhase::Paused, ..m },
            seq![
                StreamAction::EmitStatus(FileStatus::Paused),
                StreamAction::ResetSpeed,
                StreamAction::Close,
            ],
        ),
        m.phase == StreamPhase::Paused ==> m.step(StreamEvent::Command(FileCommand::Resume)) == (
            StreamModel { phase: StreamPhase::Restarting, bytes_done: 0, ..m },
            seq![
                StreamAction::EmitStatus(FileStatus::Running),
                StreamAction::ResetSpeed,
                StreamAction::Restart,
            ],
        ),
        m.phase == StreamPhase::Waiting ==> m.step(StreamEvent::WaitOver) == (
            StreamModel { phase: StreamPhase::Restarting, bytes_done: 0, ..m },
            seq![StreamAction::Restart],
        ),
        m.phase == StreamPhase::Restarting ==> {
            let r = m.step(StreamEvent::Restarted(Ok::<(), Error>(())));
            &&& r.0 == (StreamModel { phase: StreamPhase::Opening, ..m })
            &&& r.1.len() == 1
            &&& asks_at_its_address(m, r.1[0])
        },
{
}

/// A fault of the request or of the body is met as was decided: by waiting as long as was
/// decided, or by the end of the download, which is told with that fault after the row of the
/// worker has been marked.
pub proof fn stream_meets_faults_as_decided(m: StreamModel, error: RangeError, nanos: u128)
    requires
        m.phase == StreamPhase::Opening || m.phase == StreamPhase::Reading,
    ensures
        ({
            let again = m.step(
                StreamEvent::Fault { error, decision: RetryDecision::Retry(nanos) },
            );
            let given_up = m.step(StreamEvent::Fault { error, decision: RetryDecision::GiveUp });
            &&& again.0 == (StreamModel {
                phase: StreamPhase::Waiting,
                attempt: again.0.attempt,
                ..m
            })
            &&& m.attempt < u32::MAX ==> again.0.attempt == m.attempt + 1
            &&& m.attempt == u32::MAX ==> again.0.attempt == m.attempt
            &&& again.1 == seq![StreamAction::Wait { nanos }]
            &&& stream_fails_with(m, given_up, EngineFailure::Fetch(error))
        }),
{
}

/// Whether a step ends the engine with `failure`: the row of every worker is marked with it, and
/// then subscribers are told of it.
pub open spec fn stream_fails_with(
    m: StreamModel,
    r: (StreamModel, Seq<StreamAction>),
    failure: EngineFailure,
) -> bool {
    let n = m.workers.len() as int;
    &&& r.0.phase == StreamPhase::Finished
    &&& r.0.outcome == Some(Outcome::Failed(failure))
    &&& r.1.len() == n + 1
    &&& r.1[n] == StreamAction::EmitFailed(failure)
    &&& forall|i: int|
        0 <= i < n ==> #[trigger] r.1[i] == StreamAction::MarkFailed(m.workers[i], failure)
}

/// Bytes that cannot be appended and a file that cannot be emptied end the download with that
/// error.
pub proof fn stream_fails_with_the_storage(m: StreamModel, e: Error)
    ensures
        m.phase == StreamPhase::Appending ==> stream_fails_with(
            m,
            m.step(StreamEvent::Appended(Err::<(), Error>(e))),
            EngineFailure::Append(e),
        ),
        m.phase == StreamPhase::Restarting ==> stream_fails_with(
            m,
            m.step(StreamEvent::Restarted(Err::<(), Error>(e))),
            EngineFailure::Restart(e),
        ),
{
}

/// When the response has ended, the row of the worker is marked as done and the file is
/// finished; then subscribers are told of all the bytes and that the download is done, or that
/// the file could not be finished.
pub proof fn stream_ends_with_the_response(m: StreamModel, e: Error)
    ensures
        m.phase == StreamPhase::Reading ==> {
            let n = m.workers.len() as int;
            let r = m.step(StreamEvent::Eof);
            &&& r.0.phase == StreamPhase::Finishing
            &&& r.0.bytes_done == m.bytes_done
            &&& r.1.len() == n + 1
            &&& r.1[n] == StreamAction::Finalize
            &&& forall|i: int|
                0 <= i < n ==> #[trigger] r.1[i] == StreamAction::MarkDone(m.workers[i])
        },
        m.phase == StreamPhase::Finishing ==> {
            let done = m.step(StreamEvent::Finalized(Ok::<(), Error>(())));
            let refused = m.step(StreamEvent::Finalized(Err::<(), Error>(e)));
            &&& done.0 == (StreamModel { phase: StreamPhase::Finished, ..m })
            &&& done.1 == seq![
                StreamAction::EmitProgress(
                    ProgressCounts {
                        bytes_done: m.bytes_done,
                        bytes_total: 0,
                        pieces_done: 0,
                        pieces_total: 0,
                    },
                ),
                StreamAction::EmitStatus(FileStatus::Done),
            ]
            &&& refused == (
                StreamModel { phase: StreamPhase::Finished, ..m },
                seq![StreamAction::EmitFailed(EngineFailure::Finalize(e))],
            )
        },
{
}

/// A report of progress tells how many bytes have come; neither the size nor pieces are known.
pub proof fn stream_reports_its_bytes(m: StreamModel)
    requires
        m.phase == StreamPhase::Reading,
    ensures
        m.step(StreamEvent::Tick) == (
            m,
            seq![
                StreamAction::EmitProgress(
                    ProgressCounts {
                        bytes_done: m.bytes_done,
                        bytes_total: 0,
                        pieces_done: 0,
                        pieces_total: 0,
                    },
                ),
            ],
        ),
{
}

/// Cancelling an engine that reads or is paused marks the row of its worker as cancelled,
/// removes what was fetched and tells subscribers, in this order.
pub proof fn cancelled_stream_cleans_up(m: StreamModel)
    requires
        m.phase == StreamPhase::Reading || m.phase == StreamPhase::Paused,
    ensures
        ({
            let n = m.workers.len() as int;
            let r = m.step(StreamEvent::Command(FileCommand::Cancel));
            &&& r.0.phase == StreamPhase::Finished
            &&& r.1.len() == n + 2
            &&& forall|i: int|
                0 <= i < n ==> #[trigger] r.1[i] == StreamAction::MarkCancelled(m.workers[i])
            &&& r.1[n] == StreamAction::Abort
            &&& r.1[n + 1] == StreamAction::EmitStatus(FileStatus::Cancelled)
        }),
{
}

/// An event that comes when it has no meaning is passed over.
pub proof fn untimely_stream_events_are_passed_over(m: StreamModel, ev: StreamEvent)
    requires
        ev is SlotsReady ==> m.phase != StreamPhase::Allocating,
        ev is Opened ==> m.phase != StreamPhase::Opening,
        ev is Fault ==> m.phase != StreamPhase::Opening && m.phase != StreamPhase::Reading,
        ev is WaitOver ==> m.phase != StreamPhase::Waiting,
        ev is Restarted ==> m.phase != StreamPhase::Restarting,
        ev is Chunk || ev is Eof || ev is Tick ==> m.phase != StreamPhase::Reading,
        ev is Appended ==> m.phase != StreamPhase::Appending,
        ev is Finalized ==> m.phase != StreamPhase::Finishing,
        ev == StreamEvent::Command(FileCommand::Pause) ==> m.phase != StreamPhase::Reading,
        ev == StreamEvent::Command(FileCommand::Resume) ==> m.phase != StreamPhase::Paused,
        ev == StreamEvent::Command(FileCommand::Cancel) ==> m.phase != StreamPhase::Reading
            && m.phase != StreamPhase::Paused,
    ensures
        m.step(ev) == (m, Seq::<StreamAction>::empty()),
{
}

} // verus!

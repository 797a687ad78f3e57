//! What holds of every run of an engine for a file of unknown size.

use vstd::prelude::*;
use crate::domain::command::FileCommand;
use crate::domain::status::FileStatus;
use crate::error::Error;
use crate::service::retry::RetryPolicy;
use super::drain::joined;
use super::inputs::Outcome;
use super::streaming::{wrapped_sum, StreamAction, StreamEvent, StreamModel, StreamPhase};

verus! {

/// Where a sequence of events takes an engine, and everything it asks for on the way.
pub open spec fn stream_run(m: StreamModel, evs: Seq<StreamEvent>) -> (
    StreamModel,
    Seq<StreamAction>,
)
    decreases evs.len(),
{
    if evs.len() == 0 {
        (m, Seq::empty())
    } else {
        let before = stream_run(m, evs.drop_last());
        let last = before.0.step(evs.last());
        (last.0, before.1 + last.1)
    }
}

/// Whether an action tells subscribers that the download has ended.
pub open spec fn tells_stream_end(a: StreamAction) -> bool {
    match a {
        StreamAction::EmitFailed(_) => true,
        StreamAction::EmitStatus(s) => s.terminal(),
        _ => false,
    }
}

/// Whether subscribers are told of the end exactly once, by the last action, in a finished
/// engine, and not at all before.
pub open spec fn stream_end_told_once(finished: bool, actions: Seq<StreamAction>) -> bool {
    if finished {
        &&& actions.len() > 0
        &&& tells_stream_end(actions.last())
        &&& forall|i: int| 0 <= i < actions.len() - 1 ==> !tells_stream_end(#[trigger] actions[i])
    } else {
        forall|i: int| 0 <= i < actions.len() ==> !tells_stream_end(#[trigger] actions[i])
    }
}

/// Ending an engine tells of it exactly where nothing is left to be done.
proof fn conclusion_tells_end_once(m: StreamModel, outcome: Outcome)
    ensures
        stream_end_told_once(
            m.concluded(outcome).0.phase == StreamPhase::Finished,
            m.concluded(outcome).1,
        ),
{
    let r = m.concluded(outcome);
    let marks = m.marks(outcome);
    assert forall|i: int| 0 <= i < marks.len() implies !tells_stream_end(#[trigger] marks[i]) by {}
    assert forall|i: int| 0 <= i < r.1.len() - 1 implies !tells_stream_end(#[trigger] r.1[i]) by {
        if i < marks.len() {
            assert(r.1[i] == marks[i]);
        }
    }
}

proof fn step_tells_stream_end_once(m: StreamModel, ev: StreamEvent)
    requires
        m.phase != StreamPhase::Finished,
    ensures
        stream_end_told_once(m.step(ev).0.phase == StreamPhase::Finished, m.step(ev).1),
{
    conclusion_tells_end_once(m, Outcome::Completed);
    conclusion_tells_end_once(m, Outcome::Cancelled);
    match ev {
        StreamEvent::Fault { error, decision } => {
            conclusion_tells_end_once(
                m,
                Outcome::Failed(super::inputs::EngineFailure::Fetch(error)),
            );
        },
        StreamEvent::Appended(Err(e)) => {
            conclusion_tells_end_once(m, Outcome::Failed(super::inputs::EngineFailure::Append(e)));
        },
        _ => {},
    }
}

/// A finished engine asks for nothing more and does not change.
pub proof fn finished_stream_is_silent(m: StreamModel, evs: Seq<StreamEvent>)
    requires
        m.phase == StreamPhase::Finished,
    ensures
        stream_run(m, evs) == (m, Seq::<StreamAction>::empty()),
    decreases evs.len(),
{
    if evs.len() > 0 {
        finished_stream_is_silent(m, evs.drop_last());
        assert(stream_run(m, evs).1 =~= Seq::<StreamAction>::empty());
    }
}

/// Whatever happens, subscribers are told of the end of a download at most once, and nothing
/// is asked for after it.
pub proof fn stream_end_is_told_once(m: StreamModel, evs: Seq<StreamEvent>)
    requires
        m.phase != StreamPhase::Finished,
    ensures
        stream_end_told_once(
            stream_run(m, evs).0.phase == StreamPhase::Finished,
            stream_run(m, evs).1,
        ),
    decreases evs.len(),
{
    if evs.len() > 0 {
        let before = stream_run(m, evs.drop_last());
        stream_end_is_told_once(m, evs.drop_last());
        let all = stream_run(m, evs).1;
        if before.0.phase == StreamPhase::Finished {
            assert(all =~= before.1);
        } else {
            step_tells_stream_end_once(before.0, evs.last());
            let last = before.0.step(evs.last()).1;
            assert forall|i: int| 0 <= i < all.len() implies all[i] == (if i < before.1.len() {
                before.1[i]
            } else {
                last[i - before.1.len()]
            }) by {}
            if stream_run(m, evs).0.phase == StreamPhase::Finished {
                assert(all.last() == last.last());
                assert forall|i: int| 0 <= i < all.len() - 1 implies !tells_stream_end(
                    #[trigger] all[i],
                ) by {}
            } else {
                assert forall|i: int| 0 <= i < all.len() implies !tells_stream_end(
                    #[trigger] all[i],
                ) by {}
            }
        }
    }
}

/// Progress is reported when it is time for it, and once more when the file has been finished;
/// the size is never claimed to be known.
pub proof fn stream_progress_follows_the_clock(m: StreamModel, ev: StreamEvent, i: int)
    requires
        0 <= i < m.step(ev).1.len(),
        m.step(ev).1[i] is EmitProgress,
    ensures
        ({
            ||| ev is Tick && m.phase == StreamPhase::Reading && m.step(ev).1.len() == 1
            ||| ev is Finalized && m.phase == StreamPhase::Finishing && i == 0
        }),
        m.step(ev).1[i] matches StreamAction::EmitProgress(p) && p.bytes_total == 0
            && p.bytes_done == m.bytes_done,
{
    let r = m.step(ev);
    if r.0.outcome is Some {
        let marks = m.marks(r.0.outcome->0);
        if i < marks.len() {
            assert(marks[i] !is EmitProgress);
        }
    }
}

/// Cancelling an engine that reads or is paused ends it at once: what was fetched is removed
/// and subscribers hear that it was cancelled, last.
pub proof fn stream_cancel_is_final(m: StreamModel)
    requires
        m.phase == StreamPhase::Reading || m.phase == StreamPhase::Paused,
    ensures
        ({
            let r = m.step(StreamEvent::Command(FileCommand::Cancel));
            &&& r.0.phase == StreamPhase::Finished
            &&& r.0.outcome == Some(Outcome::Cancelled)
            &&& r.1.len() >= 2
            &&& r.1.last() == StreamAction::EmitStatus(FileStatus::Cancelled)
            &&& r.1[r.1.len() - 2] == StreamAction::Abort
        }),
{
}

/// The events of a response that comes in `chunks` without trouble.
pub open spec fn clean_body(chunks: Seq<Vec<u8>>) -> Seq<StreamEvent>
    decreases chunks.len(),
{
    if chunks.len() == 0 {
        seq![StreamEvent::Opened]
    } else {
        clean_body(chunks.drop_last()).push(StreamEvent::Chunk(chunks.last())).push(
            StreamEvent::Appended(Ok::<(), Error>(())),
        )
    }
}

/// The bytes that the actions append, one after the other.
pub open spec fn appended(actions: Seq<StreamAction>) -> Seq<u8>
    decreases actions.len(),
{
    if actions.len() == 0 {
        Seq::empty()
    } else {
        match actions.last() {
            StreamAction::Append(bytes) => appended(actions.drop_last()) + bytes@,
            _ => appended(actions.drop_last()),
        }
    }
}

/// While a response comes in without trouble, exactly its bytes are appended, in order, and
/// counted.
pub proof fn body_is_appended_as_it_comes(m: StreamModel, chunks: Seq<Vec<u8>>)
    requires
        m.phase == StreamPhase::Opening,
        m.appending == 0,
    ensures
        ({
            let r = stream_run(m, clean_body(chunks));
            &&& r.0 == StreamModel {
                phase: StreamPhase::Reading,
                bytes_done: wrapped_sum(m.bytes_done as int, joined(chunks).len() as int),
                ..m
            }
            &&& appended(r.1) == joined(chunks)
        }),
    decreases chunks.len(),
{
    if chunks.len() == 0 {
        let evs = clean_body(chunks);
        assert(evs.drop_last() =~= Seq::<StreamEvent>::empty());
        assert(stream_run(m, evs.drop_last()) == (m, Seq::<StreamAction>::empty()));
        assert(stream_run(m, evs).1 =~= Seq::<StreamAction>::empty());
        sum_wraps_stepwise(m.bytes_done, 0, 0);
    } else {
        let rest = chunks.drop_last();
        body_is_appended_as_it_comes(m, rest);
        let c = chunks.last();
        let head = clean_body(rest);
        let taken = head.push(StreamEvent::Chunk(c));
        let all = clean_body(chunks);
        assert(all.drop_last() =~= taken);
        assert(taken.drop_last() =~= head);
        chunk_is_appended(stream_run(m, head).0, c);
        let a0 = stream_run(m, head).1;
        let a1 = stream_run(m, taken).1;
        assert(a1 =~= a0.push(StreamAction::Append(c)));
        assert(a1.drop_last() =~= a0);
        assert(stream_run(m, all).1 =~= a1);
        sum_wraps_stepwise(m.bytes_done, joined(rest).len() as int, c@.len() as int);
    }
}

/// A chunk is appended and counted.
proof fn chunk_is_appended(m: StreamModel, c: Vec<u8>)
    requires
        m.phase == StreamPhase::Reading,
        m.appending == 0,
    ensures
        ({
            let taken = m.step(StreamEvent::Chunk(c));
            let done = taken.0.step(StreamEvent::Appended(Ok::<(), Error>(())));
            &&& taken.1 == seq![StreamAction::Append(c)]
            &&& done.1 == Seq::<StreamAction>::empty()
            &&& done.0 == StreamModel {
                bytes_done: wrapped_sum(m.bytes_done as int, c@.len() as int),
                ..m
            }
        }),
{
    assert(c.len() == c@.len());
}

/// Adding in two steps wraps to the same as adding at once.
proof fn sum_wraps_stepwise(start: u64, n: int, k: int)
    requires
        0 <= n,
        0 <= k,
    ensures
        wrapped_sum(wrapped_sum(start as int, n) as int, k) == wrapped_sum(start as int, n + k),
        wrapped_sum(start as int, 0) == start,
{
    vstd::arithmetic::div_mod::lemma_small_mod(start as nat, 0x1_0000_0000_0000_0000);
    vstd::arithmetic::div_mod::lemma_add_mod_noop_right(k, start + n, 0x1_0000_0000_0000_0000);
}

/// A response that comes in without trouble and ends is what the file was given, and the
/// engine goes on to finish the file.
pub proof fn clean_download_is_complete(m: StreamModel, chunks: Seq<Vec<u8>>)
    requires
        m.phase == StreamPhase::Opening,
        m.appending == 0,
    ensures
        ({
            let r = stream_run(m, clean_body(chunks).push(StreamEvent::Eof));
            &&& r.0.phase == StreamPhase::Finishing
            &&& r.1.last() == StreamAction::Finalize
            &&& appended(r.1) == joined(chunks)
        }),
{
    body_is_appended_as_it_comes(m, chunks);
    let head = clean_body(chunks);
    let all = head.push(StreamEvent::Eof);
    assert(all.drop_last() =~= head);
    let before = stream_run(m, head);
    let last = before.0.step(StreamEvent::Eof).1;
    let marks = before.0.marks(Outcome::Completed);
    nothing_appended(before.1, marks);
    assert(stream_run(m, all).1 =~= (before.1 + marks).push(StreamAction::Finalize));
    assert((before.1 + marks).push(StreamAction::Finalize).drop_last() =~= before.1 + marks);
}

/// Actions that append nothing leave what was appended.
proof fn nothing_appended(actions: Seq<StreamAction>, more: Seq<StreamAction>)
    requires
        forall|i: int| 0 <= i < more.len() ==> (#[trigger] more[i]) !is Append,
    ensures
        appended(actions + more) == appended(actions),
    decreases more.len(),
{
    if more.len() == 0 {
        assert(actions + more =~= actions);
    } else {
        nothing_appended(actions, more.drop_last());
        assert((actions + more).drop_last() =~= actions + more.drop_last());
        assert(more[more.len() - 1] !is Append);
    }
}

/// What the file holds after the actions: the bytes that were appended since it was last
/// emptied.
pub open spec fn stored(actions: Seq<StreamAction>) -> Seq<u8>
    decreases actions.len(),
{
    if actions.len() == 0 {
        Seq::empty()
    } else {
        match actions.last() {
            StreamAction::Restart => Seq::empty(),
            StreamAction::Append(bytes) => stored(actions.drop_last()) + bytes@,
            _ => stored(actions.drop_last()),
        }
    }
}

/// The bytes of the last response, as far as the engine has taken them in.
pub open spec fn last_response(m: StreamModel, evs: Seq<StreamEvent>) -> Seq<u8>
    decreases evs.len(),
{
    if evs.len() == 0 {
        Seq::empty()
    } else {
        let before = last_response(m, evs.drop_last());
        match (stream_run(m, evs.drop_last()).0.phase, evs.last()) {
            (StreamPhase::Opening, StreamEvent::Opened) => Seq::empty(),
            (StreamPhase::Reading, StreamEvent::Chunk(bytes)) => before + bytes@,
            _ => before,
        }
    }
}

/// Actions that neither append nor empty leave what the file holds.
proof fn nothing_stored(actions: Seq<StreamAction>, more: Seq<StreamAction>)
    requires
        forall|i: int|
            0 <= i < more.len() ==> (#[trigger] more[i]) !is Append && more[i] !is Restart,
    ensures
        stored(actions + more) == stored(actions),
    decreases more.len(),
{
    if more.len() == 0 {
        assert(actions + more =~= actions);
    } else {
        nothing_stored(actions, more.drop_last());
        assert((actions + more).drop_last() =~= actions + more.drop_last());
        assert(more[more.len() - 1] !is Append && more[more.len() - 1] !is Restart);
    }
}

/// What one step does to what the file holds.
proof fn step_stores(m: StreamModel, ev: StreamEvent, before: Seq<StreamAction>)
    ensures
        stored(before + m.step(ev).1) == match (m.phase, ev) {
            (StreamPhase::Reading, StreamEvent::Chunk(bytes)) => stored(before) + bytes@,
            (StreamPhase::Waiting, StreamEvent::WaitOver) => Seq::<u8>::empty(),
            (StreamPhase::Paused, StreamEvent::Command(FileCommand::Resume)) => Seq::<
                u8,
            >::empty(),
            _ => stored(before),
        },
{
    let last = m.step(ev).1;
    match (m.phase, ev) {
        (StreamPhase::Reading, StreamEvent::Chunk(bytes)) => {
            assert((before + last).drop_last() =~= before);
        },
        (StreamPhase::Waiting, StreamEvent::WaitOver) => {
            assert((before + last).last() == StreamAction::Restart);
        },
        (StreamPhase::Paused, StreamEvent::Command(FileCommand::Resume)) => {
            assert((before + last).last() == StreamAction::Restart);
        },
        _ => {
            assert forall|i: int| 0 <= i < last.len() implies (#[trigger] last[i]) !is Append
                && last[i] !is Restart by {
                if m.step(ev).0.outcome is Some {
                    let marks = m.marks(m.step(ev).0.outcome->0);
                    if i < marks.len() {
                        assert(marks[i] !is Append && marks[i] !is Restart);
                    }
                }
            }
            nothing_stored(before, last);
        },
    }
}

/// The engine asks for the file to be finished exactly where a response that it takes in has
/// ended.
pub proof fn file_is_finished_when_the_response_has_ended(m: StreamModel, ev: StreamEvent)
    ensures
        m.step(ev).1.contains(StreamAction::Finalize) <==> m.phase == StreamPhase::Reading && ev
            is Eof,
        m.step(ev).1.contains(StreamAction::Finalize) ==> m.step(ev).0.phase
            == StreamPhase::Finishing,
{
    let r = m.step(ev);
    if r.1.contains(StreamAction::Finalize) {
        let i = choose|i: int| 0 <= i < r.1.len() && r.1[i] == StreamAction::Finalize;
        if r.0.outcome is Some {
            let marks = m.marks(r.0.outcome->0);
            if i < marks.len() {
                assert(marks[i] !is Finalize);
            }
        }
    }
    if m.phase == StreamPhase::Reading && ev is Eof {
        assert(r.1.last() == StreamAction::Finalize);
    }
}

/// A file is finished as what the server sent last: whenever it has been asked for that the
/// file be finished, the file holds the bytes of the last response and nothing else, whatever
/// pauses and faults there were before, and as many are counted.
pub proof fn finished_file_is_the_last_response(m: StreamModel, evs: Seq<StreamEvent>)
    requires
        m.phase == StreamPhase::Allocating,
        m.bytes_done == 0,
        m.appending == 0,
        stream_run(m, evs).1.contains(StreamAction::Finalize),
    ensures
        stored(stream_run(m, evs).1) == last_response(m, evs),
        stream_run(m, evs).0.bytes_done == wrapped_sum(0, last_response(m, evs).len() as int),
{
    file_follows_the_response(m, evs);
}

/// While a response comes in, the file holds exactly what has come of it.
proof fn file_follows_the_response(m: StreamModel, evs: Seq<StreamEvent>)
    requires
        m.phase == StreamPhase::Allocating,
        m.bytes_done == 0,
        m.appending == 0,
    ensures
        ({
            let r = stream_run(m, evs);
            let body = last_response(m, evs);
            &&& r.0.phase == StreamPhase::Allocating || r.0.phase == StreamPhase::Opening
                || r.0.phase == StreamPhase::Restarting ==> stored(r.1).len() == 0
                && r.0.bytes_done == 0
            &&& r.0.phase == StreamPhase::Reading || r.0.phase == StreamPhase::Finishing ==> {
                &&& stored(r.1) == body
                &&& r.0.bytes_done == wrapped_sum(0, body.len() as int)
            }
            &&& r.0.phase == StreamPhase::Appending ==> {
                &&& stored(r.1) == body
                &&& wrapped_sum(r.0.bytes_done as int, r.0.appending as int) == wrapped_sum(
                    0,
                    body.len() as int,
                )
            }
            &&& r.1.contains(StreamAction::Finalize) ==> {
                &&& r.0.phase == StreamPhase::Finishing || r.0.phase == StreamPhase::Finished
                &&& stored(r.1) == body
                &&& r.0.bytes_done == wrapped_sum(0, body.len() as int)
            }
        }),
    decreases evs.len(),
{
    if evs.len() == 0 {
        assert(!stream_run(m, evs).1.contains(StreamAction::Finalize));
    } else {
        file_follows_the_response(m, evs.drop_last());
        let before = stream_run(m, evs.drop_last());
        let ev = evs.last();
        let last = before.0.step(ev);
        step_stores(before.0, ev, before.1);
        file_is_finished_when_the_response_has_ended(before.0, ev);
        if (before.1 + last.1).contains(StreamAction::Finalize) {
            let i = choose|i: int|
                0 <= i < (before.1 + last.1).len() && (before.1 + last.1)[i]
                    == StreamAction::Finalize;
            if i < before.1.len() {
                assert(before.1[i] == StreamAction::Finalize);
            } else {
                assert(last.1[i - before.1.len()] == StreamAction::Finalize);
            }
        }
        let body = last_response(m, evs.drop_last());
        if let (StreamPhase::Reading, StreamEvent::Chunk(bytes)) = (before.0.phase, ev) {
            assert(bytes.len() == bytes@.len());
            sum_wraps_stepwise(0, body.len() as int, bytes@.len() as int);
        }
        if let (StreamPhase::Opening, StreamEvent::Opened) = (before.0.phase, ev) {
            assert(stored(stream_run(m, evs).1) =~= last_response(m, evs));
        }
    }
}

/// The engine makes a request only at the start, when the file is empty, and after the file has
/// been emptied.
pub proof fn request_is_made_on_an_empty_file(m: StreamModel, ev: StreamEvent, i: int)
    requires
        0 <= i < m.step(ev).1.len(),
        m.step(ev).1[i] is Open,
    ensures
        ({
            ||| m.phase == StreamPhase::Allocating && ev is SlotsReady
            ||| m.phase == StreamPhase::Restarting && ev matches StreamEvent::Restarted(Ok(_))
        }),
{
    let r = m.step(ev);
    if r.0.outcome is Some {
        let marks = m.marks(r.0.outcome->0);
        if i < marks.len() {
            assert(marks[i] !is Open);
        }
    }
}

/// The engine starts over exactly after a wait and when it is resumed: it then asks for the
/// file to be emptied and counts from zero.
pub proof fn engine_starts_over(m: StreamModel, ev: StreamEvent)
    ensures
        m.step(ev).0.phase == StreamPhase::Restarting && m.phase != StreamPhase::Restarting <==> {
            ||| m.phase == StreamPhase::Waiting && ev is WaitOver
            ||| m.phase == StreamPhase::Paused && ev == StreamEvent::Command(FileCommand::Resume)
        },
        m.step(ev).0.phase == StreamPhase::Restarting && m.phase != StreamPhase::Restarting
            ==> m.step(ev).1.last() == StreamAction::Restart && m.step(ev).0.bytes_done == 0,
{
}

/// How many requests the actions make.
pub open spec fn requests(actions: Seq<StreamAction>) -> nat
    decreases actions.len(),
{
    if actions.len() == 0 {
        0
    } else {
        requests(actions.drop_last()) + if actions.last() is Open {
            1nat
        } else {
            0nat
        }
    }
}

/// How often an engine is resumed.
pub open spec fn resumes(evs: Seq<StreamEvent>) -> nat
    decreases evs.len(),
{
    if evs.len() == 0 {
        0
    } else {
        resumes(evs.drop_last()) + if evs.last() == StreamEvent::Command(FileCommand::Resume) {
            1nat
        } else {
            0nat
        }
    }
}

/// Whether every fault is met with a decision that the policy allows.
pub open spec fn follows_policy(
    m: StreamModel,
    evs: Seq<StreamEvent>,
    policy: RetryPolicy,
) -> bool
    decreases evs.len(),
{
    evs.len() > 0 ==> {
        &&& follows_policy(m, evs.drop_last(), policy)
        &&& evs.last() matches StreamEvent::Fault { error, decision } ==> policy.allows(
            stream_run(m, evs.drop_last()).0.attempt,
            error.transient(),
            decision,
        )
    }
}

proof fn requests_add_up(a: Seq<StreamAction>, b: Seq<StreamAction>)
    ensures
        requests(a + b) == requests(a) + requests(b),
    decreases b.len(),
{
    if b.len() == 0 {
        assert(a + b =~= a);
    } else {
        requests_add_up(a, b.drop_last());
        assert((a + b).drop_last() =~= a + b.drop_last());
    }
}

proof fn no_requests(actions: Seq<StreamAction>)
    requires
        forall|i: int| 0 <= i < actions.len() ==> (#[trigger] actions[i]) !is Open,
    ensures
        requests(actions) == 0,
    decreases actions.len(),
{
    if actions.len() > 0 {
        no_requests(actions.drop_last());
        assert(actions[actions.len() - 1] !is Open);
    }
}

/// What one step requests.
proof fn step_requests(m: StreamModel, ev: StreamEvent)
    ensures
        requests(m.step(ev).1) == (if m.phase == StreamPhase::Allocating && (
        ev matches StreamEvent::SlotsReady(Ok(_))) || m.phase == StreamPhase::Restarting && (
        ev matches StreamEvent::Restarted(Ok(_))) {
            1nat
        } else {
            0nat
        }),
{
    reveal_with_fuel(requests, 3);
    let last = m.step(ev).1;
    if m.phase == StreamPhase::Allocating && (ev matches StreamEvent::SlotsReady(Ok(_))) {
        assert(last.last() is Open);
        assert(last.drop_last().last() !is Open);
    } else if m.phase == StreamPhase::Restarting && (ev matches StreamEvent::Restarted(Ok(_))) {
        assert(last.last() is Open);
    } else {
        assert forall|i: int| 0 <= i < last.len() implies (#[trigger] last[i]) !is Open by {
            if last[i] is Open {
                request_is_made_on_an_empty_file(m, ev, i);
            }
        }
        no_requests(last);
    }
}

/// No more requests are made than the policy allows attempts, apart from one for each time that
/// the user resumes the download: trouble that does not pass comes to an end.
pub proof fn requests_are_limited(m: StreamModel, evs: Seq<StreamEvent>, policy: RetryPolicy)
    requires
        m.phase == StreamPhase::Allocating,
        m.attempt == 0,
        follows_policy(m, evs, policy),
    ensures
        requests(stream_run(m, evs).1) <= resumes(evs) + (if policy.max_attempts > 0 {
            policy.max_attempts as int
        } else {
            1
        }),
{
    requests_follow_attempts(m, evs, policy);
}

proof fn requests_follow_attempts(m: StreamModel, evs: Seq<StreamEvent>, policy: RetryPolicy)
    requires
        m.phase == StreamPhase::Allocating,
        m.attempt == 0,
        follows_policy(m, evs, policy),
    ensures
        ({
            let r = stream_run(m, evs);
            &&& r.0.attempt == 0 || r.0.attempt < policy.max_attempts
            &&& requests(r.1) + (if r.0.phase == StreamPhase::Waiting || r.0.phase
                == StreamPhase::Restarting {
                1int
            } else {
                0
            }) <= 1 + r.0.attempt + resumes(evs)
            &&& r.0.phase == StreamPhase::Allocating ==> requests(r.1) == 0
        }),
    decreases evs.len(),
{
    if evs.len() > 0 {
        requests_follow_attempts(m, evs.drop_last(), policy);
        let before = stream_run(m, evs.drop_last());
        let ev = evs.last();
        requests_add_up(before.1, before.0.step(ev).1);
        step_requests(before.0, ev);
        engine_starts_over(before.0, ev);
    }
}

/// What was fetched is removed exactly where subscribers are told that the download was
/// cancelled, over whole runs.
pub proof fn stream_is_aborted_exactly_on_cancel(m: StreamModel, evs: Seq<StreamEvent>)
    ensures
        stream_run(m, evs).1.contains(StreamAction::Abort) <==> stream_run(m, evs).1.contains(
            StreamAction::EmitStatus(FileStatus::Cancelled),
        ),
    decreases evs.len(),
{
    let abort = StreamAction::Abort;
    let told = StreamAction::EmitStatus(FileStatus::Cancelled);
    if evs.len() > 0 {
        let before = stream_run(m, evs.drop_last());
        let last = before.0.step(evs.last());
        stream_is_aborted_exactly_on_cancel(m, evs.drop_last());
        if last.0.outcome is Some && last.1 == before.0.concluded(last.0.outcome->0).1 {
            let outcome = last.0.outcome->0;
            let marks = before.0.marks(outcome);
            assert forall|i: int| 0 <= i < marks.len() implies (#[trigger] marks[i]) != abort
                && marks[i] != told by {}
            let tail = last.1.skip(marks.len() as int);
            assert(last.1 =~= marks + tail);
            asked_in_either(marks, tail, abort);
            asked_in_either(marks, tail, told);
            if outcome is Cancelled {
                assert(tail[0] == abort);
                assert(tail[1] == told);
            }
        }
        asked_in_either(before.1, last.1, abort);
        asked_in_either(before.1, last.1, told);
    }
}

proof fn asked_in_either(a: Seq<StreamAction>, b: Seq<StreamAction>, x: StreamAction)
    ensures
        (a + b).contains(x) <==> a.contains(x) || b.contains(x),
{
    if a.contains(x) {
        let i = choose|i: int| 0 <= i < a.len() && a[i] == x;
        assert((a + b)[i] == x);
    }
    if b.contains(x) {
        let i = choose|i: int| 0 <= i < b.len() && b[i] == x;
        assert((a + b)[a.len() + i] == x);
    }
    if (a + b).contains(x) {
        let i = choose|i: int| 0 <= i < (a + b).len() && (a + b)[i] == x;
        if i < a.len() {
            assert(a[i] == x);
        } else {
            assert(b[i - a.len()] == x);
        }
    }
}

} // verus!

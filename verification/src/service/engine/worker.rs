//! What a worker does with its pieces: what it reports, when it tries again, when it stops.

use std::collections::VecDeque;
use vstd::prelude::*;
use crate::domain::id::WorkerId;
use crate::ports::http::RangeError;
use crate::service::retry::{RetryDecision, RetryPolicy};
use super::geometry::{bytes_in, bytes_of, piece_len, piece_offset, piece_size_at, piece_start};
use super::piece::{range_err_to_piece, PieceError};

verus! {

/// How the workers of an engine are to behave.
#[derive(Debug, Clone, Copy, PartialEq, Eq, Structural)]
pub enum RunState {
    Running,
    Paused,
    Stopping,
}

/// What a worker reports to its engine.
#[derive(Debug, PartialEq, Eq)]
pub enum WorkerMsg {
    /// The piece is written and can be committed.
    PieceDone { piece: u32 },
    /// The download cannot succeed.
    Failed(String),
    /// The server sends the whole body where a range was asked for.
    RangesRefused,
    /// An attempt to fetch a piece has begun.
    AttemptStarted { worker_id: WorkerId, piece: u32 },
    /// An attempt has succeeded.
    AttemptFinished { worker_id: WorkerId, piece: u32, bytes: u64 },
    /// An attempt has failed.
    AttemptFailed { worker_id: WorkerId, piece: u32, error: String },
}

/// What a worker that is free does next.
#[derive(Debug, Clone, Copy, PartialEq, Eq, Structural)]
pub enum NextPiece {
    /// Fetch this piece.
    Take(u32),
    /// Look again once the engine's state has changed.
    Wait,
    /// Nothing is left to do.
    Stop,
}

/// What a worker that is free does next. Only a running engine hands out pieces, from the
/// front of the queue.
pub fn next_piece(state: RunState, pending: &mut VecDeque<u32>) -> (r: NextPiece)
    ensures
        match state {
            RunState::Stopping => r == NextPiece::Stop && final(pending)@ == old(pending)@,
            RunState::Paused => r == NextPiece::Wait && final(pending)@ == old(pending)@,
            RunState::Running => if old(pending)@.len() == 0 {
                r == NextPiece::Stop && final(pending)@ == old(pending)@
            } else {
                r == NextPiece::Take(old(pending)@[0]) && final(pending)@ == old(pending)@.drop_first()
            },
        },
{
    match state {
        RunState::Stopping => NextPiece::Stop,
        RunState::Paused => NextPiece::Wait,
        RunState::Running => match pending.pop_front() {
            Some(idx) => NextPiece::Take(idx),
            None => NextPiece::Stop,
        },
    }
}

/// The report that an attempt has begun; a worker without a row reports no attempts.
pub open spec fn started_msgs(worker: Option<WorkerId>, piece: u32) -> Seq<WorkerMsg> {
    match worker {
        Some(worker_id) => seq![WorkerMsg::AttemptStarted { worker_id, piece }],
        None => Seq::empty(),
    }
}

/// The report that an attempt has succeeded.
pub open spec fn finished_msgs(worker: Option<WorkerId>, piece: u32, bytes: u64) -> Seq<WorkerMsg> {
    match worker {
        Some(worker_id) => seq![WorkerMsg::AttemptFinished { worker_id, piece, bytes }],
        None => Seq::empty(),
    }
}

/// The report that an attempt has failed.
pub open spec fn failed_msgs(worker: Option<WorkerId>, piece: u32, error: String) -> Seq<WorkerMsg> {
    match worker {
        Some(worker_id) => seq![WorkerMsg::AttemptFailed { worker_id, piece, error }],
        None => Seq::empty(),
    }
}

fn started(worker: Option<WorkerId>, piece: u32) -> (v: Vec<WorkerMsg>)
    ensures
        v@ == started_msgs(worker, piece),
{
    let mut v: Vec<WorkerMsg> = Vec::new();
    if let Some(worker_id) = worker {
        v.push(WorkerMsg::AttemptStarted { worker_id, piece });
    }
    v
}

fn finished(worker: Option<WorkerId>, piece: u32, bytes: u64) -> (v: Vec<WorkerMsg>)
    ensures
        v@ == finished_msgs(worker, piece, bytes),
{
    let mut v: Vec<WorkerMsg> = Vec::new();
    if let Some(worker_id) = worker {
        v.push(WorkerMsg::AttemptFinished { worker_id, piece, bytes });
    }
    v
}

fn failed(worker: Option<WorkerId>, piece: u32, error: &String) -> (v: Vec<WorkerMsg>)
    ensures
        v@ == failed_msgs(worker, piece, *error),
{
    let mut v: Vec<WorkerMsg> = Vec::new();
    if let Some(worker_id) = worker {
        v.push(WorkerMsg::AttemptFailed { worker_id, piece, error: error.clone() });
    }
    v
}

/// A piece that a worker is to fetch.
pub struct PieceJob {
    /// Where the piece starts in the file.
    pub offset: u64,
    /// How long it is.
    pub size: u64,
    /// What to report before the request is made.
    pub messages: Vec<WorkerMsg>,
}

/// What a worker does after a failed attempt.
pub enum AfterFailure {
    /// Report `before`, wait, report `after` and try again.
    Again { before: Vec<WorkerMsg>, wait_nanos: u128, after: Vec<WorkerMsg> },
    /// Report this and stop.
    Stop { messages: Vec<WorkerMsg> },
}

/// The piece that a worker is at, and how many attempts at it have failed.
#[derive(Debug, Clone, Copy, PartialEq, Eq, Structural)]
pub struct PieceAttempt {
    pub piece: u32,
    pub attempt: u32,
}

/// A worker that fetches pieces by ranges, one at a time.
pub struct RangeWorker {
    /// The worker's row, where a repository keeps one.
    pub worker_id: Option<WorkerId>,
    pub piece_size: u64,
    pub total_size: u64,
    /// What it is at.
    pub current: Option<PieceAttempt>,
}

impl RangeWorker {
    /// A worker that is free.
    pub fn new(worker_id: Option<WorkerId>, piece_size: u64, total_size: u64) -> (w: RangeWorker)
        ensures
            w == (RangeWorker { worker_id, piece_size, total_size, current: None }),
    {
        RangeWorker { worker_id, piece_size, total_size, current: None }
    }

    /// Starts with a piece.
    pub fn begin(&mut self, piece: u32) -> (job: PieceJob)
        requires
            piece * old(self).piece_size <= u64::MAX,
        ensures
            job.offset == piece_start(piece as int, old(self).piece_size as int),
            job.size == piece_len(
                piece as int,
                old(self).piece_size as int,
                old(self).total_size as int,
            ),
            job.messages@ == started_msgs(old(self).worker_id, piece),
            *final(self) == (RangeWorker {
                current: Some(PieceAttempt { piece, attempt: 0 }),
                ..*old(self)
            }),
    {
        self.current = Some(PieceAttempt { piece, attempt: 0 });
        PieceJob {
            offset: piece_offset(piece, self.piece_size),
            size: piece_size_at(piece, self.piece_size, self.total_size),
            messages: started(self.worker_id, piece),
        }
    }

    /// Takes note that the piece has been fetched and written whole.
    pub fn succeeded(&mut self) -> (messages: Vec<WorkerMsg>)
        requires
            old(self).current matches Some(c) && c.piece * old(self).piece_size <= u64::MAX,
        ensures
            ({
                let piece = old(self).current->0.piece;
                messages@ == finished_msgs(
                    old(self).worker_id,
                    piece,
                    piece_len(
                        piece as int,
                        old(self).piece_size as int,
                        old(self).total_size as int,
                    ) as u64,
                ).push(WorkerMsg::PieceDone { piece })
            }),
            *final(self) == (RangeWorker { current: None, ..*old(self) }),
    {
        let mut messages: Vec<WorkerMsg> = Vec::new();
        if let Some(c) = self.current {
            let size: u64 = piece_size_at(c.piece, self.piece_size, self.total_size);
            messages = finished(self.worker_id, c.piece, size);
            messages.push(WorkerMsg::PieceDone { piece: c.piece });
        }
        self.current = None;
        messages
    }

    /// Takes note that the attempt has failed, where what is to be done about it has been
    /// decided. The failed attempt is reported; it is followed by a fresh one or by the end
    /// of the worker.
    pub fn after_failure(&mut self, error: PieceError, decision: RetryDecision) -> (r: AfterFailure)
        requires
            old(self).current matches Some(c) && c.attempt < u32::MAX,
        ensures
            old(self).is_after_failure(error, decision, r, *final(self)),
    {
        let text: String = error.into_text();
        let mut result: AfterFailure = AfterFailure::Stop { messages: Vec::new() };
        if let Some(c) = self.current {
            let mut messages: Vec<WorkerMsg> = failed(self.worker_id, c.piece, &text);
            match decision {
                RetryDecision::Retry(wait_nanos) => {
                    self.current = Some(PieceAttempt { piece: c.piece, attempt: c.attempt + 1 });
                    result =
                    AfterFailure::Again {
                        before: messages,
                        wait_nanos,
                        after: started(self.worker_id, c.piece),
                    };
                },
                RetryDecision::GiveUp => {
                    messages.push(WorkerMsg::Failed(text));
                    self.current = None;
                    result = AfterFailure::Stop { messages };
                },
            }
        }
        result
    }

    /// Takes note that the attempt has failed: trouble that may pass is met with another
    /// attempt, as long as the policy allows one more.
    pub fn attempt_failed(&mut self, error: PieceError, policy: &RetryPolicy) -> (r: AfterFailure)
        requires
            old(self).current matches Some(c) && c.attempt < u32::MAX,
            policy.valid(),
        ensures
            exists|decision: RetryDecision|
                policy.allows(old(self).current->0.attempt, error is Transient, decision)
                    && #[trigger] old(self).is_after_failure(error, decision, r, *final(self)),
            r is Again <==> policy.goes_on(old(self).current->0.attempt, error is Transient),
            r is Again ==> final(self).current->0.attempt < policy.max_attempts,
    {
        let attempt: u32 = match self.current {
            Some(c) => c.attempt,
            None => 0,
        };
        let decision: RetryDecision = policy.classify(attempt, error.is_transient());
        self.after_failure(error, decision)
    }

    /// Takes note that the request for the piece, or the body that came, failed. Where the
    /// server takes no ranges, the worker stops and the engine goes on without them; other
    /// trouble is met as `attempt_failed` says.
    pub fn request_failed(&mut self, error: &RangeError, policy: &RetryPolicy) -> (r: AfterFailure)
        requires
            old(self).current matches Some(c) && c.attempt < u32::MAX,
            policy.valid(),
        ensures
            error is RangeNotSupported ==> old(self).is_refused(*error, r, *final(self)),
            !(error is RangeNotSupported) ==> {
                &&& exists|cause: PieceError, decision: RetryDecision|
                    {
                        &&& (cause is Transient <==> error.transient())
                        &&& cause.text() == error.text()
                        &&& policy.allows(
                            old(self).current->0.attempt,
                            error.transient(),
                            decision,
                        )
                        &&& #[trigger] old(self).is_after_failure(cause, decision, r, *final(self))
                    }
                &&& r is Again <==> policy.goes_on(
                    old(self).current->0.attempt,
                    error.transient(),
                )
            },
    {
        match error {
            RangeError::RangeNotSupported => {
                let text: String = error.to_string();
                let mut messages: Vec<WorkerMsg> = Vec::new();
                if let Some(c) = self.current {
                    messages = failed(self.worker_id, c.piece, &text);
                }
                messages.push(WorkerMsg::RangesRefused);
                self.current = None;
                let r = AfterFailure::Stop { messages };
                assert(messages@ == failed_msgs(
                    old(self).worker_id,
                    old(self).current->0.piece,
                    text,
                ).push(WorkerMsg::RangesRefused));
                r
            },
            _ => {
                let cause = range_err_to_piece(error);
                self.attempt_failed(cause, policy)
            },
        }
    }

    /// Whether a worker in state `self` answers a refused range by `r` and is then in the
    /// state `next`: the attempt failed, and the engine hears that ranges are refused.
    pub open spec fn is_refused(self, error: RangeError, r: AfterFailure, next: RangeWorker) -> bool {
        &&& r matches AfterFailure::Stop { messages } && exists|text: String|
            text@ == error.text() && messages@ == (#[trigger] failed_msgs(
                self.worker_id,
                self.current->0.piece,
                text,
            )).push(WorkerMsg::RangesRefused)
        &&& next == RangeWorker { current: None, ..self }
    }

    /// Whether a worker in state `self` answers a failure, met with `decision`, by `r` and
    /// is then in the state `next`.
    pub open spec fn is_after_failure(
        self,
        error: PieceError,
        decision: RetryDecision,
        r: AfterFailure,
        next: RangeWorker,
    ) -> bool {
        let c = self.current->0;
        let text = error.into_text_spec();
        match decision {
            RetryDecision::Retry(nanos) => {
                &&& r matches AfterFailure::Again { before, wait_nanos, after }
                &&& before@ == failed_msgs(self.worker_id, c.piece, text)
                &&& wait_nanos == nanos
                &&& after@ == started_msgs(self.worker_id, c.piece)
                &&& next == RangeWorker {
                    current: Some(
                        PieceAttempt { piece: c.piece, attempt: (c.attempt + 1) as u32 },
                    ),
                    ..self
                }
            },
            RetryDecision::GiveUp => {
                &&& r matches AfterFailure::Stop { messages }
                &&& messages@ == failed_msgs(self.worker_id, c.piece, text).push(
                    WorkerMsg::Failed(text),
                )
                &&& next == RangeWorker { current: None, ..self }
            },
        }
    }
}

/// What a worker that fetches the whole body does before an attempt.
#[derive(Debug, Clone, Copy, PartialEq, Eq, Structural)]
pub enum Gate {
    /// Make the attempt.
    Go,
    /// Look again once the engine's state has changed.
    Wait,
    /// Stop.
    Stop,
}

/// A worker that fetches the whole body by one request. Its attempts are reported under
/// piece zero, with which every body begins.
pub struct FullWorker {
    pub worker_id: Option<WorkerId>,
    pub piece_size: u64,
    pub total_size: u64,
    /// How many attempts have failed.
    pub attempt: u32,
}

impl FullWorker {
    /// A worker before its first attempt.
    pub fn new(worker_id: Option<WorkerId>, piece_size: u64, total_size: u64) -> (w: FullWorker)
        ensures
            w == (FullWorker { worker_id, piece_size, total_size, attempt: 0 }),
    {
        FullWorker { worker_id, piece_size, total_size, attempt: 0 }
    }

    /// Whether an attempt can be made now.
    pub fn gate(&self, state: RunState) -> (g: Gate)
        ensures
            g == match state {
                RunState::Running => Gate::Go,
                RunState::Paused => Gate::Wait,
                RunState::Stopping => Gate::Stop,
            },
    {
        match state {
            RunState::Running => Gate::Go,
            RunState::Paused => Gate::Wait,
            RunState::Stopping => Gate::Stop,
        }
    }

    /// What to report before an attempt.
    pub fn begin(&self) -> (messages: Vec<WorkerMsg>)
        ensures
            messages@ == started_msgs(self.worker_id, 0),
    {
        started(self.worker_id, 0)
    }

    /// What to report when the body has been dealt out to `pieces`.
    pub fn succeeded(&self, pieces: &Vec<u32>) -> (messages: Vec<WorkerMsg>)
        requires
            bytes_of(pieces@, self.piece_size as int, self.total_size as int) <= u64::MAX,
        ensures
            messages@ == finished_msgs(
                self.worker_id,
                0,
                bytes_of(pieces@, self.piece_size as int, self.total_size as int) as u64,
            ) + pieces@.map_values(|piece: u32| WorkerMsg::PieceDone { piece }),
    {
        let bytes: u64 = bytes_in(pieces, self.piece_size, self.total_size);
        let mut messages: Vec<WorkerMsg> = finished(self.worker_id, 0, bytes);
        let ghost head = messages@;
        let mut i: usize = 0;
        while i < pieces.len()
            invariant
                i <= pieces@.len(),
                messages@ == head + pieces@.take(i as int).map_values(
                    |piece: u32| WorkerMsg::PieceDone { piece },
                ),
            decreases pieces@.len() - i,
        {
            messages.push(WorkerMsg::PieceDone { piece: pieces[i] });
            i = i + 1;
            assert(messages@ =~= head + pieces@.take(i as int).map_values(
                |piece: u32| WorkerMsg::PieceDone { piece },
            ));
        }
        assert(pieces@.take(pieces@.len() as int) == pieces@);
        messages
    }

    /// Takes note that the attempt has failed, where what is to be done about it has been
    /// decided.
    pub fn after_failure(&mut self, error: PieceError, decision: RetryDecision) -> (r: AfterFailure)
        requires
            old(self).attempt < u32::MAX,
        ensures
            old(self).is_after_failure(error, decision, r, *final(self)),
    {
        let text: String = error.into_text();
        let mut messages: Vec<WorkerMsg> = failed(self.worker_id, 0, &text);
        match decision {
            RetryDecision::Retry(wait_nanos) => {
                self.attempt = self.attempt + 1;
                AfterFailure::Again { before: messages, wait_nanos, after: Vec::new() }
            },
            RetryDecision::GiveUp => {
                messages.push(WorkerMsg::Failed(text));
                AfterFailure::Stop { messages }
            },
        }
    }

    /// Takes note that the attempt has failed: trouble that may pass is met with another
    /// attempt, as long as the policy allows one more.
    pub fn attempt_failed(&mut self, error: PieceError, policy: &RetryPolicy) -> (r: AfterFailure)
        requires
            old(self).attempt < u32::MAX,
            policy.valid(),
        ensures
            exists|decision: RetryDecision|
                policy.allows(old(self).attempt, error is Transient, decision)
                    && #[trigger] old(self).is_after_failure(error, decision, r, *final(self)),
            r is Again <==> policy.goes_on(old(self).attempt, error is Transient),
            r is Again ==> final(self).attempt < policy.max_attempts,
    {
        let decision: RetryDecision = policy.classify(self.attempt, error.is_transient());
        self.after_failure(error, decision)
    }

    /// Whether a worker in state `self` answers a failure, met with `decision`, by `r` and
    /// is then in the state `next`. The next attempt is reported when it begins.
    pub open spec fn is_after_failure(
        self,
        error: PieceError,
        decision: RetryDecision,
        r: AfterFailure,
        next: FullWorker,
    ) -> bool {
        let text = error.into_text_spec();
        match decision {
            RetryDecision::Retry(nanos) => {
                &&& r matches AfterFailure::Again { before, wait_nanos, after }
                &&& before@ == failed_msgs(self.worker_id, 0, text)
                &&& wait_nanos == nanos
                &&& after@.len() == 0
                &&& next == FullWorker { attempt: (self.attempt + 1) as u32, ..self }
            },
            RetryDecision::GiveUp => {
                &&& r matches AfterFailure::Stop { messages }
                &&& messages@ == failed_msgs(self.worker_id, 0, text).push(WorkerMsg::Failed(text))
                &&& next == self
            },
        }
    }
}

/// Whether an attempt of `worker` at `piece` is open after the reports `log`, if none was
/// open before them; `None` where an attempt began while one was open or ended while none was.
pub open spec fn open_after(log: Seq<WorkerMsg>, worker: WorkerId, piece: u32) -> Option<bool>
    decreases log.len(),
{
    if log.len() == 0 {
        Some(false)
    } else {
        let before = open_after(log.drop_last(), worker, piece);
        match log.last() {
            WorkerMsg::AttemptStarted { worker_id, piece: p } => if worker_id == worker && p
                == piece {
                if before == Some(false) {
                    Some(true)
                } else {
                    None
                }
            } else {
                before
            },
            WorkerMsg::AttemptFinished { worker_id, piece: p, bytes } => if worker_id == worker
                && p == piece {
                if before == Some(true) {
                    Some(false)
                } else {
                    None
                }
            } else {
                before
            },
            WorkerMsg::AttemptFailed { worker_id, piece: p, error } => if worker_id == worker && p
                == piece {
                if before == Some(true) {
                    Some(false)
                } else {
                    None
                }
            } else {
                before
            },
            _ => before,
        }
    }
}

/// The reports of a worker on one piece up to an attempt that is still open: the first
/// attempt began, and after each of `failures` another one did.
pub open spec fn log_of_attempts(
    worker: Option<WorkerId>,
    piece: u32,
    failures: Seq<String>,
) -> Seq<WorkerMsg>
    decreases failures.len(),
{
    if failures.len() == 0 {
        started_msgs(worker, piece)
    } else {
        log_of_attempts(worker, piece, failures.drop_last()) + failed_msgs(
            worker,
            piece,
            failures.last(),
        ) + started_msgs(worker, piece)
    }
}

/// While a worker is at a piece, exactly one of its attempts at it is open.
pub proof fn one_attempt_is_open(worker: WorkerId, piece: u32, failures: Seq<String>)
    ensures
        open_after(log_of_attempts(Some(worker), piece, failures), worker, piece) == Some(true),
    decreases failures.len(),
{
    reveal_with_fuel(open_after, 4);
    if failures.len() == 0 {
        let log = started_msgs(Some(worker), piece);
        assert(log.drop_last() =~= Seq::<WorkerMsg>::empty());
    } else {
        one_attempt_is_open(worker, piece, failures.drop_last());
        let head = log_of_attempts(Some(worker), piece, failures.drop_last());
        let failed = failed_msgs(Some(worker), piece, failures.last());
        let again = started_msgs(Some(worker), piece);
        assert((head + failed + again).drop_last() =~= head + failed);
        assert((head + failed).drop_last() =~= head);
    }
}

/// When a worker is done with a piece, by success, for good or because ranges are refused, none
/// of its attempts at it is open, and every attempt that began was closed exactly once.
pub proof fn no_attempt_is_left_open(
    worker: WorkerId,
    piece: u32,
    failures: Seq<String>,
    bytes: u64,
    error: String,
)
    ensures
        open_after(
            log_of_attempts(Some(worker), piece, failures) + finished_msgs(
                Some(worker),
                piece,
                bytes,
            ).push(WorkerMsg::PieceDone { piece }),
            worker,
            piece,
        ) == Some(false),
        open_after(
            log_of_attempts(Some(worker), piece, failures) + failed_msgs(
                Some(worker),
                piece,
                error,
            ).push(WorkerMsg::Failed(error)),
            worker,
            piece,
        ) == Some(false),
        open_after(
            log_of_attempts(Some(worker), piece, failures) + failed_msgs(
                Some(worker),
                piece,
                error,
            ).push(WorkerMsg::RangesRefused),
            worker,
            piece,
        ) == Some(false),
{
    reveal_with_fuel(open_after, 4);
    one_attempt_is_open(worker, piece, failures);
    let head = log_of_attempts(Some(worker), piece, failures);
    let done = finished_msgs(Some(worker), piece, bytes);
    let fail = failed_msgs(Some(worker), piece, error);
    let all_done = head + done.push(WorkerMsg::PieceDone { piece });
    let all_fail = head + fail.push(WorkerMsg::Failed(error));
    assert(all_done.drop_last() =~= head + done);
    assert((head + done).drop_last() =~= head);
    assert(all_fail.drop_last() =~= head + fail);
    let all_refused = head + fail.push(WorkerMsg::RangesRefused);
    assert(all_refused.drop_last() =~= head + fail);
    assert((head + fail).drop_last() =~= head);
}

/// A worker with a row reports its attempts under it, each with its piece; a worker without a
/// row reports none.
pub proof fn attempts_are_reported_under_the_row(
    worker: WorkerId,
    piece: u32,
    bytes: u64,
    error: String,
)
    ensures
        started_msgs(Some(worker), piece) == seq![
            WorkerMsg::AttemptStarted { worker_id: worker, piece },
        ],
        finished_msgs(Some(worker), piece, bytes) == seq![
            WorkerMsg::AttemptFinished { worker_id: worker, piece, bytes },
        ],
        failed_msgs(Some(worker), piece, error) == seq![
            WorkerMsg::AttemptFailed { worker_id: worker, piece, error },
        ],
        started_msgs(None, piece).len() == 0,
        finished_msgs(None, piece, bytes).len() == 0,
        failed_msgs(None, piece, error).len() == 0,
{
}

/// A worker whose attempt at a piece failed and is to be repeated reports the failure, waits as
/// long as was decided, reports a new attempt and stays with the piece. One that gives up reports
/// the failure, tells the engine that the download cannot succeed, and is free.
pub proof fn failed_range_is_repeated_or_reported(
    w: RangeWorker,
    c: PieceAttempt,
    error: PieceError,
    text: String,
    nanos: u128,
    again: (AfterFailure, RangeWorker),
    given_up: (AfterFailure, RangeWorker),
)
    requires
        w.current == Some(c),
        c.attempt < u32::MAX,
        error == PieceError::Transient(text) || error == PieceError::Permanent(text),
        w.is_after_failure(error, RetryDecision::Retry(nanos), again.0, again.1),
        w.is_after_failure(error, RetryDecision::GiveUp, given_up.0, given_up.1),
    ensures
        again.0 matches AfterFailure::Again { before, wait_nanos, after } && {
            &&& wait_nanos == nanos
            &&& w.worker_id matches Some(worker_id) ==> {
                &&& before@ == seq![
                    WorkerMsg::AttemptFailed { worker_id, piece: c.piece, error: text },
                ]
                &&& after@ == seq![WorkerMsg::AttemptStarted { worker_id, piece: c.piece }]
            }
            &&& w.worker_id is None ==> before@.len() == 0 && after@.len() == 0
        },
        again.1.current == Some(
            PieceAttempt { piece: c.piece, attempt: (c.attempt + 1) as u32 },
        ),
        again.1.worker_id == w.worker_id,
        given_up.0 matches AfterFailure::Stop { messages } && {
            &&& messages@.len() > 0
            &&& messages@.last() == WorkerMsg::Failed(text)
            &&& w.worker_id matches Some(worker_id) ==> messages@ == seq![
                WorkerMsg::AttemptFailed { worker_id, piece: c.piece, error: text },
                WorkerMsg::Failed(text),
            ]
            &&& w.worker_id is None ==> messages@.len() == 1
        },
        given_up.1.current is None,
        given_up.1.worker_id == w.worker_id,
        again.1.piece_size == w.piece_size && again.1.total_size == w.total_size,
        given_up.1.piece_size == w.piece_size && given_up.1.total_size == w.total_size,
{
}

/// A worker that is refused a range reports that its attempt failed and tells the engine that
/// ranges are refused, and is free; it does not call the download off.
pub proof fn refused_range_is_reported(
    w: RangeWorker,
    c: PieceAttempt,
    error: RangeError,
    r: AfterFailure,
    next: RangeWorker,
)
    requires
        w.current == Some(c),
        w.is_refused(error, r, next),
    ensures
        r matches AfterFailure::Stop { messages } && {
            &&& messages@.len() > 0
            &&& messages@.last() == WorkerMsg::RangesRefused
            &&& w.worker_id is None ==> messages@.len() == 1
            &&& w.worker_id matches Some(worker) ==> {
                &&& messages@.len() == 2
                &&& messages@[0] matches WorkerMsg::AttemptFailed { worker_id, piece, error: told }
                    && worker_id == worker && piece == c.piece && told@ == error.text()
            }
        },
        next.current is None,
        next.worker_id == w.worker_id,
        next.piece_size == w.piece_size,
        next.total_size == w.total_size,
{
}

/// A worker whose attempt at the whole body failed and is to be repeated reports the failure
/// under piece zero and waits as long as was decided. One that gives up also tells the engine
/// that the download cannot succeed.
pub proof fn failed_body_is_repeated_or_reported(
    w: FullWorker,
    error: PieceError,
    text: String,
    nanos: u128,
    again: (AfterFailure, FullWorker),
    given_up: (AfterFailure, FullWorker),
)
    requires
        w.attempt < u32::MAX,
        error == PieceError::Transient(text) || error == PieceError::Permanent(text),
        w.is_after_failure(error, RetryDecision::Retry(nanos), again.0, again.1),
        w.is_after_failure(error, RetryDecision::GiveUp, given_up.0, given_up.1),
    ensures
        again.0 matches AfterFailure::Again { before, wait_nanos, after } && {
            &&& wait_nanos == nanos
            &&& after@.len() == 0
            &&& w.worker_id matches Some(worker_id) ==> before@ == seq![
                WorkerMsg::AttemptFailed { worker_id, piece: 0, error: text },
            ]
            &&& w.worker_id is None ==> before@.len() == 0
        },
        again.1.attempt == w.attempt + 1,
        given_up.0 matches AfterFailure::Stop { messages } && {
            &&& messages@.len() > 0
            &&& messages@.last() == WorkerMsg::Failed(text)
            &&& w.worker_id matches Some(worker_id) ==> messages@ == seq![
                WorkerMsg::AttemptFailed { worker_id, piece: 0, error: text },
                WorkerMsg::Failed(text),
            ]
            &&& w.worker_id is None ==> messages@.len() == 1
        },
        given_up.1.attempt == w.attempt,
        again.1.worker_id == w.worker_id && again.1.piece_size == w.piece_size
            && again.1.total_size == w.total_size,
        given_up.1.worker_id == w.worker_id && given_up.1.piece_size == w.piece_size
            && given_up.1.total_size == w.total_size,
{
}

} // verus!

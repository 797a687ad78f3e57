//! The engine for a file of unknown size: one response is appended as it comes.
//!
//! Commands are taken in while the engine reads or is paused; whoever runs it holds them
//! back while a request is being opened, a wait lasts, the file is being emptied or bytes are
//! being appended. A pause drops the connection. The server sends a body only from its first
//! byte on, so whenever the request is made anew, the file is emptied first and the download
//! starts over.

use vstd::prelude::*;
use crate::domain::command::FileCommand;
use crate::domain::id::{FileId, WorkerId};
use crate::domain::progress::ProgressCounts;
use crate::domain::status::FileStatus;
use crate::error::Error;
use crate::ports::http::RangeError;
use crate::ports::records::WorkerRecord;
use crate::service::retry::{RetryDecision, RetryPolicy};
use super::inputs::{request_url, request_url_of, EngineFailure, Outcome, StreamingEngineInputs};
use super::supervisor::{ids_of, DownloadEngine};

verus! {

/// How far the engine has come.
#[derive(Debug, Clone, Copy, PartialEq, Eq, Structural)]
pub enum StreamPhase {
    /// Waits for the row of its worker.
    Allocating,
    /// Waits for the response to begin.
    Opening,
    /// Waits before it asks again.
    Waiting,
    /// The file is being emptied before the request is made anew.
    Restarting,
    /// Takes in the body.
    Reading,
    /// Bytes are being appended.
    Appending,
    /// Paused by the user.
    Paused,
    /// The body is complete; the file is being finished.
    Finishing,
    /// Nothing is left to do.
    Finished,
}

/// What the engine hears.
pub enum StreamEvent {
    /// The row of the worker.
    SlotsReady(Result<Vec<WorkerRecord>, Error>),
    /// A command of the manager.
    Command(FileCommand),
    /// The response has begun.
    Opened,
    /// The request or the body failed, and this is what the policy says to it.
    Fault { error: RangeError, decision: RetryDecision },
    /// The wait is over.
    WaitOver,
    /// Whether the file could be emptied.
    Restarted(Result<(), Error>),
    /// Bytes of the body.
    Chunk(Vec<u8>),
    /// Whether bytes could be appended.
    Appended(Result<(), Error>),
    /// The body has ended.
    Eof,
    /// It is time to report progress.
    Tick,
    /// Whether the file could be finished.
    Finalized(Result<(), Error>),
}

/// What the engine asks for.
pub enum StreamAction {
    /// Make a row for the worker.
    EnsureSlots { count: usize },
    /// Ask for the whole body.
    Open { url: String },
    /// Drop the connection.
    Close,
    /// Wait for this many nanoseconds.
    Wait { nanos: u128 },
    /// Drop everything that was appended to the file.
    Restart,
    /// Append bytes to the file.
    Append(Vec<u8>),
    /// Tell subscribers about a change of status.
    EmitStatus(FileStatus),
    /// Tell subscribers that the download has failed.
    EmitFailed(EngineFailure),
    /// Tell subscribers about progress.
    EmitProgress(ProgressCounts),
    /// Forget the speed that was measured so far.
    ResetSpeed,
    /// Store how the worker ended.
    MarkDone(WorkerId),
    MarkFailed(WorkerId, EngineFailure),
    MarkCancelled(WorkerId),
    /// Finish the file.
    Finalize,
    /// Remove what has been fetched.
    Abort,
}

/// The engine of a download of unknown size.
pub struct StreamingEngine {
    id: FileId,
    inputs: StreamingEngineInputs,
    phase: StreamPhase,
    outcome: Option<Outcome>,
    workers: Vec<WorkerId>,
    attempt: u32,
    bytes_done: u64,
    appending: u64,
}

/// The engine as seen from outside.
#[verifier::ext_equal]
pub struct StreamModel {
    pub id: FileId,
    pub inputs: StreamingEngineInputs,
    pub phase: StreamPhase,
    /// How the engine will end, once that is known.
    pub outcome: Option<Outcome>,
    pub workers: Seq<WorkerId>,
    /// How many requests have failed and were met with another one.
    pub attempt: u32,
    /// How many bytes have been appended since the file was last empty, modulo `2^64`.
    pub bytes_done: u64,
    /// How many bytes are being appended.
    pub appending: u64,
}

/// `a + b` modulo `2^64`.
pub open spec fn wrapped_sum(a: int, b: int) -> u64 {
    ((a + b) % 0x1_0000_0000_0000_0000) as u64
}

/// One more failed attempt, as far as `u32` counts.
pub open spec fn next_attempt(n: u32) -> u32 {
    if n < u32::MAX {
        (n + 1) as u32
    } else {
        n
    }
}

impl StreamModel {
    /// The row of the worker marked with how it ended.
    pub open spec fn marks(self, outcome: Outcome) -> Seq<StreamAction> {
        self.workers.map_values(
            |w: WorkerId|
                match outcome {
                    Outcome::Completed => StreamAction::MarkDone(w),
                    Outcome::Failed(f) => StreamAction::MarkFailed(w, f),
                    Outcome::Cancelled => StreamAction::MarkCancelled(w),
                },
        )
    }

    /// The report of progress: neither the size nor pieces are known.
    pub open spec fn progress(self) -> StreamAction {
        StreamAction::EmitProgress(
            ProgressCounts {
                bytes_done: self.bytes_done,
                bytes_total: 0,
                pieces_done: 0,
                pieces_total: 0,
            },
        )
    }

    /// The request is made.
    pub open spec fn open(self) -> StreamAction {
        StreamAction::Open {
            url: request_url_of(self.inputs.effective_url, self.inputs.spec.url),
        }
    }

    /// The engine failed and is done.
    pub open spec fn failed(self, failure: EngineFailure) -> (StreamModel, Seq<StreamAction>) {
        (
            StreamModel { phase: StreamPhase::Finished, ..self },
            seq![StreamAction::EmitFailed(failure)],
        )
    }

    /// The transfer has ended and `outcome` is how the engine ends. The row of the worker is
    /// marked before anything is told to subscribers.
    pub open spec fn concluded(self, outcome: Outcome) -> (StreamModel, Seq<StreamAction>) {
        match outcome {
            Outcome::Completed => (
                StreamModel { phase: StreamPhase::Finishing, outcome: Some(outcome), ..self },
                self.marks(outcome) + seq![StreamAction::Finalize],
            ),
            Outcome::Failed(f) => (
                StreamModel { phase: StreamPhase::Finished, outcome: Some(outcome), ..self },
                self.marks(outcome) + seq![StreamAction::EmitFailed(f)],
            ),
            Outcome::Cancelled => (
                StreamModel { phase: StreamPhase::Finished, outcome: Some(outcome), ..self },
                self.marks(outcome) + seq![
                    StreamAction::Abort,
                    StreamAction::EmitStatus(FileStatus::Cancelled),
                ],
            ),
        }
    }

    /// The download starts over: before the request is made anew, the file is emptied.
    pub open spec fn restarting(self) -> StreamModel {
        StreamModel { phase: StreamPhase::Restarting, bytes_done: 0, ..self }
    }

    /// A request or a body failed: wait and ask again, or give up.
    pub open spec fn faulted(self, error: RangeError, decision: RetryDecision) -> (
        StreamModel,
        Seq<StreamAction>,
    ) {
        match decision {
            RetryDecision::Retry(nanos) => (
                StreamModel {
                    phase: StreamPhase::Waiting,
                    attempt: next_attempt(self.attempt),
                    ..self
                },
                seq![StreamAction::Wait { nanos }],
            ),
            RetryDecision::GiveUp => self.concluded(Outcome::Failed(EngineFailure::Fetch(error))),
        }
    }

    /// One step: what an event changes and what the engine asks for. An event that has no
    /// meaning in the phase that the engine is in changes nothing.
    pub open spec fn step(self, ev: StreamEvent) -> (StreamModel, Seq<StreamAction>) {
        match self.phase {
            StreamPhase::Allocating => match ev {
                StreamEvent::SlotsReady(Err(e)) => self.failed(EngineFailure::EnsureSlots(e)),
                StreamEvent::SlotsReady(Ok(records)) => (
                    StreamModel {
                        phase: StreamPhase::Opening,
                        workers: ids_of(records@),
                        ..self
                    },
                    seq![StreamAction::EmitStatus(FileStatus::Running), self.open()],
                ),
                _ => (self, Seq::empty()),
            },
            StreamPhase::Opening => match ev {
                StreamEvent::Opened => (
                    StreamModel { phase: StreamPhase::Reading, ..self },
                    Seq::empty(),
                ),
                StreamEvent::Fault { error, decision } => self.faulted(error, decision),
                _ => (self, Seq::empty()),
            },
            StreamPhase::Waiting => match ev {
                StreamEvent::WaitOver => (self.restarting(), seq![StreamAction::Restart]),
                _ => (self, Seq::empty()),
            },
            StreamPhase::Restarting => match ev {
                StreamEvent::Restarted(Ok(_)) => (
                    StreamModel { phase: StreamPhase::Opening, ..self },
                    seq![self.open()],
                ),
                StreamEvent::Restarted(Err(e)) => self.concluded(
                    Outcome::Failed(EngineFailure::Restart(e)),
                ),
                _ => (self, Seq::empty()),
            },
            StreamPhase::Reading => match ev {
                StreamEvent::Command(FileCommand::Pause) => (
                    StreamModel { phase: StreamPhase::Paused, ..self },
                    seq![
                        StreamAction::EmitStatus(FileStatus::Paused),
                        StreamAction::ResetSpeed,
                        StreamAction::Close,
                    ],
                ),
                StreamEvent::Command(FileCommand::Cancel) => self.concluded(Outcome::Cancelled),
                StreamEvent::Tick => (self, seq![self.progress()]),
                StreamEvent::Chunk(bytes) => (
                    StreamModel {
                        phase: StreamPhase::Appending,
                        appending: bytes@.len() as u64,
                        ..self
                    },
                    seq![StreamAction::Append(bytes)],
                ),
                StreamEvent::Fault { error, decision } => self.faulted(error, decision),
                StreamEvent::Eof => self.concluded(Outcome::Completed),
                _ => (self, Seq::empty()),
            },
            StreamPhase::Appending => match ev {
                StreamEvent::Appended(Ok(_)) => (
                    StreamModel {
                        phase: StreamPhase::Reading,
                        bytes_done: wrapped_sum(self.bytes_done as int, self.appending as int),
                        appending: 0,
                        ..self
                    },
                    Seq::empty(),
                ),
                StreamEvent::Appended(Err(e)) => self.concluded(
                    Outcome::Failed(EngineFailure::Append(e)),
                ),
                _ => (self, Seq::empty()),
            },
            StreamPhase::Paused => match ev {
                StreamEvent::Command(FileCommand::Resume) => (
                    self.restarting(),
                    seq![
                        StreamAction::EmitStatus(FileStatus::Running),
                        StreamAction::ResetSpeed,
                        StreamAction::Restart,
                    ],
                ),
                StreamEvent::Command(FileCommand::Cancel) => self.concluded(Outcome::Cancelled),
                _ => (self, Seq::empty()),
            },
            StreamPhase::Finishing => match ev {
                StreamEvent::Finalized(Ok(_)) => (
                    StreamModel { phase: StreamPhase::Finished, ..self },
                    seq![self.progress(), StreamAction::EmitStatus(FileStatus::Done)],
                ),
                StreamEvent::Finalized(Err(e)) => self.failed(EngineFailure::Finalize(e)),
                _ => (self, Seq::empty()),
            },
            StreamPhase::Finished => (self, Seq::empty()),
        }
    }
}

impl DownloadEngine {
    /// An engine for a file of unknown size, at its start. The first thing it needs is a row
    /// for its one worker.
    pub fn spawn_streaming(id: FileId, inputs: StreamingEngineInputs) -> (r: (
        StreamingEngine,
        Vec<StreamAction>,
    ))
        ensures
            r.0@ == (StreamModel {
                id,
                inputs,
                phase: StreamPhase::Allocating,
                outcome: None,
                workers: Seq::empty(),
                attempt: 0,
                bytes_done: 0,
                appending: 0,
            }),
            r.1@ == seq![StreamAction::EnsureSlots { count: 1 }],
    {
        let engine = StreamingEngine {
            id,
            inputs,
            phase: StreamPhase::Allocating,
            outcome: None,
            workers: Vec::new(),
            attempt: 0,
            bytes_done: 0,
            appending: 0,
        };
        (engine, vec![StreamAction::EnsureSlots { count: 1 }])
    }
}

impl StreamingEngine {
    /// The engine as seen from outside.
    pub closed spec fn view(&self) -> StreamModel {
        StreamModel {
            id: self.id,
            inputs: self.inputs,
            phase: self.phase,
            outcome: self.outcome,
            workers: self.workers@,
            attempt: self.attempt,
            bytes_done: self.bytes_done,
            appending: self.appending,
        }
    }

    /// The file that the engine is for.
    pub fn id(&self) -> (id: FileId)
        ensures
            id == self@.id,
    {
        self.id
    }

    /// How far the engine has come.
    pub fn phase(&self) -> (p: StreamPhase)
        ensures
            p == self@.phase,
    {
        self.phase
    }

    fn progress(&self) -> (a: StreamAction)
        ensures
            a == self@.progress(),
    {
        StreamAction::EmitProgress(
            ProgressCounts {
                bytes_done: self.bytes_done,
                bytes_total: 0,
                pieces_done: 0,
                pieces_total: 0,
            },
        )
    }

    fn open(&self) -> (a: StreamAction)
        ensures
            a == self@.open(),
    {
        StreamAction::Open { url: request_url(&self.inputs.effective_url, &self.inputs.spec.url) }
    }

    fn fail(&mut self, failure: EngineFailure) -> (actions: Vec<StreamAction>)
        ensures
            (final(self)@, actions@) == old(self)@.failed(failure),
    {
        self.phase = StreamPhase::Finished;
        vec![StreamAction::EmitFailed(failure)]
    }

    fn conclude(&mut self, outcome: Outcome) -> (actions: Vec<StreamAction>)
        ensures
            (final(self)@, actions@) == old(self)@.concluded(outcome),
    {
        let mut actions: Vec<StreamAction> = Vec::new();
        let ghost marks = self@.marks(outcome);
        let mut i: usize = 0;
        while i < self.workers.len()
            invariant
                i <= self.workers@.len(),
                marks.len() == self.workers@.len(),
                marks == self@.marks(outcome),
                actions@ == marks.take(i as int),
            decreases self.workers@.len() - i,
        {
            let w: WorkerId = self.workers[i];
            let mark = match &outcome {
                Outcome::Completed => StreamAction::MarkDone(w),
                Outcome::Failed(f) => StreamAction::MarkFailed(w, f.clone()),
                Outcome::Cancelled => StreamAction::MarkCancelled(w),
            };
            assert(mark == marks[i as int]);
            actions.push(mark);
            i = i + 1;
            assert(actions@ =~= marks.take(i as int));
        }
        assert(marks.take(marks.len() as int) =~= marks);
        match &outcome {
            Outcome::Completed => {
                self.phase = StreamPhase::Finishing;
                actions.push(StreamAction::Finalize);
            },
            Outcome::Failed(f) => {
                self.phase = StreamPhase::Finished;
                actions.push(StreamAction::EmitFailed(f.clone()));
            },
            Outcome::Cancelled => {
                self.phase = StreamPhase::Finished;
                actions.push(StreamAction::Abort);
                actions.push(StreamAction::EmitStatus(FileStatus::Cancelled));
            },
        }
        self.outcome = Some(outcome);
        assert(actions@ =~= old(self)@.concluded(outcome).1);
        actions
    }

    fn faulted(&mut self, error: RangeError, decision: RetryDecision) -> (actions: Vec<
        StreamAction,
    >)
        ensures
            (final(self)@, actions@) == old(self)@.faulted(error, decision),
    {
        match decision {
            RetryDecision::Retry(nanos) => {
                self.phase = StreamPhase::Waiting;
                if self.attempt < u32::MAX {
                    self.attempt = self.attempt + 1;
                }
                vec![StreamAction::Wait { nanos }]
            },
            RetryDecision::GiveUp => self.conclude(Outcome::Failed(EngineFailure::Fetch(error))),
        }
    }

    fn restart(&mut self)
        ensures
            final(self)@ == old(self)@.restarting(),
    {
        self.phase = StreamPhase::Restarting;
        self.bytes_done = 0;
    }

    fn begin(&mut self, records: Vec<WorkerRecord>) -> (actions: Vec<StreamAction>)
        requires
            old(self)@.phase == StreamPhase::Allocating,
        ensures
            (final(self)@, actions@) == old(self)@.step(
                StreamEvent::SlotsReady(Ok::<Vec<WorkerRecord>, Error>(records)),
            ),
    {
        let mut workers: Vec<WorkerId> = Vec::new();
        let mut i: usize = 0;
        while i < records.len()
            invariant
                i <= records@.len(),
                workers@ == ids_of(records@).take(i as int),
            decreases records@.len() - i,
        {
            workers.push(records[i].id);
            i = i + 1;
            assert(workers@ =~= ids_of(records@).take(i as int));
        }
        assert(ids_of(records@).take(records@.len() as int) =~= ids_of(records@));
        self.workers = workers;
        self.phase = StreamPhase::Opening;
        vec![StreamAction::EmitStatus(FileStatus::Running), self.open()]
    }

    /// One step: takes in an event and gives what is to be done about it, in order.
    pub fn step(&mut self, ev: StreamEvent) -> (actions: Vec<StreamAction>)
        ensures
            (final(self)@, actions@) == old(self)@.step(ev),
    {
        match self.phase {
            StreamPhase::Allocating => match ev {
                StreamEvent::SlotsReady(Err(e)) => self.fail(EngineFailure::EnsureSlots(e)),
                StreamEvent::SlotsReady(Ok(records)) => self.begin(records),
                _ => Vec::new(),
            },
            StreamPhase::Opening => match ev {
                StreamEvent::Opened => {
                    self.phase = StreamPhase::Reading;
                    Vec::new()
                },
                StreamEvent::Fault { error, decision } => self.faulted(error, decision),
                _ => Vec::new(),
            },
            StreamPhase::Waiting => match ev {
                StreamEvent::WaitOver => {
                    self.restart();
                    vec![StreamAction::Restart]
                },
                _ => Vec::new(),
            },
            StreamPhase::Restarting => match ev {
                StreamEvent::Restarted(Ok(_)) => {
                    self.phase = StreamPhase::Opening;
                    vec![self.open()]
                },
                StreamEvent::Restarted(Err(e)) => self.conclude(
                    Outcome::Failed(EngineFailure::Restart(e)),
                ),
                _ => Vec::new(),
            },
            StreamPhase::Reading => match ev {
                StreamEvent::Command(FileCommand::Pause) => {
                    self.phase = StreamPhase::Paused;
                    vec![
                        StreamAction::EmitStatus(FileStatus::Paused),
                        StreamAction::ResetSpeed,
                        StreamAction::Close,
                    ]
                },
                StreamEvent::Command(FileCommand::Cancel) => self.conclude(Outcome::Cancelled),
                StreamEvent::Tick => vec![self.progress()],
                StreamEvent::Chunk(bytes) => {
                    self.phase = StreamPhase::Appending;
                    self.appending = bytes.len() as u64;
                    vec![StreamAction::Append(bytes)]
                },
                StreamEvent::Fault { error, decision } => self.faulted(error, decision),
                StreamEvent::Eof => self.conclude(Outcome::Completed),
                _ => Vec::new(),
            },
            StreamPhase::Appending => match ev {
                StreamEvent::Appended(Ok(_)) => {
                    self.phase = StreamPhase::Reading;
                    self.bytes_done = self.bytes_done.wrapping_add(self.appending);
                    self.appending = 0;
                    Vec::new()
                },
                StreamEvent::Appended(Err(e)) => self.conclude(
                    Outcome::Failed(EngineFailure::Append(e)),
                ),
                _ => Vec::new(),
            },
            StreamPhase::Paused => match ev {
                StreamEvent::Command(FileCommand::Resume) => {
                    self.restart();
                    vec![
                        StreamAction::EmitStatus(FileStatus::Running),
                        StreamAction::ResetSpeed,
                        StreamAction::Restart,
                    ]
                },
                StreamEvent::Command(FileCommand::Cancel) => self.conclude(Outcome::Cancelled),
                _ => Vec::new(),
            },
            StreamPhase::Finishing => match ev {
                StreamEvent::Finalized(Ok(_)) => {
                    self.phase = StreamPhase::Finished;
                    vec![self.progress(), StreamAction::EmitStatus(FileStatus::Done)]
                },
                StreamEvent::Finalized(Err(e)) => self.fail(EngineFailure::Finalize(e)),
                _ => Vec::new(),
            },
            StreamPhase::Finished => Vec::new(),
        }
    }

    /// Takes in that the request or the body failed: trouble that may pass is met with another
    /// request, as long as the policy allows one more.
    pub fn fault(&mut self, error: RangeError, policy: &RetryPolicy) -> (actions: Vec<
        StreamAction,
    >)
        requires
            policy.valid(),
        ensures
            exists|decision: RetryDecision|
                policy.allows(old(self)@.attempt, error.transient(), decision) && (
                final(self)@,
                actions@,
                ) == #[trigger] old(self)@.step(StreamEvent::Fault { error, decision }),
    {
        let decision: RetryDecision = if self.attempt == u32::MAX {
            RetryDecision::GiveUp
        } else {
            policy.classify(self.attempt, error.is_transient())
        };
        self.step(StreamEvent::Fault { error, decision })
    }
}

} // verus!

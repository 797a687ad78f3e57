//! The main loop of an engine, as a machine that turns events into actions.
//!
//! The engine asks for work by actions; whoever runs it performs them in order and reports
//! what came of them, and what commands and workers say, as events. Each event leads to one
//! step. Commands are taken in while the workers are at it; whoever runs the engine holds
//! them back until then.

use vstd::prelude::*;
use crate::domain::command::FileCommand;
use crate::domain::id::{AttemptId, FileId, WorkerId};
use crate::domain::spec::{compute_workers, worker_count};
use crate::domain::status::FileStatus;
use crate::error::Error;
use crate::ports::http::RangeGuard;
use crate::ports::records::WorkerRecord;
use super::attempts::OpenAttempts;
use super::dispatch::counted_pieces;
use super::geometry::pieces_total;
use super::held::{held_count, on_disk, with_piece, HeldPieces};
use super::inputs::{
    clone_guard, request_url, request_url_of, EngineFailure, EngineInputs, Outcome,
};
use super::worker::{RunState, WorkerMsg};

verus! {

/// How far an engine has come.
#[derive(Debug, Clone, Copy, PartialEq, Eq, Structural)]
pub enum EnginePhase {
    /// Waits to hear which pieces are missing.
    Loading,
    /// No piece is missing; the file is being finished.
    FinishingAtOnce,
    /// Waits for the rows of the workers.
    Allocating,
    /// The workers are at it.
    Active,
    /// The workers are told to stop, or have stopped, and their last reports come in.
    Draining,
    /// The workers stopped by themselves; waits to hear which pieces are missing.
    Checking,
    /// All pieces are there; the file is being finished.
    Finishing,
    /// Nothing is left to do.
    Finished,
}

/// What an engine hears.
pub enum EngineEvent {
    /// The pieces that are missing at the start.
    PendingLoaded(Result<Vec<u32>, Error>),
    /// The rows of the workers.
    SlotsReady(Result<Vec<WorkerRecord>, Error>),
    /// A command of the manager.
    Command(FileCommand),
    /// A report of a worker.
    Worker(WorkerMsg),
    /// The row of an attempt that began; `None` where it could not be stored.
    AttemptOpened { worker_id: WorkerId, piece: u32, attempt: Option<AttemptId> },
    /// Whether a piece could be committed.
    Committed { piece: u32, result: Result<(), Error> },
    /// It is time to report progress.
    Tick,
    /// No worker is left that could report.
    WorkersClosed,
    /// All workers have ended and all their reports have been handed on.
    WorkersDrained,
    /// The pieces that are missing after the workers stopped.
    PendingChecked(Result<Vec<u32>, Error>),
    /// Whether the file could be finished.
    Finalized(Result<(), Error>),
}

/// What an engine asks for.
pub enum EngineAction {
    /// Find out which pieces are missing.
    LoadPending,
    /// Make rows for `count` workers.
    EnsureSlots { count: usize },
    /// Start `count` workers on the pieces in `pending`; worker `i` gets row `i`, where
    /// there is one.
    Spawn {
        url: String,
        guard: Option<RangeGuard>,
        ranges: bool,
        count: usize,
        records: Vec<WorkerRecord>,
        pending: Vec<u32>,
    },
    /// Start one worker that fetches the whole body, from its first byte on.
    SpawnFull { url: String, worker: Option<WorkerId> },
    /// Tell the workers how to behave.
    SetRun(RunState),
    /// Tell subscribers about a change of status.
    EmitStatus(FileStatus),
    /// Tell subscribers that the download has failed.
    EmitFailed(EngineFailure),
    /// Tell subscribers about progress.
    EmitProgress { pieces_done: u32, pieces_total: u32 },
    /// Forget the speed that was measured so far.
    ResetSpeed,
    /// Commit a piece.
    Commit { piece: u32 },
    /// Store that an attempt began.
    StartAttempt { worker_id: WorkerId, piece: u32 },
    /// Store that an attempt succeeded.
    FinishAttempt { attempt: AttemptId, bytes: u64 },
    /// Store that an attempt failed.
    FailAttempt { attempt: AttemptId, error: String },
    /// Wait for the workers to end and hand on their last reports.
    JoinWorkers,
    /// Find out which pieces are missing now.
    CheckPending,
    /// Store how a worker ended.
    MarkDone(WorkerId),
    MarkFailed(WorkerId, EngineFailure),
    MarkCancelled(WorkerId),
    /// Store that the attempts that are still open are paused.
    PauseAttempts,
    /// Finish the file.
    Finalize,
    /// Remove what has been fetched.
    Abort,
}

/// The engine of one download.
pub struct DownloadEngine {
    id: FileId,
    inputs: EngineInputs,
    phase: EnginePhase,
    run: RunState,
    ranges: bool,
    switching: Option<RunState>,
    pending: Option<Vec<u32>>,
    held: HeldPieces,
    committed: usize,
    outcome: Option<Outcome>,
    workers: Vec<WorkerId>,
    open: OpenAttempts,
}

/// An engine as seen from outside.
#[verifier::ext_equal]
pub struct EngineModel {
    pub id: FileId,
    pub inputs: EngineInputs,
    pub phase: EnginePhase,
    /// What the workers were told last.
    pub run: RunState,
    /// Whether the workers fetch by ranges.
    pub ranges: bool,
    /// What the workers are told once they fetch the whole body, while they are being
    /// stopped because the server refused ranges.
    pub switching: Option<RunState>,
    /// The missing pieces, between hearing of them and starting the workers.
    pub pending: Option<Vec<u32>>,
    /// Of each piece, whether it is complete; empty until the missing pieces are known.
    pub held: Seq<bool>,
    /// How many pieces the engine has committed.
    pub committed: usize,
    /// How the engine will end, once that is known.
    pub outcome: Option<Outcome>,
    /// The rows of the workers.
    pub workers: Seq<WorkerId>,
    /// The attempts that are open.
    pub open: Map<(WorkerId, u32), AttemptId>,
}

/// How many workers an engine starts: one where the server takes no ranges.
pub open spec fn slots_for(inputs: EngineInputs) -> usize {
    if inputs.accepts_ranges {
        worker_count(inputs.total_size as int) as usize
    } else {
        1
    }
}

/// The rows' identifiers.
pub open spec fn ids_of(records: Seq<WorkerRecord>) -> Seq<WorkerId> {
    records.map_values(|r: WorkerRecord| r.id)
}

/// One more, as far as `usize` counts.
pub open spec fn one_more(n: usize) -> usize {
    if n < usize::MAX {
        (n + 1) as usize
    } else {
        n
    }
}

impl EngineModel {
    /// The number of pieces.
    pub open spec fn total_pieces(self) -> u32 {
        counted_pieces(self.inputs.total_size as int, self.inputs.piece_size as int) as u32
    }

    /// The report of progress at this point.
    pub open spec fn progress(self) -> EngineAction {
        EngineAction::EmitProgress {
            pieces_done: held_count(self.held) as u32,
            pieces_total: self.total_pieces(),
        }
    }

    /// One more piece has been committed.
    pub open spec fn grown(self, piece: u32) -> EngineModel {
        EngineModel {
            committed: one_more(self.committed),
            held: with_piece(self.held, piece),
            ..self
        }
    }

    /// The engine tells its workers to stop and knows how it will end.
    pub open spec fn stopped(self, outcome: Outcome) -> (EngineModel, Seq<EngineAction>) {
        (
            EngineModel {
                phase: EnginePhase::Draining,
                run: RunState::Stopping,
                outcome: Some(outcome),
                ..self
            },
            seq![EngineAction::SetRun(RunState::Stopping), EngineAction::JoinWorkers],
        )
    }

    /// The server refused ranges while the workers are at it: they stop, to be followed by one
    /// that fetches the whole body.
    pub open spec fn refused(self) -> (EngineModel, Seq<EngineAction>) {
        if self.ranges {
            (
                EngineModel {
                    phase: EnginePhase::Draining,
                    run: RunState::Stopping,
                    ranges: false,
                    switching: Some(self.run),
                    ..self
                },
                seq![EngineAction::SetRun(RunState::Stopping), EngineAction::JoinWorkers],
            )
        } else {
            (self, Seq::empty())
        }
    }

    /// The server refused ranges, as is heard with the last reports of workers that have
    /// stopped: one that fetches the whole body follows, unless it is known how the engine
    /// ends.
    pub open spec fn refused_late(self) -> (EngineModel, Seq<EngineAction>) {
        if self.ranges && self.outcome is None {
            (EngineModel { ranges: false, switching: Some(self.run), ..self }, Seq::empty())
        } else {
            (self, Seq::empty())
        }
    }

    /// The workers that were refused ranges have ended: one worker starts over with the whole
    /// body. What is complete stays complete.
    pub open spec fn switched(self, run: RunState) -> (EngineModel, Seq<EngineAction>) {
        (
            EngineModel {
                phase: EnginePhase::Active,
                run,
                switching: None,
                ..self
            },
            seq![
                EngineAction::SetRun(run),
                EngineAction::ResetSpeed,
                EngineAction::SpawnFull {
                    url: request_url_of(self.inputs.effective_url, self.inputs.spec.url),
                    worker: if self.workers.len() > 0 {
                        Some(self.workers[0])
                    } else {
                        None
                    },
                },
            ],
        )
    }

    /// The engine failed and is done.
    pub open spec fn failed(self, failure: EngineFailure) -> (EngineModel, Seq<EngineAction>) {
        (
            EngineModel { phase: EnginePhase::Finished, ..self },
            seq![EngineAction::EmitFailed(failure)],
        )
    }

    /// The row of every worker marked with how it ended.
    pub open spec fn marks(self, outcome: Outcome) -> Seq<EngineAction> {
        self.workers.map_values(
            |w: WorkerId|
                match outcome {
                    Outcome::Completed => EngineAction::MarkDone(w),
                    Outcome::Failed(f) => EngineAction::MarkFailed(w, f),
                    Outcome::Cancelled => EngineAction::MarkCancelled(w),
                },
        )
    }

    /// The workers have ended and `outcome` is how the engine ends. The rows of the workers
    /// are marked before anything is told to subscribers.
    pub open spec fn concluded(self, outcome: Outcome) -> (EngineModel, Seq<EngineAction>) {
        match outcome {
            Outcome::Completed => (
                EngineModel { phase: EnginePhase::Finishing, outcome: Some(outcome), ..self },
                self.marks(outcome) + seq![
                    EngineAction::Finalize,
                ],
            ),
            Outcome::Failed(f) => (
                EngineModel { phase: EnginePhase::Finished, outcome: Some(outcome), ..self },
                self.marks(outcome) + seq![
                    EngineAction::EmitFailed(f),
                ],
            ),
            Outcome::Cancelled => (
                EngineModel { phase: EnginePhase::Finished, outcome: Some(outcome), ..self },
                self.marks(outcome) + seq![
                    EngineAction::PauseAttempts,
                    EngineAction::Abort,
                    EngineAction::EmitStatus(FileStatus::Cancelled),
                ],
            ),
        }
    }

    /// An attempt ended: its row is closed by `action`, where it has one.
    pub open spec fn closed_attempt(
        self,
        key: (WorkerId, u32),
        action: spec_fn(AttemptId) -> EngineAction,
    ) -> (EngineModel, Seq<EngineAction>) {
        if self.open.contains_key(key) {
            (
                EngineModel { open: self.open.remove(key), ..self },
                seq![action(self.open[key])],
            )
        } else {
            (self, Seq::empty())
        }
    }

    /// What an attempt's report leads to, while workers can report.
    pub open spec fn attempt_step(self, ev: EngineEvent) -> (EngineModel, Seq<EngineAction>) {
        match ev {
            EngineEvent::Worker(WorkerMsg::AttemptStarted { worker_id, piece }) => (
                self,
                seq![EngineAction::StartAttempt { worker_id, piece }],
            ),
            EngineEvent::AttemptOpened { worker_id, piece, attempt: Some(a) } => (
                EngineModel { open: self.open.insert((worker_id, piece), a), ..self },
                Seq::empty(),
            ),
            EngineEvent::Worker(
                WorkerMsg::AttemptFinished { worker_id, piece, bytes },
            ) => self.closed_attempt(
                (worker_id, piece),
                |attempt: AttemptId| EngineAction::FinishAttempt { attempt, bytes },
            ),
            EngineEvent::Worker(
                WorkerMsg::AttemptFailed { worker_id, piece, error },
            ) => self.closed_attempt(
                (worker_id, piece),
                |attempt: AttemptId| EngineAction::FailAttempt { attempt, error },
            ),
            _ => (self, Seq::empty()),
        }
    }

    /// What a command leads to while the workers are at it.
    pub open spec fn command_step(self, cmd: FileCommand) -> (EngineModel, Seq<EngineAction>) {
        match cmd {
            FileCommand::Pause => if self.run == RunState::Running {
                (
                    EngineModel { run: RunState::Paused, ..self },
                    seq![
                        EngineAction::SetRun(RunState::Paused),
                        EngineAction::EmitStatus(FileStatus::Paused),
                        EngineAction::ResetSpeed,
                    ],
                )
            } else {
                (self, Seq::empty())
            },
            FileCommand::Resume => if self.run == RunState::Paused {
                (
                    EngineModel { run: RunState::Running, ..self },
                    seq![
                        EngineAction::SetRun(RunState::Running),
                        EngineAction::EmitStatus(FileStatus::Running),
                        EngineAction::ResetSpeed,
                    ],
                )
            } else {
                (self, Seq::empty())
            },
            FileCommand::Cancel => self.stopped(Outcome::Cancelled),
        }
    }

    /// One step: what an event changes and what the engine asks for. An event that has no
    /// meaning in the phase that the engine is in changes nothing.
    pub open spec fn step(self, ev: EngineEvent) -> (EngineModel, Seq<EngineAction>) {
        match self.phase {
            EnginePhase::Loading => match ev {
                EngineEvent::PendingLoaded(Err(e)) => self.failed(EngineFailure::PendingPieces(e)),
                EngineEvent::PendingLoaded(Ok(p)) => if p@.len() == 0 {
                    (
                        EngineModel { phase: EnginePhase::FinishingAtOnce, ..self },
                        seq![EngineAction::EmitStatus(FileStatus::Running), EngineAction::Finalize],
                    )
                } else {
                    (
                        EngineModel {
                            phase: EnginePhase::Allocating,
                            pending: Some(p),
                            held: on_disk(p@, self.total_pieces() as int),
                            ..self
                        },
                        seq![
                            EngineAction::EmitStatus(FileStatus::Running),
                            EngineAction::EnsureSlots { count: slots_for(self.inputs) },
                        ],
                    )
                },
                _ => (self, Seq::empty()),
            },
            EnginePhase::FinishingAtOnce => match ev {
                EngineEvent::Finalized(Ok(_)) => (
                    EngineModel { phase: EnginePhase::Finished, ..self },
                    seq![EngineAction::EmitStatus(FileStatus::Done)],
                ),
                EngineEvent::Finalized(Err(e)) => self.failed(EngineFailure::Finalize(e)),
                _ => (self, Seq::empty()),
            },
            EnginePhase::Allocating => match (ev, self.pending) {
                (EngineEvent::SlotsReady(Err(e)), _) => self.failed(EngineFailure::EnsureSlots(e)),
                (EngineEvent::SlotsReady(Ok(records)), Some(pending)) => (
                    EngineModel {
                        phase: EnginePhase::Active,
                        run: RunState::Running,
                        pending: None,
                        workers: ids_of(records@),
                        ..self
                    },
                    seq![
                        EngineAction::Spawn {
                            url: request_url_of(self.inputs.effective_url, self.inputs.spec.url),
                            guard: self.inputs.guard,
                            ranges: self.inputs.accepts_ranges,
                            count: slots_for(self.inputs),
                            records,
                            pending,
                        },
                    ],
                ),
                _ => (self, Seq::empty()),
            },
            EnginePhase::Active => match ev {
                EngineEvent::Command(cmd) => self.command_step(cmd),
                EngineEvent::Worker(WorkerMsg::PieceDone { piece }) => (
                    self,
                    seq![EngineAction::Commit { piece }],
                ),
                EngineEvent::Committed { piece, result: Ok(_) } => (self.grown(piece), Seq::empty()),
                EngineEvent::Committed { result: Err(e), .. } => self.stopped(
                    Outcome::Failed(EngineFailure::Commit(e)),
                ),
                EngineEvent::Worker(WorkerMsg::Failed(text)) => self.stopped(
                    Outcome::Failed(EngineFailure::Worker(text)),
                ),
                EngineEvent::Worker(WorkerMsg::RangesRefused) => self.refused(),
                EngineEvent::Tick => (self, seq![self.progress()]),
                EngineEvent::WorkersClosed => (
                    EngineModel { phase: EnginePhase::Draining, ..self },
                    seq![EngineAction::JoinWorkers],
                ),
                _ => self.attempt_step(ev),
            },
            EnginePhase::Draining => match ev {
                EngineEvent::Worker(WorkerMsg::PieceDone { piece }) => (
                    self,
                    seq![EngineAction::Commit { piece }],
                ),
                EngineEvent::Committed { piece, result: Ok(_) } => (self.grown(piece), Seq::empty()),
                EngineEvent::Worker(WorkerMsg::RangesRefused) => self.refused_late(),
                EngineEvent::WorkersDrained => match self.outcome {
                    Some(outcome) => self.concluded(outcome),
                    None => match self.switching {
                        Some(run) => self.switched(run),
                        None => (
                            EngineModel { phase: EnginePhase::Checking, ..self },
                            seq![EngineAction::CheckPending],
                        ),
                    },
                },
                _ => self.attempt_step(ev),
            },
            EnginePhase::Checking => match ev {
                EngineEvent::PendingChecked(Ok(p)) => self.concluded(
                    if p@.len() == 0 {
                        Outcome::Completed
                    } else if self.committed == 0 {
                        Outcome::Failed(EngineFailure::NoProgress)
                    } else {
                        Outcome::Failed(EngineFailure::BeforeCompletion)
                    },
                ),
                EngineEvent::PendingChecked(Err(e)) => self.concluded(
                    Outcome::Failed(EngineFailure::Pending(e)),
                ),
                _ => (self, Seq::empty()),
            },
            EnginePhase::Finishing => match ev {
                EngineEvent::Finalized(Ok(_)) => (
                    EngineModel { phase: EnginePhase::Finished, ..self },
                    seq![
                        EngineAction::EmitProgress {
                            pieces_done: self.total_pieces(),
                            pieces_total: self.total_pieces(),
                        },
                        EngineAction::EmitStatus(FileStatus::Done),
                    ],
                ),
                EngineEvent::Finalized(Err(e)) => self.failed(EngineFailure::Finalize(e)),
                _ => (self, Seq::empty()),
            },
            EnginePhase::Finished => (self, Seq::empty()),
        }
    }
}

/// The row that worker `i` gets.
pub fn assigned_worker(records: &Vec<WorkerRecord>, i: usize) -> (r: Option<WorkerId>)
    ensures
        r == (if i < records@.len() {
            Some(records@[i as int].id)
        } else {
            None
        }),
{
    if i < records.len() {
        Some(records[i].id)
    } else {
        None
    }
}

impl DownloadEngine {
    /// The engine as seen from outside.
    pub closed spec fn view(&self) -> EngineModel {
        EngineModel {
            id: self.id,
            inputs: self.inputs,
            phase: self.phase,
            run: self.run,
            ranges: self.ranges,
            switching: self.switching,
            pending: self.pending,
            held: self.held@,
            committed: self.committed,
            outcome: self.outcome,
            workers: self.workers@,
            open: self.open@,
        }
    }

    /// Whether the table of open attempts and the pieces are in order.
    pub closed spec fn wf(&self) -> bool {
        self.open.wf() && self.held.wf()
    }

    /// An engine at its start. The first thing it needs is to hear which pieces are missing.
    pub fn spawn(id: FileId, inputs: EngineInputs) -> (r: (DownloadEngine, Vec<EngineAction>))
        ensures
            r.0.wf(),
            r.0@ == (EngineModel {
                id,
                inputs,
                phase: EnginePhase::Loading,
                run: RunState::Running,
                ranges: inputs.accepts_ranges,
                switching: None,
                pending: None,
                held: Seq::empty(),
                committed: 0,
                outcome: None,
                workers: Seq::empty(),
                open: Map::empty(),
            }),
            r.1@ == seq![EngineAction::LoadPending],
    {
        let ranges: bool = inputs.accepts_ranges;
        let held = HeldPieces::none(inputs.piece_size, inputs.total_size);
        let engine = DownloadEngine {
            id,
            inputs,
            phase: EnginePhase::Loading,
            run: RunState::Running,
            ranges,
            switching: None,
            pending: None,
            held,
            committed: 0,
            outcome: None,
            workers: Vec::new(),
            open: OpenAttempts::new(),
        };
        (engine, vec![EngineAction::LoadPending])
    }

    /// The file that the engine is for.
    pub fn id(&self) -> (id: FileId)
        ensures
            id == self@.id,
    {
        self.id
    }

    /// How far the engine has come.
    pub fn phase(&self) -> (p: EnginePhase)
        ensures
            p == self@.phase,
    {
        self.phase
    }

    fn progress(&self) -> (a: EngineAction)
        requires
            self.wf(),
        ensures
            a == self@.progress(),
    {
        EngineAction::EmitProgress {
            pieces_done: self.held.count(),
            pieces_total: pieces_total(self.inputs.total_size, self.inputs.piece_size),
        }
    }

    fn stop(&mut self, outcome: Outcome) -> (actions: Vec<EngineAction>)
        requires
            old(self).wf(),
        ensures
            final(self).wf(),
            (final(self)@, actions@) == old(self)@.stopped(outcome),
    {
        self.phase = EnginePhase::Draining;
        self.run = RunState::Stopping;
        self.outcome = Some(outcome);
        vec![EngineAction::SetRun(RunState::Stopping), EngineAction::JoinWorkers]
    }

    fn refuse(&mut self) -> (actions: Vec<EngineAction>)
        requires
            old(self).wf(),
        ensures
            final(self).wf(),
            (final(self)@, actions@) == old(self)@.refused(),
    {
        if self.ranges {
            self.phase = EnginePhase::Draining;
            self.switching = Some(self.run);
            self.run = RunState::Stopping;
            self.ranges = false;
            vec![EngineAction::SetRun(RunState::Stopping), EngineAction::JoinWorkers]
        } else {
            Vec::new()
        }
    }

    fn refuse_late(&mut self) -> (actions: Vec<EngineAction>)
        requires
            old(self).wf(),
        ensures
            final(self).wf(),
            (final(self)@, actions@) == old(self)@.refused_late(),
    {
        if self.ranges && self.outcome.is_none() {
            self.ranges = false;
            self.switching = Some(self.run);
        }
        Vec::new()
    }

    fn grow(&mut self, piece: u32)
        requires
            old(self).wf(),
        ensures
            final(self).wf(),
            final(self)@ == old(self)@.grown(piece),
    {
        if self.committed < usize::MAX {
            self.committed = self.committed + 1;
        }
        self.held.insert(piece);
    }

    fn switch(&mut self, run: RunState) -> (actions: Vec<EngineAction>)
        requires
            old(self).wf(),
        ensures
            final(self).wf(),
            (final(self)@, actions@) == old(self)@.switched(run),
    {
        self.phase = EnginePhase::Active;
        self.run = run;
        self.switching = None;
        let worker: Option<WorkerId> = if self.workers.len() > 0 {
            Some(self.workers[0])
        } else {
            None
        };
        vec![
            EngineAction::SetRun(run),
            EngineAction::ResetSpeed,
            EngineAction::SpawnFull {
                url: request_url(&self.inputs.effective_url, &self.inputs.spec.url),
                worker,
            },
        ]
    }

    fn fail(&mut self, failure: EngineFailure) -> (actions: Vec<EngineAction>)
        requires
            old(self).wf(),
        ensures
            final(self).wf(),
            (final(self)@, actions@) == old(self)@.failed(failure),
    {
        self.phase = EnginePhase::Finished;
        vec![EngineAction::EmitFailed(failure)]
    }

    fn conclude(&mut self, outcome: Outcome) -> (actions: Vec<EngineAction>)
        requires
            old(self).wf(),
        ensures
            final(self).wf(),
            (final(self)@, actions@) == old(self)@.concluded(outcome),
    {
        let mut actions: Vec<EngineAction> = Vec::new();
        let ghost marks = self@.marks(outcome);
        let mut i: usize = 0;
        while i < self.workers.len()
            invariant
                i <= self.workers@.len(),
                marks.len() == self.workers@.len(),
                marks == self@.marks(outcome),
                actions@ == marks.take(i as int),
            decreases self.workers@.len() - i,
        {
            let w: WorkerId = self.workers[i];
            let mark = match &outcome {
                Outcome::Completed => EngineAction::MarkDone(w),
                Outcome::Failed(f) => EngineAction::MarkFailed(w, f.clone()),
                Outcome::Cancelled => EngineAction::MarkCancelled(w),
            };
            assert(mark == marks[i as int]);
            actions.push(mark);
            i = i + 1;
            assert(actions@ =~= marks.take(i as int));
        }
        assert(marks.take(marks.len() as int) =~= marks);
        match &outcome {
            Outcome::Completed => {
                self.phase = EnginePhase::Finishing;
                actions.push(EngineAction::Finalize);
            },
            Outcome::Failed(f) => {
                self.phase = EnginePhase::Finished;
                actions.push(EngineAction::EmitFailed(f.clone()));
            },
            Outcome::Cancelled => {
                self.phase = EnginePhase::Finished;
                actions.push(EngineAction::PauseAttempts);
                actions.push(EngineAction::Abort);
                actions.push(EngineAction::EmitStatus(FileStatus::Cancelled));
            },
        }
        self.outcome = Some(outcome);
        let ghost expected = old(self)@.concluded(outcome);
        assert(actions@ =~= expected.1);
        actions
    }

    fn attempt_event(&mut self, ev: EngineEvent) -> (actions: Vec<EngineAction>)
        requires
            old(self).wf(),
        ensures
            final(self).wf(),
            (final(self)@, actions@) == old(self)@.attempt_step(ev),
    {
        match ev {
            EngineEvent::Worker(WorkerMsg::AttemptStarted { worker_id, piece }) => {
                vec![EngineAction::StartAttempt { worker_id, piece }]
            },
            EngineEvent::AttemptOpened { worker_id, piece, attempt: Some(a) } => {
                self.open.insert(worker_id, piece, a);
                Vec::new()
            },
            EngineEvent::Worker(WorkerMsg::AttemptFinished { worker_id, piece, bytes }) => {
                let ghost before = self@.open;
                match self.open.remove(worker_id, piece) {
                    Some(attempt) => vec![EngineAction::FinishAttempt { attempt, bytes }],
                    None => {
                        assert(before.remove((worker_id, piece)) =~= before);
                        Vec::new()
                    },
                }
            },
            EngineEvent::Worker(WorkerMsg::AttemptFailed { worker_id, piece, error }) => {
                let ghost before = self@.open;
                match self.open.remove(worker_id, piece) {
                    Some(attempt) => vec![EngineAction::FailAttempt { attempt, error }],
                    None => {
                        assert(before.remove((worker_id, piece)) =~= before);
                        Vec::new()
                    },
                }
            },
            _ => Vec::new(),
        }
    }

    fn command_event(&mut self, cmd: FileCommand) -> (actions: Vec<EngineAction>)
        requires
            old(self).wf(),
        ensures
            final(self).wf(),
            (final(self)@, actions@) == old(self)@.command_step(cmd),
    {
        match cmd {
            FileCommand::Pause => if self.run == RunState::Running {
                self.run = RunState::Paused;
                vec![
                    EngineAction::SetRun(RunState::Paused),
                    EngineAction::EmitStatus(FileStatus::Paused),
                    EngineAction::ResetSpeed,
                ]
            } else {
                Vec::new()
            },
            FileCommand::Resume => if self.run == RunState::Paused {
                self.run = RunState::Running;
                vec![
                    EngineAction::SetRun(RunState::Running),
                    EngineAction::EmitStatus(FileStatus::Running),
                    EngineAction::ResetSpeed,
                ]
            } else {
                Vec::new()
            },
            FileCommand::Cancel => self.stop(Outcome::Cancelled),
        }
    }

    /// Rows for as many workers as the file gets, at the start.
    fn start_workers(&mut self, pending: Vec<u32>, records: Vec<WorkerRecord>) -> (actions: Vec<
        EngineAction,
    >)
        requires
            old(self).wf(),
            old(self)@.phase == EnginePhase::Allocating,
            old(self)@.pending is None,
        ensures
            final(self).wf(),
            (final(self)@, actions@) == (EngineModel {
                pending: Some(pending),
                ..old(self)@
            }).step(EngineEvent::SlotsReady(Ok::<Vec<WorkerRecord>, Error>(records))),
    {
        self.phase = EnginePhase::Active;
        self.run = RunState::Running;
        self.pending = None;
        let mut workers: Vec<WorkerId> = Vec::new();
        let mut i: usize = 0;
        while i < records.len()
            invariant
                i <= records@.len(),
                workers@ == ids_of(records@).take(i as int),
            decreases records@.len() - i,
        {
            workers.push(records[i].id);
            i = i + 1;
            assert(workers@ =~= ids_of(records@).take(i as int));
        }
        assert(ids_of(records@).take(records@.len() as int) =~= ids_of(records@));
        self.workers = workers;
        let count: usize = self.slots();
        vec![
            EngineAction::Spawn {
                url: request_url(&self.inputs.effective_url, &self.inputs.spec.url),
                guard: clone_guard(&self.inputs.guard),
                ranges: self.inputs.accepts_ranges,
                count,
                records,
                pending,
            },
        ]
    }

    fn slots(&self) -> (n: usize)
        ensures
            n == slots_for(self@.inputs),
    {
        if self.inputs.accepts_ranges {
            compute_workers(self.inputs.total_size) as usize
        } else {
            1
        }
    }

    /// One step: takes in an event and gives what is to be done about it, in order.
    pub fn step(&mut self, ev: EngineEvent) -> (actions: Vec<EngineAction>)
        requires
            old(self).wf(),
        ensures
            final(self).wf(),
            (final(self)@, actions@) == old(self)@.step(ev),
    {
        match self.phase {
            EnginePhase::Loading => match ev {
                EngineEvent::PendingLoaded(Err(e)) => self.fail(EngineFailure::PendingPieces(e)),
                EngineEvent::PendingLoaded(Ok(p)) => if p.len() == 0 {
                    self.phase = EnginePhase::FinishingAtOnce;
                    vec![EngineAction::EmitStatus(FileStatus::Running), EngineAction::Finalize]
                } else {
                    self.phase = EnginePhase::Allocating;
                    self.held = HeldPieces::at_start(
                        &p,
                        self.inputs.piece_size,
                        self.inputs.total_size,
                    );
                    self.pending = Some(p);
                    vec![
                        EngineAction::EmitStatus(FileStatus::Running),
                        EngineAction::EnsureSlots { count: self.slots() },
                    ]
                },
                _ => Vec::new(),
            },
            EnginePhase::FinishingAtOnce => match ev {
                EngineEvent::Finalized(Ok(_)) => {
                    self.phase = EnginePhase::Finished;
                    vec![EngineAction::EmitStatus(FileStatus::Done)]
                },
                EngineEvent::Finalized(Err(e)) => self.fail(EngineFailure::Finalize(e)),
                _ => Vec::new(),
            },
            EnginePhase::Allocating => match ev {
                EngineEvent::SlotsReady(Err(e)) => self.fail(EngineFailure::EnsureSlots(e)),
                EngineEvent::SlotsReady(Ok(records)) => {
                    let mut taken: Option<Vec<u32>> = None;
                    std::mem::swap(&mut taken, &mut self.pending);
                    match taken {
                        Some(pending) => self.start_workers(pending, records),
                        None => Vec::new(),
                    }
                },
                _ => Vec::new(),
            },
            EnginePhase::Active => match ev {
                EngineEvent::Command(cmd) => self.command_event(cmd),
                EngineEvent::Worker(WorkerMsg::PieceDone { piece }) => vec![
                    EngineAction::Commit { piece },
                ],
                EngineEvent::Committed { piece, result: Ok(_) } => {
                    self.grow(piece);
                    Vec::new()
                },
                EngineEvent::Committed { result: Err(e), .. } => self.stop(
                    Outcome::Failed(EngineFailure::Commit(e)),
                ),
                EngineEvent::Worker(WorkerMsg::Failed(text)) => self.stop(
                    Outcome::Failed(EngineFailure::Worker(text)),
                ),
                EngineEvent::Worker(WorkerMsg::RangesRefused) => self.refuse(),
                EngineEvent::Tick => vec![self.progress()],
                EngineEvent::WorkersClosed => {
                    self.phase = EnginePhase::Draining;
                    vec![EngineAction::JoinWorkers]
                },
                _ => self.attempt_event(ev),
            },
            EnginePhase::Draining => match ev {
                EngineEvent::Worker(WorkerMsg::PieceDone { piece }) => vec![
                    EngineAction::Commit { piece },
                ],
                EngineEvent::Committed { piece, result: Ok(_) } => {
                    self.grow(piece);
                    Vec::new()
                },
                EngineEvent::Worker(WorkerMsg::RangesRefused) => self.refuse_late(),
                EngineEvent::WorkersDrained => {
                    let mut taken: Option<Outcome> = None;
                    std::mem::swap(&mut taken, &mut self.outcome);
                    match taken {
                        Some(outcome) => self.conclude(outcome),
                        None => match self.switching {
                            Some(run) => self.switch(run),
                            None => {
                                self.phase = EnginePhase::Checking;
                                vec![EngineAction::CheckPending]
                            },
                        },
                    }
                },
                _ => self.attempt_event(ev),
            },
            EnginePhase::Checking => match ev {
                EngineEvent::PendingChecked(Ok(p)) => {
                    let outcome = if p.len() == 0 {
                        Outcome::Completed
                    } else if self.committed == 0 {
                        Outcome::Failed(EngineFailure::NoProgress)
                    } else {
                        Outcome::Failed(EngineFailure::BeforeCompletion)
                    };
                    self.conclude(outcome)
                },
                EngineEvent::PendingChecked(Err(e)) => self.conclude(
                    Outcome::Failed(EngineFailure::Pending(e)),
                ),
                _ => Vec::new(),
            },
            EnginePhase::Finishing => match ev {
                EngineEvent::Finalized(Ok(_)) => {
                    self.phase = EnginePhase::Finished;
                    let total: u32 = pieces_total(self.inputs.total_size, self.inputs.piece_size);
                    vec![
                        EngineAction::EmitProgress { pieces_done: total, pieces_total: total },
                        EngineAction::EmitStatus(FileStatus::Done),
                    ]
                },
                EngineEvent::Finalized(Err(e)) => self.fail(EngineFailure::Finalize(e)),
                _ => Vec::new(),
            },
            EnginePhase::Finished => Vec::new(),
        }
    }
}

} // verus!

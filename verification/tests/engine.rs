//! Engines, run against a source and storages in memory.

use std::collections::{HashMap, VecDeque};
use std::path::PathBuf;

use brook::domain::command::FileCommand;
use brook::domain::id::{FileId, WorkerId};
use brook::domain::spec::{compute_workers, FileSpec};
use brook::domain::status::{AttemptStatus, FileStatus, WorkerStatus};
use brook::error::Error;
use brook::ports::http::{RangeError, RangeGuard};
use brook::ports::noop_repos::{NoopAttemptRepo, NoopWorkerRepo};
use brook::service::engine::counter::ByteCounter;
use brook::service::engine::dispatch::{fetch_full_and_dispatch, DispatchStep, FullDispatch};
use brook::service::engine::drain::{drain_stream_into_piece, StreamEnd};
use brook::service::engine::geometry::{bytes_in, piece_offset, piece_size_at, pieces_total};
use brook::service::engine::held::HeldPieces;
use brook::service::engine::inputs::{EngineConfig, EngineFailure, EngineInputs};
use brook::service::engine::piece::{
    range_err_to_piece, write_err_to_piece, DrainEnd, DrainStep, PieceDrain, PieceError,
};
use brook::service::engine::supervisor::{
    assigned_worker, DownloadEngine, EngineAction, EngineEvent, EnginePhase,
};
use brook::service::engine::worker::{
    next_piece, AfterFailure, FullWorker, Gate, NextPiece, RangeWorker, RunState, WorkerMsg,
};
use brook::service::retry::RetryPolicy;
use brook::testing::memory_piece_storage::MemoryPieceStorage;
use brook::testing::memory_tracking::{MemoryAttemptRepo, MemoryWorkerRepo};
use brook::testing::mock_fetch::sequential_bytes;

#[derive(Clone, Copy)]
struct TestPlan {
    piece_size: u64,
    count: u32,
}

impl TestPlan {
    fn total(self) -> u64 {
        self.piece_size * self.count as u64
    }
}

enum MockOutcome {
    Transient500,
    Truncated(usize),
    Mutated,
    NoRanges,
}

/// A source that serves `bytes`, apart from what is planned for a piece.
struct Source {
    bytes: Vec<u8>,
    piece_size: u64,
    plans: HashMap<u32, VecDeque<MockOutcome>>,
    full_plan: VecDeque<MockOutcome>,
    calls: usize,
}

impl Source {
    fn always_ok(plan: TestPlan) -> Source {
        Source {
            bytes: sequential_bytes(plan.total()),
            piece_size: plan.piece_size,
            plans: HashMap::new(),
            full_plan: VecDeque::new(),
            calls: 0,
        }
    }

    fn answer(&mut self, from: usize, to: usize, outcome: Option<MockOutcome>) -> Result<Vec<Vec<u8>>, RangeError> {
        self.calls += 1;
        match outcome {
            None => {
                let mid = from + (to - from) / 2;
                Ok(vec![self.bytes[from..mid].to_vec(), self.bytes[mid..to].to_vec()])
            }
            Some(MockOutcome::Transient500) => Err(RangeError::UnexpectedStatus { code: 503 }),
            Some(MockOutcome::Truncated(n)) => Ok(vec![self.bytes[from..from + n].to_vec()]),
            Some(MockOutcome::Mutated) => Err(RangeError::SourceMutated),
            Some(MockOutcome::NoRanges) => Err(RangeError::RangeNotSupported),
        }
    }

    fn fetch_range(&mut self, offset: u64, len: u64) -> Result<Vec<Vec<u8>>, RangeError> {
        let piece = (offset / self.piece_size) as u32;
        let outcome = self.plans.get_mut(&piece).and_then(|q| q.pop_front());
        self.answer(offset as usize, (offset + len) as usize, outcome)
    }

    fn fetch_full(&mut self) -> Result<Vec<Vec<u8>>, RangeError> {
        let outcome = self.full_plan.pop_front();
        let len = self.bytes.len();
        self.answer(0, len, outcome)
    }
}

fn policy() -> RetryPolicy {
    RetryPolicy {
        base_nanos: 5_000_000,
        max_delay_nanos: 20_000_000,
        max_attempts: 5,
        jitter_ppm: 0,
    }
}

fn inputs_range(plan: TestPlan) -> EngineInputs {
    EngineInputs {
        spec: FileSpec {
            url: "https://test/f".into(),
            target_dir: PathBuf::from("/tmp"),
            filename: Some("f".into()),
            linear: false,
        },
        total_size: plan.total(),
        piece_size: plan.piece_size,
        accepts_ranges: true,
        guard: None,
        effective_url: None,
    }
}

/// Why an attempt at a piece failed: the request, or what came of the response.
enum Fault {
    Request(RangeError),
    Piece(PieceError),
}

/// Everything that one session of an engine works with. Rows are kept where repositories are
/// given.
struct Session {
    file: FileId,
    storage: MemoryPieceStorage,
    source: Source,
    rows: Option<(MemoryWorkerRepo, MemoryAttemptRepo)>,
    statuses: Vec<FileStatus>,
    failures: Vec<EngineFailure>,
    progress: Vec<(u32, u32)>,
    waits: Vec<u128>,
    run: RunState,
    pending: VecDeque<u32>,
    ids: Vec<Option<WorkerId>>,
    ranges: bool,
    counter: ByteCounter,
    sizes: TestPlan,
    late: Vec<WorkerMsg>,
    url: String,
    guard: Option<RangeGuard>,
    commit_fault: Option<Error>,
    /// What the storage answers to the writes of an attempt, where they do not all go well.
    answers: Vec<Result<(), Error>>,
}

impl Session {
    fn new(plan: TestPlan) -> Session {
        Session {
            file: FileId::new(),
            storage: MemoryPieceStorage::new(plan.count, plan.piece_size),
            source: Source::always_ok(plan),
            rows: None,
            statuses: Vec::new(),
            failures: Vec::new(),
            progress: Vec::new(),
            waits: Vec::new(),
            run: RunState::Running,
            pending: VecDeque::new(),
            ids: Vec::new(),
            ranges: true,
            counter: ByteCounter::new(&vec![], plan.piece_size, plan.total(), 0),
            sizes: plan,
            late: Vec::new(),
            url: String::new(),
            guard: None,
            commit_fault: None,
            answers: Vec::new(),
        }
    }

    fn with_rows(plan: TestPlan, file: FileId, workers: MemoryWorkerRepo, attempts: MemoryAttemptRepo) -> Session {
        let mut s = Session::new(plan);
        s.file = file;
        s.rows = Some((workers, attempts));
        s
    }

    /// Performs an action and gives the event that answers it.
    fn perform(&mut self, action: EngineAction) -> Option<EngineEvent> {
        match action {
            EngineAction::LoadPending => {
                Some(EngineEvent::PendingLoaded(self.storage.pending_pieces()))
            }
            EngineAction::CheckPending => {
                Some(EngineEvent::PendingChecked(self.storage.pending_pieces()))
            }
            EngineAction::EnsureSlots { count } => Some(EngineEvent::SlotsReady(match &mut self.rows {
                Some((workers, _)) => workers.ensure_slots(self.file, count),
                None => NoopWorkerRepo.ensure_slots(self.file, count),
            })),
            EngineAction::Spawn { url, guard, ranges, count, records, pending } => {
                self.url = url;
                self.guard = guard;
                self.ranges = ranges;
                self.ids = (0..count).map(|i| assigned_worker(&records, i)).collect();
                self.counter = ByteCounter::new(
                    &pending,
                    self.sizes.piece_size,
                    self.sizes.total(),
                    count,
                );
                self.pending = pending.into();
                None
            }
            EngineAction::SpawnFull { url, worker } => {
                self.url = url;
                self.ranges = false;
                self.ids = vec![worker];
                None
            }
            EngineAction::SetRun(run) => {
                self.run = run;
                None
            }
            EngineAction::EmitStatus(status) => {
                self.statuses.push(status);
                None
            }
            EngineAction::EmitFailed(failure) => {
                self.statuses.push(FileStatus::Failed);
                self.failures.push(failure);
                None
            }
            EngineAction::EmitProgress { pieces_done, pieces_total } => {
                self.progress.push((pieces_done, pieces_total));
                None
            }
            EngineAction::ResetSpeed => None,
            EngineAction::Commit { piece } => {
                let result = match self.commit_fault.take() {
                    Some(e) => Err(e),
                    None => self.storage.commit_done(piece),
                };
                Some(EngineEvent::Committed { piece, result })
            }
            EngineAction::StartAttempt { worker_id, piece } => {
                let attempt = match &mut self.rows {
                    Some((_, attempts)) => attempts.start(self.file, piece, worker_id),
                    None => NoopAttemptRepo.start(self.file, piece, worker_id),
                };
                Some(EngineEvent::AttemptOpened {
                    worker_id,
                    piece,
                    attempt: attempt.ok().map(|r| r.id),
                })
            }
            EngineAction::FinishAttempt { attempt, bytes } => {
                if let Some((_, attempts)) = &mut self.rows {
                    attempts.finish(attempt, bytes).unwrap();
                }
                None
            }
            EngineAction::FailAttempt { attempt, error } => {
                if let Some((_, attempts)) = &mut self.rows {
                    attempts.fail(attempt, error).unwrap();
                }
                None
            }
            EngineAction::JoinWorkers => Some(EngineEvent::WorkersDrained),
            EngineAction::MarkDone(id) => {
                if let Some((workers, _)) = &mut self.rows {
                    workers.mark_done(id).unwrap();
                }
                None
            }
            EngineAction::MarkFailed(id, failure) => {
                if let Some((workers, _)) = &mut self.rows {
                    workers.mark_failed(id, failure.to_string()).unwrap();
                }
                None
            }
            EngineAction::MarkCancelled(id) => {
                if let Some((workers, _)) = &mut self.rows {
                    workers.mark_cancelled(id).unwrap();
                }
                None
            }
            EngineAction::PauseAttempts => {
                if let Some((_, attempts)) = &mut self.rows {
                    attempts.pause_all_running_for_file(self.file).unwrap();
                }
                None
            }
            EngineAction::Finalize => Some(EngineEvent::Finalized(self.storage.finalize())),
            EngineAction::Abort => {
                self.storage.abort().unwrap();
                None
            }
        }
    }

    fn perform_all(&mut self, engine: &mut DownloadEngine, actions: Vec<EngineAction>) {
        for action in actions {
            if matches!(action, EngineAction::JoinWorkers) {
                let late = std::mem::take(&mut self.late);
                self.report(engine, late);
            }
            if let Some(ev) = self.perform(action) {
                self.tell(engine, ev);
            }
        }
    }

    fn tell(&mut self, engine: &mut DownloadEngine, ev: EngineEvent) {
        let actions = engine.step(ev);
        self.perform_all(engine, actions);
    }

    fn report(&mut self, engine: &mut DownloadEngine, messages: Vec<WorkerMsg>) {
        for m in messages {
            self.tell(engine, EngineEvent::Worker(m));
        }
    }

    fn start(&mut self, inputs: EngineInputs) -> DownloadEngine {
        let (mut engine, actions) = DownloadEngine::spawn(self.file, inputs);
        self.perform_all(&mut engine, actions);
        engine
    }

    /// One attempt at one piece: what came of it.
    fn attempt_piece(&mut self, i: usize, worker: &RangeWorker, piece: u32, write_buffer: usize) -> Result<(), Fault> {
        let offset = piece_offset(piece, worker.piece_size);
        let size = piece_size_at(piece, worker.piece_size, worker.total_size);
        let chunks = match self.source.fetch_range(offset, size) {
            Ok(chunks) => chunks,
            Err(e) => return Err(Fault::Request(e)),
        };
        let run =
            drain_stream_into_piece(&chunks, &StreamEnd::Eof, size, write_buffer, &self.answers);
        for w in &run.writes {
            if self.answers.is_empty() {
                self.storage.write_piece_bytes(piece, w.offset, &w.bytes).unwrap();
                self.counter.wrote(i, piece, w.bytes.len());
            }
        }
        run.outcome.map_err(Fault::Piece)
    }

    /// Lets worker `i` work on one piece. Gives whether there was one.
    fn work(&mut self, engine: &mut DownloadEngine, i: usize, plan: TestPlan) -> bool {
        match next_piece(self.run, &mut self.pending) {
            NextPiece::Take(piece) => {
                let mut worker = RangeWorker::new(self.ids[i], plan.piece_size, plan.total());
                let job = worker.begin(piece);
                assert_eq!(job.offset, piece as u64 * plan.piece_size);
                self.report(engine, job.messages);
                loop {
                    match self.attempt_piece(i, &worker, piece, 16) {
                        Ok(()) => {
                            self.counter.completed(i, &vec![piece]);
                            let messages = worker.succeeded();
                            self.report(engine, messages);
                            return true;
                        }
                        Err(fault) => {
                            self.counter.taken_back(i);
                            let next = match fault {
                                Fault::Request(e) => worker.request_failed(&e, &policy()),
                                Fault::Piece(e) => worker.attempt_failed(e, &policy()),
                            };
                            match next {
                                AfterFailure::Again { before, wait_nanos, after } => {
                                    self.report(engine, before);
                                    self.waits.push(wait_nanos);
                                    self.report(engine, after);
                                }
                                AfterFailure::Stop { messages } => {
                                    self.report(engine, messages);
                                    return false;
                                }
                            }
                        }
                    }
                }
            }
            NextPiece::Wait | NextPiece::Stop => false,
        }
    }

    /// Lets the only worker of a session without ranges work.
    fn work_full(&mut self, engine: &mut DownloadEngine, plan: TestPlan) {
        let mut worker = FullWorker::new(self.ids[0], plan.piece_size, plan.total());
        loop {
            match worker.gate(self.run) {
                Gate::Go => {}
                Gate::Wait | Gate::Stop => return,
            }
            let messages = worker.begin();
            self.report(engine, messages);
            let result = match self.source.fetch_full() {
                Err(e) => Err(range_err_to_piece(&e)),
                Ok(chunks) => {
                    let run = fetch_full_and_dispatch(
                        &chunks,
                        &StreamEnd::Eof,
                        plan.piece_size,
                        plan.total(),
                        &vec![],
                    );
                    for w in &run.writes {
                        self.storage.write_piece_bytes(w.piece, w.offset, &w.bytes).unwrap();
                        self.counter.wrote(0, w.piece, w.bytes.len());
                    }
                    run.outcome
                }
            };
            match result {
                Ok(pieces) => {
                    self.counter.completed(0, &pieces);
                    let messages = worker.succeeded(&pieces);
                    self.report(engine, messages);
                    return;
                }
                Err(e) => {
                    self.counter.taken_back(0);
                    match worker.attempt_failed(e, &policy()) {
                        AfterFailure::Again { before, wait_nanos, after } => {
                            self.report(engine, before);
                            self.waits.push(wait_nanos);
                            self.report(engine, after);
                        }
                        AfterFailure::Stop { messages } => {
                            self.report(engine, messages);
                            return;
                        }
                    }
                }
            }
        }
    }

    /// Lets the workers run until there is nothing left to do.
    fn run_out(&mut self, engine: &mut DownloadEngine, plan: TestPlan) {
        let mut i = 0;
        while self.ranges
            && engine.phase() == EnginePhase::Active
            && self.work(engine, i % self.ids.len(), plan)
        {
            i += 1;
        }
        if !self.ranges {
            self.work_full(engine, plan);
        }
        if engine.phase() == EnginePhase::Active && self.run != RunState::Paused {
            self.tell(engine, EngineEvent::WorkersClosed);
        }
    }

    fn complete(&mut self, inputs: EngineInputs, plan: TestPlan) -> DownloadEngine {
        let mut engine = self.start(inputs);
        self.run_out(&mut engine, plan);
        engine
    }
}

#[test]
fn tests_happy_path_range_completes() {
    let plan = TestPlan { piece_size: 20, count: 3 };
    let mut s = Session::new(plan);
    let engine = s.complete(inputs_range(plan), plan);
    assert_eq!(engine.phase(), EnginePhase::Finished);
    assert_eq!(engine.id(), s.file);
    assert_eq!(s.statuses, vec![FileStatus::Running, FileStatus::Done]);
    let snap = s.storage.snapshot();
    assert!(snap.finalized);
    assert_eq!(snap.committed, vec![0, 1, 2]);
    assert_eq!(s.storage.assembled_bytes(), sequential_bytes(60));
    assert_eq!(s.progress.last(), Some(&(3, 3)));
    assert_eq!(s.url, "https://test/f");
}

#[test]
fn tests_transient_500_is_retried_and_succeeds() {
    let plan = TestPlan { piece_size: 20, count: 2 };
    let mut s = Session::new(plan);
    s.source.plans.insert(
        0,
        VecDeque::from(vec![MockOutcome::Transient500, MockOutcome::Transient500]),
    );
    s.complete(inputs_range(plan), plan);
    assert!(s.statuses.contains(&FileStatus::Done));
    assert!(s.storage.snapshot().finalized);
    assert_eq!(s.waits, vec![5_000_000, 10_000_000]);
    assert_eq!(s.source.calls, 4);
}

#[test]
fn tests_truncated_piece_retries_until_success() {
    let plan = TestPlan { piece_size: 32, count: 1 };
    let mut s = Session::new(plan);
    s.source.plans.insert(0, VecDeque::from(vec![MockOutcome::Truncated(10)]));
    s.complete(inputs_range(plan), plan);
    assert!(s.storage.snapshot().finalized);
    assert_eq!(s.storage.assembled_bytes(), sequential_bytes(32));
}

#[test]
fn tests_pause_then_resume_emits_states_and_completes() {
    let plan = TestPlan { piece_size: 20, count: 6 };
    let mut s = Session::new(plan);
    let mut engine = s.start(inputs_range(plan));
    assert!(s.work(&mut engine, 0, plan));
    s.tell(&mut engine, EngineEvent::Command(FileCommand::Pause));
    assert!(!s.work(&mut engine, 0, plan));
    s.tell(&mut engine, EngineEvent::Command(FileCommand::Pause));
    s.tell(&mut engine, EngineEvent::Command(FileCommand::Resume));
    s.tell(&mut engine, EngineEvent::Command(FileCommand::Resume));
    s.run_out(&mut engine, plan);
    assert_eq!(
        s.statuses,
        vec![FileStatus::Running, FileStatus::Paused, FileStatus::Running, FileStatus::Done]
    );
    assert_eq!(s.storage.assembled_bytes(), sequential_bytes(120));
}

#[test]
fn tests_cancel_aborts_storage() {
    let plan = TestPlan { piece_size: 20, count: 6 };
    let mut s = Session::new(plan);
    let mut engine = s.start(inputs_range(plan));
    assert!(s.work(&mut engine, 0, plan));
    s.tell(&mut engine, EngineEvent::Command(FileCommand::Cancel));
    assert!(s.storage.snapshot().aborted);
    assert_eq!(s.statuses, vec![FileStatus::Running, FileStatus::Cancelled]);
    assert_eq!(engine.phase(), EnginePhase::Finished);
    s.tell(&mut engine, EngineEvent::Command(FileCommand::Resume));
    s.tell(&mut engine, EngineEvent::Tick);
    assert_eq!(s.statuses.len(), 2);
}

#[test]
fn tests_progress_events_throttled_to_interval() {
    let plan = TestPlan { piece_size: 20, count: 8 };
    let mut s = Session::new(plan);
    let mut engine = s.start(inputs_range(plan));
    assert!(s.progress.is_empty());
    s.tell(&mut engine, EngineEvent::Tick);
    assert_eq!(s.progress, vec![(0, 8)]);
    s.run_out(&mut engine, plan);
    // One report for the tick and one at the end, however many pieces arrive.
    assert_eq!(s.progress, vec![(0, 8), (8, 8)]);
}

#[test]
fn tests_no_range_mode_uses_single_worker_and_completes() {
    let plan = TestPlan { piece_size: 10, count: 4 };
    let mut s = Session::new(plan);
    let mut inputs = inputs_range(plan);
    inputs.accepts_ranges = false;
    s.complete(inputs, plan);
    assert!(s.statuses.contains(&FileStatus::Done));
    assert_eq!(s.ids.len(), 1);
    assert_eq!(s.source.calls, 1);
    assert!(s.storage.snapshot().finalized);
    assert_eq!(s.storage.assembled_bytes(), sequential_bytes(40));
}

#[test]
fn body_without_ranges_is_fetched_anew_after_trouble() {
    let plan = TestPlan { piece_size: 10, count: 4 };
    let mut s = Session::with_rows(plan, FileId::new(), MemoryWorkerRepo::new(), MemoryAttemptRepo::new());
    s.source.full_plan = VecDeque::from(vec![MockOutcome::Transient500, MockOutcome::Truncated(25)]);
    let mut inputs = inputs_range(plan);
    inputs.accepts_ranges = false;
    s.complete(inputs, plan);
    assert!(s.storage.snapshot().finalized);
    assert_eq!(s.source.calls, 3);
    let (_, attempts) = s.rows.as_ref().unwrap();
    let rows = attempts.by_piece(s.file, 0);
    assert_eq!(rows.len(), 3);
    assert_eq!(rows.iter().filter(|r| r.status == AttemptStatus::Failed).count(), 2);
    let done: Vec<_> = rows.iter().filter(|r| r.status == AttemptStatus::Done).collect();
    assert_eq!(done.len(), 1);
    assert_eq!(done[0].bytes, 40);
    assert_eq!(s.counter.done(), 40);
}

#[test]
fn tests_two_sessions_produce_disjoint_worker_sets() {
    let plan = TestPlan { piece_size: 20, count: 4 };
    let file = FileId::new();
    let mut first = Session::with_rows(plan, file, MemoryWorkerRepo::new(), MemoryAttemptRepo::new());
    let mut engine = first.start(inputs_range(plan));
    assert!(first.work(&mut engine, 0, plan));
    drop(engine);
    let (workers, attempts) = first.rows.take().unwrap();
    let first_ids: Vec<_> = workers.by_file(file).iter().map(|w| w.id).collect();
    let per_session = compute_workers(plan.total()) as usize;
    assert_eq!(first_ids.len(), per_session);
    for w in workers.by_file(file) {
        assert_eq!(w.status, WorkerStatus::Running);
    }

    let mut second = Session::with_rows(plan, file, workers, attempts);
    second.complete(inputs_range(plan), plan);
    let (workers, _) = second.rows.take().unwrap();
    let all = workers.by_file(file);
    assert_eq!(all.len(), per_session * 2);
    let second_ids: Vec<_> = all
        .iter()
        .filter(|w| !first_ids.contains(&w.id))
        .map(|w| w.id)
        .collect();
    assert_eq!(second_ids.len(), per_session);
    for w in all {
        if first_ids.contains(&w.id) {
            assert_eq!(w.status, WorkerStatus::Paused);
        } else {
            assert_eq!(w.status, WorkerStatus::Done);
        }
    }
}

#[test]
fn tests_crash_recovery_sweep_paves_the_way_for_next_session() {
    let mut workers = MemoryWorkerRepo::new();
    let mut attempts = MemoryAttemptRepo::new();
    let file = FileId::new();
    let stale = workers.ensure_slots(file, 3).unwrap();
    assert!(workers.by_file(file).iter().all(|w| w.status == WorkerStatus::Running));

    workers.pause_all_running_globally().unwrap();
    attempts.pause_all_running_globally().unwrap();
    for w in workers.by_file(file) {
        assert_eq!(w.status, WorkerStatus::Paused);
    }

    let plan = TestPlan { piece_size: 20, count: 1 };
    let mut s = Session::with_rows(plan, file, workers, attempts);
    s.complete(inputs_range(plan), plan);
    let (workers, _) = s.rows.take().unwrap();
    let all = workers.by_file(file);
    let paused: Vec<_> = all.iter().filter(|w| stale.iter().any(|r| r.id == w.id)).collect();
    assert_eq!(paused.len(), 3);
    for w in &paused {
        assert_eq!(w.status, WorkerStatus::Paused);
    }
    let fresh: Vec<_> = all.iter().filter(|w| !stale.iter().any(|r| r.id == w.id)).collect();
    assert!(!fresh.is_empty());
    for w in fresh {
        assert_eq!(w.status, WorkerStatus::Done);
    }
}

#[test]
fn tests_piece_retry_appends_new_attempt_row() {
    let plan = TestPlan { piece_size: 20, count: 1 };
    let file = FileId::new();
    let mut s = Session::with_rows(plan, file, MemoryWorkerRepo::new(), MemoryAttemptRepo::new());
    s.source.plans.insert(0, VecDeque::from(vec![MockOutcome::Transient500]));
    s.complete(inputs_range(plan), plan);
    let (_, attempts) = s.rows.take().unwrap();
    let rows = attempts.by_piece(file, 0);
    assert_eq!(rows.len(), 2, "expected failed+done attempts, got {:?}", rows);
    let statuses: Vec<_> = rows.iter().map(|r| r.status).collect();
    assert!(statuses.contains(&AttemptStatus::Failed));
    assert!(statuses.contains(&AttemptStatus::Done));
}

#[test]
fn tests_cancel_marks_workers_cancelled() {
    let plan = TestPlan { piece_size: 20, count: 6 };
    let file = FileId::new();
    let mut s = Session::with_rows(plan, file, MemoryWorkerRepo::new(), MemoryAttemptRepo::new());
    let mut engine = s.start(inputs_range(plan));
    let worker_id = s.ids[0].unwrap();
    s.tell(
        &mut engine,
        EngineEvent::Worker(WorkerMsg::AttemptStarted { worker_id, piece: 0 }),
    );
    s.tell(&mut engine, EngineEvent::Command(FileCommand::Cancel));
    let (workers, attempts) = s.rows.take().unwrap();
    for w in workers.by_file(file) {
        assert_eq!(w.status, WorkerStatus::Cancelled, "worker {:?} not cancelled", w);
    }
    let still_running = attempts
        .snapshot()
        .into_iter()
        .filter(|r| r.file_id == file && r.status == AttemptStatus::Running)
        .count();
    assert_eq!(still_running, 0);
    assert_eq!(attempts.by_piece(file, 0)[0].status, AttemptStatus::Paused);
}

#[test]
fn worker_rows_are_fresh_between_sessions() {
    let plan = TestPlan { piece_size: 20, count: 2 };
    let file = FileId::new();
    let mut first = Session::with_rows(plan, file, MemoryWorkerRepo::new(), MemoryAttemptRepo::new());
    first.complete(inputs_range(plan), plan);
    let (workers, attempts) = first.rows.take().unwrap();
    let first_ids: Vec<_> = workers.by_file(file).iter().map(|w| w.id).collect();
    assert!(!first_ids.is_empty());
    let first_count = first_ids.len();

    let mut second = Session::with_rows(plan, file, workers, attempts);
    second.complete(inputs_range(plan), plan);
    let (workers, _) = second.rows.take().unwrap();
    let all = workers.by_file(file);
    assert_eq!(all.len(), first_count * 2);
    let fresh: Vec<_> = all.iter().filter(|w| !first_ids.contains(&w.id)).collect();
    assert_eq!(fresh.len(), first_count);
}

#[test]
fn resumed_download_counts_what_is_on_disk() {
    let plan = TestPlan { piece_size: 20, count: 4 };
    let mut s = Session::new(plan);
    for piece in [0u32, 2] {
        let from = piece as usize * 20;
        let bytes = sequential_bytes(80)[from..from + 20].to_vec();
        s.storage.write_piece_bytes(piece, 0, &bytes).unwrap();
        s.storage.commit_done(piece).unwrap();
    }
    let mut engine = s.start(inputs_range(plan));
    assert_eq!(s.pending, VecDeque::from(vec![1, 3]));
    assert_eq!(s.counter.done(), 40);
    s.tell(&mut engine, EngineEvent::Tick);
    assert_eq!(s.progress, vec![(2, 4)]);
    assert!(s.work(&mut engine, 0, plan));
    s.tell(&mut engine, EngineEvent::Tick);
    assert_eq!(s.progress.last(), Some(&(3, 4)));
    assert_eq!(s.counter.done(), 60);
    s.run_out(&mut engine, plan);
    assert_eq!(s.counter.done(), 80);
    assert_eq!(s.source.calls, 2);
    assert_eq!(s.storage.assembled_bytes(), sequential_bytes(80));
}

#[test]
fn complete_download_is_finished_at_once() {
    let plan = TestPlan { piece_size: 4, count: 1 };
    let mut s = Session::new(plan);
    s.storage.write_piece_bytes(0, 0, &[1, 2, 3, 4]).unwrap();
    s.storage.commit_done(0).unwrap();
    let engine = s.start(inputs_range(plan));
    assert_eq!(engine.phase(), EnginePhase::Finished);
    assert_eq!(s.statuses, vec![FileStatus::Running, FileStatus::Done]);
    assert_eq!(s.source.calls, 0);
}

#[test]
fn mutated_source_fails_the_download() {
    let plan = TestPlan { piece_size: 16, count: 1 };
    let mut s = Session::with_rows(plan, FileId::new(), MemoryWorkerRepo::new(), MemoryAttemptRepo::new());
    s.source.plans.insert(0, VecDeque::from(vec![MockOutcome::Mutated]));
    let mut inputs = inputs_range(plan);
    inputs.guard = Some(RangeGuard::Etag("\"v1\"".into()));
    inputs.effective_url = Some("https://mirror/f".into());
    s.complete(inputs, plan);
    assert_eq!(s.guard, Some(RangeGuard::Etag("\"v1\"".into())));
    assert_eq!(s.url, "https://mirror/f");
    assert_eq!(s.statuses, vec![FileStatus::Running, FileStatus::Failed]);
    assert_eq!(s.failures[0].to_string(), RangeError::SourceMutated.to_string());
    assert!(s.waits.is_empty());
    let (workers, _) = s.rows.as_ref().unwrap();
    assert_eq!(workers.by_file(s.file)[0].status, WorkerStatus::Failed);
    assert!(!s.storage.snapshot().aborted);
}

#[test]
fn refused_ranges_lead_to_the_whole_body() {
    let plan = TestPlan { piece_size: 16, count: 3 };
    let file = FileId::new();
    let mut s = Session::with_rows(plan, file, MemoryWorkerRepo::new(), MemoryAttemptRepo::new());
    s.source.plans.insert(1, VecDeque::from(vec![MockOutcome::NoRanges]));
    s.complete(inputs_range(plan), plan);
    assert_eq!(s.statuses, vec![FileStatus::Running, FileStatus::Done]);
    assert_eq!(s.storage.assembled_bytes(), sequential_bytes(48));
    // One piece by range, one request that was refused, and the whole body.
    assert_eq!(s.source.calls, 3);
    let (workers, attempts) = s.rows.as_ref().unwrap();
    assert_eq!(workers.by_file(file)[0].status, WorkerStatus::Done);
    assert_eq!(attempts.by_piece(file, 1)[0].status, AttemptStatus::Failed);
    assert!(attempts.snapshot().iter().all(|r| r.status != AttemptStatus::Running));
}

#[test]
fn refusal_among_the_last_reports_leads_to_the_whole_body() {
    let plan = TestPlan { piece_size: 16, count: 3 };
    let mut s = Session::new(plan);
    let mut engine = s.start(inputs_range(plan));
    assert!(s.work(&mut engine, 0, plan));
    s.late = vec![WorkerMsg::RangesRefused];
    s.tell(&mut engine, EngineEvent::WorkersClosed);
    assert_eq!(engine.phase(), EnginePhase::Active);
    assert_eq!(s.run, RunState::Running);
    assert!(!s.ranges);
    s.tell(&mut engine, EngineEvent::Tick);
    assert_eq!(s.progress, vec![(1, 3)]);
    s.run_out(&mut engine, plan);
    assert_eq!(s.statuses, vec![FileStatus::Running, FileStatus::Done]);
    assert_eq!(s.storage.assembled_bytes(), sequential_bytes(48));
    assert_eq!(s.counter.done(), 48);

    // Once it is known how the engine ends, a refusal changes nothing.
    let mut s = Session::new(plan);
    let mut engine = s.start(inputs_range(plan));
    s.late = vec![WorkerMsg::RangesRefused];
    s.tell(&mut engine, EngineEvent::Command(FileCommand::Cancel));
    assert_eq!(s.statuses, vec![FileStatus::Running, FileStatus::Cancelled]);
}

#[test]
fn whole_body_after_a_restart_counts_complete_pieces_once() {
    let plan = TestPlan { piece_size: 10, count: 8 };
    let mut s = Session::new(plan);
    for piece in 0u32..7 {
        let from = piece as usize * 10;
        s.storage.write_piece_bytes(piece, 0, &sequential_bytes(80)[from..from + 10]).unwrap();
        s.storage.commit_done(piece).unwrap();
    }
    let mut inputs = inputs_range(plan);
    inputs.accepts_ranges = false;
    let mut engine = s.start(inputs);
    s.tell(&mut engine, EngineEvent::Tick);
    assert_eq!(s.progress, vec![(7, 8)]);
    assert_eq!(s.counter.done(), 70);
    s.run_out(&mut engine, plan);
    assert_eq!(s.progress.last(), Some(&(8, 8)));
    assert_eq!(s.counter.done(), 80);
    assert_eq!(s.statuses, vec![FileStatus::Running, FileStatus::Done]);
}

#[test]
fn counter_takes_back_what_a_failed_attempt_wrote() {
    let mut c = ByteCounter::new(&vec![1, 2], 10, 25, 2);
    assert_eq!(c.done(), 10);
    c.wrote(0, 1, 4);
    c.wrote(1, 2, 3);
    c.wrote(0, 0, 9);
    assert_eq!(c.done(), 17);
    c.taken_back(0);
    assert_eq!(c.done(), 13);
    c.completed(1, &vec![2]);
    assert_eq!(c.done(), 15);
    c.wrote(0, 1, 100);
    assert_eq!(c.done(), 25);
    c.completed(0, &vec![1]);
    assert_eq!(c.done(), 25);
    c.wrote(7, 1, 1);
    c.taken_back(7);
    assert_eq!(c.done(), 25);
}

#[test]
fn pieces_are_held_once() {
    let mut h = HeldPieces::at_start(&vec![2, 0, 2, 9], 10, 25);
    assert_eq!((h.count(), h.bytes()), (1, 10));
    assert!(h.holds(1));
    assert!(!h.holds(2));
    assert!(!h.holds(9));
    h.insert(2);
    h.insert(2);
    h.insert(9);
    assert_eq!((h.count(), h.bytes()), (2, 15));
    let none = HeldPieces::none(10, 25);
    assert_eq!((none.count(), none.bytes()), (0, 0));
}

#[test]
fn pause_outlives_refused_ranges() {
    let plan = TestPlan { piece_size: 16, count: 3 };
    let mut s = Session::new(plan);
    let mut engine = s.start(inputs_range(plan));
    s.tell(&mut engine, EngineEvent::Command(FileCommand::Pause));
    s.tell(&mut engine, EngineEvent::Worker(WorkerMsg::RangesRefused));
    assert_eq!(engine.phase(), EnginePhase::Active);
    assert_eq!(s.run, RunState::Paused);
    s.tell(&mut engine, EngineEvent::Command(FileCommand::Resume));
    s.run_out(&mut engine, plan);
    assert_eq!(s.storage.assembled_bytes(), sequential_bytes(48));
    // A worker that fetches the whole body cannot be refused ranges.
    let mut s = Session::new(plan);
    let mut inputs = inputs_range(plan);
    inputs.accepts_ranges = false;
    let mut engine = s.start(inputs);
    s.tell(&mut engine, EngineEvent::Worker(WorkerMsg::RangesRefused));
    assert_eq!(engine.phase(), EnginePhase::Active);
}

#[test]
fn endless_trouble_uses_up_the_attempts() {
    let plan = TestPlan { piece_size: 16, count: 1 };
    let mut s = Session::new(plan);
    s.source.plans.insert(0, (0..9).map(|_| MockOutcome::Transient500).collect());
    s.complete(inputs_range(plan), plan);
    assert_eq!(s.source.calls, 5);
    assert_eq!(s.waits, vec![5_000_000, 10_000_000, 20_000_000, 20_000_000]);
    assert_eq!(s.statuses.last(), Some(&FileStatus::Failed));
}

#[test]
fn failed_commit_fails_the_download() {
    let plan = TestPlan { piece_size: 16, count: 2 };
    let mut s = Session::new(plan);
    s.commit_fault = Some(Error::Other("disk gone".into()));
    s.complete(inputs_range(plan), plan);
    assert_eq!(s.failures, vec![EngineFailure::Commit(Error::Other("disk gone".into()))]);
    assert_eq!(s.failures[0].to_string(), "commit: disk gone");
}

#[test]
fn workers_that_stop_early_fail_the_download() {
    let plan = TestPlan { piece_size: 16, count: 3 };
    let mut s = Session::new(plan);
    let mut engine = s.start(inputs_range(plan));
    s.tell(&mut engine, EngineEvent::WorkersClosed);
    assert_eq!(s.failures, vec![EngineFailure::NoProgress]);

    let mut s = Session::new(plan);
    let mut engine = s.start(inputs_range(plan));
    assert!(s.work(&mut engine, 0, plan));
    s.tell(&mut engine, EngineEvent::WorkersClosed);
    assert_eq!(s.failures, vec![EngineFailure::BeforeCompletion]);
}

#[test]
fn storage_and_repository_faults_are_named() {
    let plan = TestPlan { piece_size: 16, count: 1 };
    let fault = || Error::Other("x".into());
    let texts = |ev: Vec<EngineEvent>| {
        let (mut engine, _) = DownloadEngine::spawn(FileId::new(), inputs_range(plan));
        let mut out = Vec::new();
        for e in ev {
            for a in engine.step(e) {
                if let EngineAction::EmitFailed(f) = a {
                    out.push(f.to_string());
                }
            }
        }
        out
    };
    assert_eq!(texts(vec![EngineEvent::PendingLoaded(Err(fault()))]), vec!["pending_pieces: x"]);
    assert_eq!(
        texts(vec![
            EngineEvent::PendingLoaded(Ok(vec![0])),
            EngineEvent::SlotsReady(Err(fault())),
        ]),
        vec!["ensure_slots: x"]
    );
    assert_eq!(
        texts(vec![
            EngineEvent::PendingLoaded(Ok(vec![])),
            EngineEvent::Finalized(Err(fault())),
        ]),
        vec!["finalize: x"]
    );
    assert_eq!(
        texts(vec![
            EngineEvent::PendingLoaded(Ok(vec![0])),
            EngineEvent::SlotsReady(Ok(vec![])),
            EngineEvent::WorkersClosed,
            EngineEvent::WorkersDrained,
            EngineEvent::PendingChecked(Err(fault())),
        ]),
        vec!["pending: x"]
    );
}

#[test]
fn pieces_lie_side_by_side() {
    assert_eq!(pieces_total(100, 30), 4);
    assert_eq!(pieces_total(90, 30), 3);
    assert_eq!(pieces_total(0, 30), 0);
    assert_eq!(piece_offset(3, 30), 90);
    assert_eq!(piece_size_at(2, 30, 100), 30);
    assert_eq!(piece_size_at(3, 30, 100), 10);
    assert_eq!(bytes_in(&vec![0, 3], 30, 100), 40);
}

#[test]
fn short_response_is_truncated() {
    let run = drain_stream_into_piece(&vec![vec![1, 2, 3], vec![4, 5]], &StreamEnd::Eof, 8, 2, &vec![]);
    let writes: Vec<(u64, Vec<u8>)> = run.writes.into_iter().map(|w| (w.offset, w.bytes)).collect();
    assert_eq!(writes, vec![(0, vec![1, 2]), (2, vec![3, 4]), (4, vec![5])]);
    let e = run.outcome.unwrap_err();
    assert!(e.is_transient());
    assert!(e.into_text().contains("truncated"));
}

#[test]
fn response_that_fits_is_written_whole() {
    let run = drain_stream_into_piece(&vec![vec![1, 2, 3, 4, 5]], &StreamEnd::Eof, 5, 4, &vec![]);
    assert!(run.outcome.is_ok());
    assert_eq!(run.writes.len(), 2);
    assert_eq!(run.writes[1].offset, 4);
    assert_eq!(run.writes[1].bytes, vec![5]);
}

#[test]
fn response_that_breaks_off_is_as_bad_as_its_cause() {
    let chunks = vec![vec![1u8, 2, 3]];
    let run = drain_stream_into_piece(&chunks, &StreamEnd::Fault(RangeError::Timeout), 5, 2, &vec![]);
    assert_eq!(run.writes.len(), 1);
    assert!(run.outcome.unwrap_err().is_transient());
    let run = drain_stream_into_piece(&chunks, &StreamEnd::Fault(RangeError::SourceMutated), 5, 2, &vec![]);
    assert!(!run.outcome.unwrap_err().is_transient());
}

#[test]
fn long_response_is_cut_off() {
    let run = drain_stream_into_piece(&vec![vec![0; 9]], &StreamEnd::Eof, 4, 2, &vec![]);
    assert!(run.outcome.is_err());
    assert!(run.writes.iter().all(|w| w.offset + w.bytes.len() as u64 <= 4));
}

#[test]
fn drain_works_step_by_step() {
    let mut d = PieceDrain::new(5, 3);
    let (pos, step) = d.feed(&[1, 2, 3, 4, 5], 0);
    match step {
        DrainStep::Write(w) => {
            assert_eq!(w.offset, 0);
            assert_eq!(w.bytes, vec![1, 2, 3]);
        }
        _ => panic!("expected a write"),
    }
    let (pos, step) = d.feed(&[1, 2, 3, 4, 5], pos);
    assert!(matches!(step, DrainStep::More));
    assert_eq!(pos, 5);
    match d.finish() {
        DrainEnd::Write(w) => {
            assert_eq!(w.offset, 3);
            assert_eq!(w.bytes, vec![4, 5]);
        }
        _ => panic!("expected the rest"),
    }
    assert!(matches!(d.finish(), DrainEnd::Done));
    assert_eq!(d.written(), 5);
}

#[test]
fn body_is_dealt_out_to_pieces() {
    let chunks = vec![vec![1, 2, 3, 4], vec![5, 6, 7]];
    let run = fetch_full_and_dispatch(&chunks, &StreamEnd::Eof, 3, 7, &vec![]);
    assert_eq!(run.outcome.unwrap(), vec![0, 1, 2]);
    let writes: Vec<(u32, u64, Vec<u8>)> =
        run.writes.into_iter().map(|w| (w.piece, w.offset, w.bytes)).collect();
    assert_eq!(
        writes,
        vec![
            (0, 0, vec![1, 2, 3]),
            (1, 0, vec![4]),
            (1, 1, vec![5, 6]),
            (2, 0, vec![7]),
        ]
    );
    let run = fetch_full_and_dispatch(&vec![vec![1, 2, 3], vec![4, 5]], &StreamEnd::Eof, 2, 5, &vec![]);
    assert_eq!(run.outcome.unwrap(), vec![0, 1, 2]);
    let writes: Vec<(u32, u64, Vec<u8>)> =
        run.writes.into_iter().map(|w| (w.piece, w.offset, w.bytes)).collect();
    assert_eq!(
        writes,
        vec![(0, 0, vec![1, 2]), (1, 0, vec![3]), (1, 1, vec![4]), (2, 0, vec![5])]
    );
}

#[test]
fn body_of_the_wrong_length_is_refused() {
    let run = fetch_full_and_dispatch(&vec![vec![1, 2]], &StreamEnd::Eof, 3, 7, &vec![]);
    let e = run.outcome.unwrap_err();
    assert!(e.is_transient());
    assert_eq!(e.into_text(), "truncated: wrote 2 bytes");
    let run = fetch_full_and_dispatch(&vec![vec![0; 8]], &StreamEnd::Eof, 3, 7, &vec![]);
    assert_eq!(run.outcome.unwrap_err().into_text(), "server overshoots total_size");
    assert_eq!(FullDispatch::new(3, 7).absolute(), 0);
}

#[test]
fn nothing_is_written_after_a_refused_write() {
    let gone = || Err(Error::Other("disk gone".into()));
    let chunks = vec![vec![1, 2, 3], vec![4, 5]];
    let run = drain_stream_into_piece(&chunks, &StreamEnd::Eof, 5, 2, &vec![Ok(()), gone(), Ok(())]);
    assert_eq!(run.writes.len(), 2);
    assert_eq!((run.writes[1].offset, run.writes[1].bytes.clone()), (2, vec![3, 4]));
    assert_eq!(run.outcome, Err(PieceError::Permanent("write: disk gone".into())));
    // The rest at the end can be refused, too; an answer that no write gets is of no account.
    let run = drain_stream_into_piece(&chunks, &StreamEnd::Eof, 5, 2, &vec![Ok(()), Ok(()), gone()]);
    assert_eq!(run.writes.len(), 3);
    assert_eq!(run.outcome, Err(PieceError::Permanent("write: disk gone".into())));
    let later = vec![Ok(()), Ok(()), Ok(()), gone()];
    assert!(drain_stream_into_piece(&chunks, &StreamEnd::Eof, 5, 2, &later).outcome.is_ok());

    let run = fetch_full_and_dispatch(&chunks, &StreamEnd::Eof, 2, 5, &vec![Ok(()), gone()]);
    let writes: Vec<(u32, u64, Vec<u8>)> =
        run.writes.into_iter().map(|w| (w.piece, w.offset, w.bytes)).collect();
    assert_eq!(writes, vec![(0, 0, vec![1, 2]), (1, 0, vec![3])]);
    assert_eq!(run.outcome, Err(PieceError::Permanent("write: disk gone".into())));
}

#[test]
fn refused_drain_hands_out_nothing() {
    let gone: Result<(), Error> = Err(Error::Other("disk gone".into()));
    let mut d = PieceDrain::new(5, 2);
    let (pos, step) = d.feed(&[1, 2, 3, 4], 0);
    assert!(matches!(step, DrainStep::Write(_)));
    assert_eq!(d.answered(&gone), Err(PieceError::Permanent("write: disk gone".into())));
    let (next, step) = d.feed(&[1, 2, 3, 4], pos);
    assert_eq!(next, pos);
    match step {
        DrainStep::Failed(e) => assert_eq!(e, PieceError::Permanent("write: disk gone".into())),
        _ => panic!("expected a failure"),
    }
    assert!(matches!(d.finish(), DrainEnd::Failed(e) if !e.is_transient()));

    let mut d = FullDispatch::new(2, 5);
    let (pos, _) = d.feed(&[1, 2, 3], 0);
    assert!(d.answered(&Ok(())).is_ok());
    assert!(d.answered(&gone).is_err());
    let (next, step) = d.feed(&[1, 2, 3], pos);
    assert_eq!(next, pos);
    assert!(matches!(step, DispatchStep::Failed(e) if !e.is_transient()));
    assert_eq!(d.finish(), Err(PieceError::Permanent("write: disk gone".into())));
}

#[test]
fn refused_write_fails_the_download_without_another_attempt() {
    let plan = TestPlan { piece_size: 20, count: 2 };
    let mut s = Session::new(plan);
    s.answers = vec![Ok(()), Err(Error::Other("disk gone".into()))];
    s.complete(inputs_range(plan), plan);
    assert_eq!(s.failures[0].to_string(), "write: disk gone");
    assert!(s.waits.is_empty());
    assert_eq!(s.source.calls, 1);
    assert_eq!(s.counter.done(), 0);
}

#[test]
fn write_faults_are_for_good() {
    assert!(!write_err_to_piece(&Error::Other("x".into())).is_transient());
    assert!(range_err_to_piece(&RangeError::Timeout).is_transient());
}

#[test]
fn engine_settings_have_defaults() {
    let c = EngineConfig::default();
    assert_eq!(c.write_buffer, 128 * 1024);
    assert_eq!(c.progress_interval_nanos, 200_000_000);
    assert_eq!(c.events_capacity, 1024);
    assert_eq!(c.retry, RetryPolicy::default());
}

#[test]
fn chunking_makes_no_difference() {
    let data: Vec<u8> = (0..50).collect();
    let mut stored = Vec::new();
    for chunk in [1usize, 3, 7, 16, 50] {
        let chunks: Vec<Vec<u8>> = data.chunks(chunk).map(|c| c.to_vec()).collect();
        let run = drain_stream_into_piece(&chunks, &StreamEnd::Eof, 50, 16, &vec![]);
        assert!(run.outcome.is_ok());
        let mut piece = vec![0u8; 50];
        for w in run.writes {
            let from = w.offset as usize;
            piece[from..from + w.bytes.len()].copy_from_slice(&w.bytes);
        }
        assert_eq!(piece, data);
        stored.push(piece);
    }
    assert!(stored.windows(2).all(|w| w[0] == w[1]));
}

#[test]
fn attempt_row_is_closed_once() {
    let plan = TestPlan { piece_size: 20, count: 2 };
    let file = FileId::new();
    let mut s = Session::with_rows(plan, file, MemoryWorkerRepo::new(), MemoryAttemptRepo::new());
    let mut engine = s.start(inputs_range(plan));
    let worker_id = s.ids[0].unwrap();
    s.tell(
        &mut engine,
        EngineEvent::Worker(WorkerMsg::AttemptStarted { worker_id, piece: 1 }),
    );
    let finished = || {
        EngineEvent::Worker(WorkerMsg::AttemptFinished { worker_id, piece: 1, bytes: 20 })
    };
    assert_eq!(engine.step(finished()).len(), 1);
    assert!(engine.step(finished()).is_empty());
}

#[test]
fn every_byte_lies_in_one_piece() {
    let (piece_size, total) = (30u64, 100u64);
    let n = pieces_total(total, piece_size);
    for byte in 0..total {
        let holders = (0..n)
            .filter(|i| {
                let start = piece_offset(*i, piece_size);
                start <= byte && byte < start + piece_size_at(*i, piece_size, total)
            })
            .count();
        assert_eq!(holders, 1);
    }
}

#[test]
fn workers_take_pieces_in_order() {
    let mut pending = VecDeque::from(vec![4, 1]);
    assert_eq!(next_piece(RunState::Paused, &mut pending), NextPiece::Wait);
    assert_eq!(next_piece(RunState::Running, &mut pending), NextPiece::Take(4));
    assert_eq!(next_piece(RunState::Stopping, &mut pending), NextPiece::Stop);
    assert_eq!(pending, VecDeque::from(vec![1]));
    assert_eq!(next_piece(RunState::Running, &mut pending), NextPiece::Take(1));
    assert_eq!(next_piece(RunState::Running, &mut pending), NextPiece::Stop);
}

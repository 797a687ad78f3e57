//! The manager of files and engines.

use std::collections::VecDeque;
use std::path::PathBuf;

use brook::domain::command::FileCommand;
use brook::domain::event::FileLifecycleEvent;
use brook::domain::file::File;
use brook::domain::id::FileId;
use brook::domain::reason::ReasonCode;
use brook::domain::spec::FileSpec;
use brook::domain::status::FileStatus;
use brook::domain::time::Moment;
use brook::error::Error;
use brook::ports::http::RangeGuard;
use brook::ports::noop_repos::{NoopAttemptRepo, NoopWorkerRepo};
use brook::ports::prepared::PreparedMode;
use brook::service::engine::drain::{drain_stream_into_piece, StreamEnd};
use brook::service::engine::supervisor::{
    DownloadEngine, EngineAction, EngineEvent, EnginePhase,
};
use brook::service::engine::worker::{next_piece, NextPiece, RangeWorker, RunState};
use brook::service::manager::audit::needs_presence_check;
use brook::service::manager::bulk::FileStep;
use brook::service::manager::model::{
    plan_engine, Change, CommandStep, EnginePlan, ManagerConfig, RemoveStep, Removed, StatusUpdate,
};
use brook::service::manager::queue::shutdown_timeout;
use brook::service::manager::registry::{remove_result, DownloadManager};
use brook::testing::memory_piece_storage::{MemoryPieceStorage, MemoryPieceStorageFactory};
use brook::testing::memory_queue_store::MemoryTQueueStore;
use brook::testing::mock_fetch::{sequential_bytes, MockRangeFetch};

const NOW: Moment = Moment { secs: 100, nanos: 0 };
const LATER: Moment = Moment { secs: 200, nanos: 5 };

fn spec(url: &str) -> FileSpec {
    FileSpec::new(url, PathBuf::from("/tmp"))
}

fn manager() -> DownloadManager {
    DownloadManager::new(ManagerConfig::default())
}

fn limited(n: usize) -> DownloadManager {
    DownloadManager::new(ManagerConfig { max_concurrent: Some(n), ..ManagerConfig::default() })
}

fn file(url: &str) -> File {
    File::new_at(FileId::new(), spec(url), NOW)
}

fn add(m: &mut DownloadManager, url: &str) -> FileId {
    m.add(file(url), Ok("f.bin".to_string())).unwrap()
}

/// Starts engines for whatever may be started.
fn advance(m: &mut DownloadManager) -> Vec<FileId> {
    let mut started = Vec::new();
    while let Some(id) = m.take_next() {
        m.engine_started(id);
        started.push(id);
    }
    started
}

fn status(m: &DownloadManager, id: FileId) -> FileStatus {
    m.get_file(&id).unwrap().status
}

fn event(m: &mut DownloadManager, id: FileId, status: FileStatus) -> Option<StatusUpdate> {
    m.fan_in(&FileLifecycleEvent::status(id, status), LATER)
}

fn dropped(step: RemoveStep) -> Removed {
    match step {
        RemoveStep::Removed(r) => r,
        other => panic!("expected a removal, got {other:?}"),
    }
}

fn changed(step: CommandStep) -> Change {
    match step {
        CommandStep::Changed(c) => c,
        other => panic!("expected a change, got {other:?}"),
    }
}

/// A manager with its queue, its factory of storages and the events that it hands on.
struct World {
    m: DownloadManager,
    queue: MemoryTQueueStore,
    factory: MemoryPieceStorageFactory,
    told: Vec<FileLifecycleEvent>,
}

/// A running engine with what it works on.
struct Running {
    id: FileId,
    engine: DownloadEngine,
    storage: MemoryPieceStorage,
    fetch: MockRangeFetch,
    pending: VecDeque<u32>,
    run: RunState,
    piece_size: u64,
    total_size: u64,
}

impl World {
    fn new(piece_count: u32, piece_size: u64) -> World {
        World {
            m: manager(),
            queue: MemoryTQueueStore::new(),
            factory: MemoryPieceStorageFactory::new(piece_count, piece_size),
            told: Vec::new(),
        }
    }

    fn add(&mut self, url: &str) -> FileId {
        let f = file(url);
        self.queue.insert(&f).unwrap();
        self.m.add(f, Ok("f.bin".to_string())).unwrap()
    }

    /// Starts engines for whatever may be started.
    fn advance(&mut self) -> Vec<Running> {
        let mut engines = Vec::new();
        while let Some(id) = self.m.take_next() {
            engines.push(self.start(id));
        }
        engines
    }

    fn start(&mut self, id: FileId) -> Running {
        let spec = self.m.spec_of(id).unwrap();
        let prepared = self.factory.prepare(id, &spec).unwrap();
        let inputs = match plan_engine(spec, prepared.mode, prepared.effective_url) {
            EnginePlan::Pieces(inputs) => inputs,
            EnginePlan::Streaming(_) => panic!("expected pieces"),
        };
        let (piece_size, total_size) = (inputs.piece_size, inputs.total_size);
        let (engine, actions) = DownloadEngine::spawn(id, inputs);
        self.m.engine_started(id);
        let mut e = Running {
            id,
            engine,
            storage: prepared.piece_storage.unwrap(),
            fetch: MockRangeFetch::always_ok(sequential_bytes(total_size)),
            pending: VecDeque::new(),
            run: RunState::Running,
            piece_size,
            total_size,
        };
        self.perform_all(&mut e, actions);
        e
    }

    /// Hands a command of the manager on to the engine that it is for.
    fn forward(&mut self, e: &mut Running, step: CommandStep) {
        match step {
            CommandStep::Forward(cmd) => self.tell(e, EngineEvent::Command(cmd)),
            other => panic!("expected a command for the engine, got {other:?}"),
        }
    }

    /// Carries out what a command for all files led to.
    fn carry_out(&mut self, engines: &mut Vec<Running>, steps: Vec<FileStep>) {
        for s in steps {
            match s.step {
                CommandStep::Forward(_) => {
                    let i = engines.iter().position(|e| e.id == s.id).unwrap();
                    self.forward(&mut engines[i], s.step);
                }
                CommandStep::Changed(c) => {
                    self.told.push(c.event);
                    self.queue.update_status(c.update.id, c.update.status, LATER).unwrap();
                }
                CommandStep::Unchanged => {}
            }
        }
    }

    fn tell(&mut self, e: &mut Running, ev: EngineEvent) {
        let actions = e.engine.step(ev);
        self.perform_all(e, actions);
    }

    fn perform_all(&mut self, e: &mut Running, actions: Vec<EngineAction>) {
        for action in actions {
            if let Some(ev) = self.perform(e, action) {
                self.tell(e, ev);
            }
        }
        if e.engine.phase() == EnginePhase::Finished {
            self.m.engine_ended(e.id);
        }
    }

    /// The manager hears an event of an engine, stores what comes of it and hands the event on.
    fn hear(&mut self, ev: FileLifecycleEvent) {
        if let Some(u) = self.m.fan_in(&ev, LATER) {
            self.queue.update_status(u.id, u.status, LATER).unwrap();
        }
        self.told.push(ev);
    }

    fn perform(&mut self, e: &mut Running, action: EngineAction) -> Option<EngineEvent> {
        match action {
            EngineAction::LoadPending => {
                Some(EngineEvent::PendingLoaded(e.storage.pending_pieces()))
            }
            EngineAction::CheckPending => {
                Some(EngineEvent::PendingChecked(e.storage.pending_pieces()))
            }
            EngineAction::EnsureSlots { count } => {
                Some(EngineEvent::SlotsReady(NoopWorkerRepo.ensure_slots(e.id, count)))
            }
            EngineAction::Spawn { pending, .. } => {
                e.pending = pending.into();
                None
            }
            EngineAction::SetRun(run) => {
                e.run = run;
                None
            }
            EngineAction::EmitStatus(s) => {
                self.hear(FileLifecycleEvent::status(e.id, s));
                None
            }
            EngineAction::EmitFailed(f) => {
                self.hear(FileLifecycleEvent::failed(e.id, f.to_string()));
                None
            }
            EngineAction::Commit { piece } => {
                Some(EngineEvent::Committed { piece, result: e.storage.commit_done(piece) })
            }
            EngineAction::StartAttempt { worker_id, piece } => {
                let row = NoopAttemptRepo.start(e.id, piece, worker_id);
                Some(EngineEvent::AttemptOpened { worker_id, piece, attempt: row.ok().map(|r| r.id) })
            }
            EngineAction::JoinWorkers => Some(EngineEvent::WorkersDrained),
            EngineAction::Finalize => Some(EngineEvent::Finalized(e.storage.finalize())),
            EngineAction::Abort => {
                e.storage.abort().unwrap();
                None
            }
            _ => None,
        }
    }

    /// Lets the engine's worker fetch one piece. Gives whether there was one.
    fn work(&mut self, e: &mut Running) -> bool {
        let piece = match next_piece(e.run, &mut e.pending) {
            NextPiece::Take(piece) => piece,
            NextPiece::Wait | NextPiece::Stop => return false,
        };
        let mut worker = RangeWorker::new(None, e.piece_size, e.total_size);
        let job = worker.begin(piece);
        let chunks = vec![e.fetch.fetch_range(job.offset, job.size).unwrap()];
        let run = drain_stream_into_piece(&chunks, &StreamEnd::Eof, job.size, 16, &vec![]);
        for w in run.writes {
            e.storage.write_piece_bytes(piece, w.offset, &w.bytes).unwrap();
        }
        run.outcome.unwrap();
        for msg in worker.succeeded() {
            self.tell(e, EngineEvent::Worker(msg));
        }
        true
    }

    /// Lets the engine work until its workers have nothing left to do.
    fn run_out(&mut self, e: &mut Running) {
        while self.work(e) {}
        if e.engine.phase() == EnginePhase::Active && e.run == RunState::Running {
            self.tell(e, EngineEvent::WorkersClosed);
        }
    }

    fn stored_status(&self, id: FileId) -> FileStatus {
        self.queue.load_all().unwrap().iter().find(|f| f.id == id).unwrap().status
    }
}

#[test]
fn tests_add_spawns_engine_and_completes() {
    let mut w = World::new(3, 20);
    let id = w.add("https://test/a");
    assert_eq!(w.m.get_file(&id).unwrap().spec.filename.as_deref(), Some("f.bin"));
    let mut engines = w.advance();
    assert_eq!(engines.len(), 1);
    assert!(w.m.is_active(id));
    assert_eq!(status(&w.m, id), FileStatus::Running);
    w.run_out(&mut engines[0]);
    assert_eq!(status(&w.m, id), FileStatus::Done);
    assert_eq!(w.stored_status(id), FileStatus::Done);
    assert!(!w.m.is_active(id));
    assert_eq!(engines[0].storage.assembled_bytes(), sequential_bytes(60));
}

#[test]
fn add_without_a_name_changes_nothing() {
    let mut m = manager();
    let r = m.add(file("https://t/a"), Err(Error::FileExists { filename: "a".into() }));
    assert_eq!(r, Err(Error::FileExists { filename: "a".into() }));
    assert!(m.snapshot().is_empty());
    assert_eq!(m.take_next(), None);
}

#[test]
fn all_added_downloads_spawn() {
    let mut w = World::new(3, 20);
    let ids: Vec<FileId> =
        ["https://t/a", "https://t/b", "https://t/c"].iter().map(|u| w.add(u)).collect();
    let mut engines = w.advance();
    assert_eq!(engines.iter().map(|e| e.id).collect::<Vec<_>>(), ids);
    assert_eq!(w.m.active_ids().len(), 3, "expected all 3 engines running concurrently");
    for e in &mut engines {
        w.run_out(e);
    }
    for id in ids {
        assert!(status(&w.m, id).is_terminal());
    }
}

#[test]
fn max_concurrent_respected() {
    let mut m = limited(2);
    let ids: Vec<FileId> = (0..4).map(|i| add(&mut m, &format!("https://t/{i}"))).collect();
    assert_eq!(advance(&mut m), ids[..2].to_vec());
    assert_eq!(m.active_ids().len(), 2);
    m.engine_ended(ids[0]);
    assert_eq!(advance(&mut m), vec![ids[2]]);
}

#[test]
fn tests_cancel_marks_cancelled() {
    let mut w = World::new(2, 10);
    let id = w.add("https://t/a");
    let mut engines = w.advance();
    let step = w.m.cancel(id, LATER).unwrap();
    assert_eq!(status(&w.m, id), FileStatus::Running);
    w.forward(&mut engines[0], step);
    assert_eq!(status(&w.m, id), FileStatus::Cancelled);
    assert_eq!(w.stored_status(id), FileStatus::Cancelled);
    assert!(engines[0].storage.snapshot().aborted);
    assert!(!w.m.is_active(id));
}

#[test]
fn cancel_before_spawn_marks_cancelled() {
    let mut m = limited(1);
    let a = add(&mut m, "https://t/a");
    let b = add(&mut m, "https://t/b");
    assert_eq!(advance(&mut m), vec![a]);
    let c = changed(m.cancel(b, LATER).unwrap());
    assert_eq!(c.update.status, FileStatus::Cancelled);
    assert_eq!(c.update.reason.unwrap().code, ReasonCode::CancelledByUser);
    assert_eq!(c.event.status, FileStatus::Cancelled);
    assert_eq!(status(&m, b), FileStatus::Cancelled);
    assert_eq!(m.cancel(b, LATER).unwrap(), CommandStep::Unchanged);
    m.engine_ended(a);
    assert!(advance(&mut m).is_empty());
}

#[test]
fn remove_blocked_for_active_download() {
    let mut m = manager();
    let id = add(&mut m, "https://t/slow");
    advance(&mut m);
    let e = m.remove_idle(id).unwrap_err();
    assert_eq!(e.to_string(), "download is active, cancel before remove");
    m.engine_ended(id);
    assert!(m.remove_idle(id).unwrap().was_known);
}

#[test]
fn remove_cancels_active_download() {
    let mut w = World::new(3, 20);
    let id = w.add("https://t/slow");
    let mut engines = w.advance();
    assert!(w.m.is_active(id));
    // While the engine runs nothing is dropped; the engine is cancelled first.
    assert_eq!(w.m.remove(id), RemoveStep::Forward(FileCommand::Cancel));
    assert!(w.m.get_file(&id).is_some());
    w.tell(&mut engines[0], EngineEvent::Command(FileCommand::Cancel));
    assert!(!w.m.is_active(id));
    let removed = dropped(w.m.remove(id));
    assert!(removed.was_known);
    assert_eq!(removed.spec.unwrap().url, "https://t/slow");
    remove_result(w.queue.remove(id)).unwrap();
    assert!(w.m.snapshot().iter().all(|d| d.id != id));
    assert!(w.queue.load_all().unwrap().iter().all(|d| d.id != id));
}

#[test]
fn removing_what_is_not_stored_is_no_error() {
    let mut m = manager();
    let mut queue = MemoryTQueueStore::new();
    let removed = dropped(m.remove(FileId::new()));
    assert!(!removed.was_known);
    assert_eq!(removed.spec, None);
    assert_eq!(remove_result(queue.remove(FileId::new())), Ok(()));
    // A record that is known in memory only counts as removed, too.
    let id = add(&mut m, "https://t/a");
    assert!(dropped(m.remove(id)).was_known);
    assert_eq!(queue.remove(id), Err(Error::NotFound));
    assert_eq!(remove_result(queue.remove(id)), Ok(()));
    assert!(m.snapshot().is_empty());
    assert_eq!(m.take_next(), None);
    assert_eq!(remove_result(Err(Error::Other("x".into()))), Err(Error::Other("x".into())));
    assert_eq!(remove_result(Ok(())), Ok(()));
}

#[test]
fn tests_bootstrap_restores_from_queue() {
    let mut queue = MemoryTQueueStore::new();
    let mut qd = file("https://t/q");
    qd.status = FileStatus::Pending;
    let mut rd = file("https://t/r");
    rd.status = FileStatus::Running;
    let mut pd = file("https://t/p");
    pd.status = FileStatus::Paused;
    queue.insert(&qd).unwrap();
    queue.insert(&rd).unwrap();
    queue.insert(&pd).unwrap();

    let mut m = manager();
    for u in m.bootstrap(queue.load_all().unwrap()) {
        queue.update_status(u.id, u.status, LATER).unwrap();
    }
    let persisted = queue.load_all().unwrap();
    let r_persisted = persisted.iter().find(|d| d.id == rd.id).unwrap();
    assert_eq!(r_persisted.status, FileStatus::Pending);
    let p_persisted = persisted.iter().find(|d| d.id == pd.id).unwrap();
    assert_eq!(p_persisted.status, FileStatus::Paused);
    assert_eq!(advance(&mut m).len(), 2);
    assert_eq!(m.active_ids().len(), 2);
    assert!(!m.is_active(pd.id));
}

#[test]
fn tests_snapshot_contains_all_downloads() {
    let mut m = manager();
    for u in ["a", "b", "c"] {
        add(&mut m, &format!("https://t/{u}"));
    }
    let snap = m.snapshot();
    assert_eq!(snap.len(), 3);
}

#[test]
fn tests_shutdown_pauses_active_engines() {
    let mut w = World::new(5, 20);
    let a = w.add("https://t/a");
    let b = w.add("https://t/b");
    let mut engines = w.advance();
    assert!(w.work(&mut engines[0]));
    let waits = w.add("https://t/c");
    let (active, steps) = w.m.begin_shutdown(LATER).unwrap();
    assert_eq!(active.len(), 2);
    assert!(active.contains(&a) && active.contains(&b));
    assert_eq!(steps.len(), 3);
    assert!(!w.m.is_drained(&active));
    assert_eq!(w.m.shutdown_result(&active, false), None);
    assert_eq!(w.m.shutdown_result(&active, true), Some(Err(shutdown_timeout())));
    w.carry_out(&mut engines, steps);
    assert!(w.m.is_drained(&active));
    assert_eq!(w.m.shutdown_result(&active, false), Some(Ok(())));
    assert_eq!(w.m.shutdown_result(&active, true), Some(Ok(())));
    for id in [a, b, waits] {
        assert_eq!(status(&w.m, id), FileStatus::Paused);
        assert_eq!(w.stored_status(id), FileStatus::Paused);
    }
    assert_eq!(shutdown_timeout().to_string(), "shutdown timeout");
}

#[test]
fn tests_shutdown_with_no_engines_is_noop() {
    let mut m = manager();
    assert!(m.begin_shutdown(LATER).is_none());
    // Files that wait are left alone.
    let id = add(&mut m, "https://t/a");
    let before = m.get_file(&id).unwrap();
    assert!(m.begin_shutdown(LATER).is_none());
    assert_eq!(m.get_file(&id).unwrap(), before);
    assert_eq!(m.take_next(), Some(id));
}

#[test]
fn tests_events_fan_in_delivers_completed() {
    let mut w = World::new(2, 10);
    let id = w.add("https://t/x");
    let mut engines = w.advance();
    w.run_out(&mut engines[0]);
    assert!(w.told.iter().any(|ev| ev.id == id && ev.status == FileStatus::Done));
    assert_eq!(w.told.len(), 2);
    assert_eq!(status(&w.m, id), FileStatus::Done);
}

#[test]
fn events_change_records_once() {
    let mut m = manager();
    let id = add(&mut m, "https://t/x");
    advance(&mut m);
    assert!(event(&mut m, id, FileStatus::Running).is_some());
    assert!(event(&mut m, id, FileStatus::Running).is_none());
    let update = event(&mut m, id, FileStatus::Done).unwrap();
    assert_eq!(update.id, id);
    assert_eq!(update.reason, None);
    assert_eq!(m.get_file(&id).unwrap().updated_at, LATER);
    assert!(event(&mut m, FileId::new(), FileStatus::Done).is_none());
}

#[test]
fn failures_are_stored_with_a_reason() {
    let mut m = manager();
    let id = add(&mut m, "https://t/x");
    let u = m.fan_in(&FileLifecycleEvent::failed(id, "boom".into()), LATER).unwrap();
    let reason = u.reason.unwrap();
    assert_eq!(reason.code, ReasonCode::Unknown);
    assert_eq!(reason.message.as_deref(), Some("boom"));
    assert_eq!(m.get_file(&id).unwrap().error.as_deref(), Some("boom"));

    let other = add(&mut m, "https://t/y");
    let u = event(&mut m, other, FileStatus::Failed).unwrap();
    assert_eq!(u.reason.unwrap().code, ReasonCode::Unknown);
}

#[test]
fn pause_and_resume_of_a_waiting_file() {
    let mut m = limited(0);
    let id = add(&mut m, "https://t/a");
    let c = changed(m.pause(id, LATER).unwrap());
    assert_eq!(c.event.status, FileStatus::Paused);
    assert_eq!(m.get_file(&id).unwrap().updated_at, LATER);
    assert_eq!(m.pause(id, LATER).unwrap(), CommandStep::Unchanged);
    let c = changed(m.resume(id, LATER).unwrap());
    assert_eq!(c.update.status, FileStatus::Pending);
    assert_eq!(m.resume(id, LATER).unwrap(), CommandStep::Unchanged);
    assert_eq!(m.take_next(), None);
}

#[test]
fn resumed_file_gets_one_engine() {
    let mut m = manager();
    let id = add(&mut m, "https://t/a");
    m.resume(id, LATER).unwrap();
    m.pause(id, LATER).unwrap();
    m.resume(id, LATER).unwrap();
    m.resume(id, LATER).unwrap();
    assert_eq!(advance(&mut m), vec![id]);
}

#[test]
fn commands_for_ended_and_unknown_files_are_refused() {
    let mut m = manager();
    let id = add(&mut m, "https://t/a");
    event(&mut m, id, FileStatus::Done);
    assert_eq!(m.pause(id, LATER).unwrap_err().to_string(), "download is terminal");
    assert_eq!(m.resume(id, LATER).unwrap_err().to_string(), "download is terminal");
    let nobody = FileId::new();
    assert_eq!(m.pause(nobody, LATER), Err(Error::NotFound));
    assert_eq!(m.resume(nobody, LATER), Err(Error::NotFound));
    assert_eq!(m.cancel(nobody, LATER), Err(Error::NotFound));
    assert_eq!(m.spec_of(nobody), Err(Error::NotFound));
}

#[test]
fn retry_requires_failed_state() {
    let mut m = manager();
    let id = add(&mut m, "https://t/a");
    assert_eq!(m.retry(id).unwrap_err().to_string(), "download is not in failed state");
    assert_eq!(m.retry(FileId::new()), Err(Error::NotFound));
    m.fan_in(&FileLifecycleEvent::failed(id, "boom".into()), LATER);
    assert_eq!(m.retry(id).unwrap().url, "https://t/a");
}

#[test]
fn engine_that_cannot_start_fails_the_file() {
    let mut m = manager();
    let id = add(&mut m, "https://t/a");
    assert_eq!(m.take_next(), Some(id));
    let c = m.spawn_failed(id, &Error::SourceMutated, LATER);
    assert_eq!(c.update.reason.unwrap().code, ReasonCode::SourceMutated);
    assert_eq!(c.event.description, Some(Error::SourceMutated.to_string()));
    assert_eq!(status(&m, id), FileStatus::Failed);
    let nobody = FileId::new();
    let c = m.spawn_failed(nobody, &Error::NotFound, LATER);
    assert_eq!(c.update.id, nobody);
    assert_eq!(m.snapshot().len(), 1);
}

#[test]
fn all_files_are_paused_and_resumed_at_once() {
    let mut m = limited(1);
    let a = add(&mut m, "https://t/a");
    let b = add(&mut m, "https://t/b");
    let c = add(&mut m, "https://t/c");
    assert_eq!(advance(&mut m), vec![a]);
    event(&mut m, a, FileStatus::Running);
    event(&mut m, c, FileStatus::Done);
    let steps = m.pause_all(LATER);
    assert!(steps.iter().any(|s| s.id == a && s.step == CommandStep::Forward(FileCommand::Pause)));
    assert!(steps.iter().any(|s| s.id == b && matches!(s.step, CommandStep::Changed(_))));
    assert!(steps.iter().all(|s| s.id != c));
    assert_eq!(status(&m, b), FileStatus::Paused);
    event(&mut m, a, FileStatus::Paused);
    let steps = m.resume_all(LATER);
    assert!(steps.iter().any(|s| s.id == a && s.step == CommandStep::Forward(FileCommand::Resume)));
    assert_eq!(status(&m, b), FileStatus::Pending);
    m.engine_ended(a);
    assert_eq!(advance(&mut m), vec![b]);
}

#[test]
fn missing_files_are_marked() {
    let mut m = manager();
    let a = add(&mut m, "https://t/a");
    let b = add(&mut m, "https://t/b");
    event(&mut m, a, FileStatus::Done);
    event(&mut m, b, FileStatus::Done);
    let mut files = vec![m.get_file(&a).unwrap(), m.get_file(&b).unwrap()];
    assert!(needs_presence_check(&files[0]));
    let changes = m.audit_done_presence(&mut files, &vec![true, false], LATER);
    assert_eq!(changes.len(), 1);
    assert_eq!(changes[0].update.id, b);
    assert_eq!(changes[0].update.reason.as_ref().unwrap().code, ReasonCode::FileMissing);
    assert_eq!(files[0].status, FileStatus::Done);
    assert_eq!(files[1].status, FileStatus::Failed);
    assert_eq!(files[1].error.as_deref(), Some("file no longer exists on disk"));
    assert_eq!(status(&m, b), FileStatus::Failed);
    assert!(m.flip_done_to_failed_missing(b, LATER).is_none());
    let told = changes[0].event.as_ref().unwrap();
    assert_eq!(told.id, b);
    assert_eq!(told.status, FileStatus::Failed);
    assert_eq!(told.description.as_deref(), Some("file no longer exists on disk"));
    // Of a file without a record the failure is only stored.
    let nobody = FileId::new();
    let change = m.flip_done_to_failed_missing(nobody, LATER).unwrap();
    assert_eq!(change.update.id, nobody);
    assert_eq!(change.update.status, FileStatus::Failed);
    let reason = change.update.reason.unwrap();
    assert_eq!(reason.code, ReasonCode::FileMissing);
    assert_eq!(reason.message.as_deref(), Some("file no longer exists on disk"));
    assert_eq!(change.event, None);
    assert!(m.get_file(&nobody).is_none());
}

#[test]
fn plan_follows_what_is_known() {
    let known = PreparedMode::Known {
        total_size: 100,
        piece_size: 30,
        accepts_ranges: true,
        guard: Some(RangeGuard::LastModified("x".into())),
    };
    match plan_engine(spec("https://t/a"), known, Some("https://m/a".into())) {
        EnginePlan::Pieces(inputs) => {
            assert_eq!(inputs.total_size, 100);
            assert_eq!(inputs.effective_url.as_deref(), Some("https://m/a"));
        }
        EnginePlan::Streaming(_) => panic!("expected pieces"),
    }
    assert!(matches!(
        plan_engine(spec("https://t/a"), PreparedMode::Streaming, None),
        EnginePlan::Streaming(_)
    ));
}

#[test]
fn command_for_one_file_leaves_the_others() {
    let mut m = limited(0);
    let a = add(&mut m, "https://t/a");
    let b = add(&mut m, "https://t/b");
    let before = m.get_file(&b).unwrap();
    m.pause(a, LATER).unwrap();
    m.cancel(a, LATER).unwrap();
    assert_eq!(m.get_file(&b).unwrap(), before);
    m.remove(a);
    let again = dropped(m.remove(a));
    assert!(!again.was_known);
    assert_eq!(m.snapshot().len(), 1);
}

#[test]
fn add_pause_remove_roundtrip() {
    let mut m = limited(0);
    assert!(m.snapshot().is_empty());
    let id = add(&mut m, "https://example.com/a");
    assert_eq!(m.snapshot().len(), 1);
    assert_eq!(status(&m, id), FileStatus::Pending);
    m.pause(id, LATER).unwrap();
    assert_eq!(status(&m, id), FileStatus::Paused);
    m.remove(id);
    assert!(m.snapshot().is_empty());
}

#[test]
fn pause_and_resume_unqueued() {
    let mut m = limited(0);
    let id = add(&mut m, "https://example.com/p");
    m.pause(id, LATER).unwrap();
    assert_eq!(status(&m, id), FileStatus::Paused);
    m.resume(id, LATER).unwrap();
    assert_eq!(status(&m, id), FileStatus::Pending);
}

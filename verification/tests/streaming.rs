//! The engine for files of unknown size.

use std::path::PathBuf;

use brook::domain::command::FileCommand;
use brook::domain::id::FileId;
use brook::domain::progress::ProgressCounts;
use brook::domain::spec::FileSpec;
use brook::domain::status::{FileStatus, WorkerStatus};
use brook::error::Error;
use brook::ports::http::RangeError;
use brook::service::engine::inputs::{EngineFailure, StreamingEngineInputs};
use brook::service::engine::streaming::{StreamAction, StreamEvent, StreamPhase, StreamingEngine};
use brook::service::engine::supervisor::DownloadEngine;
use brook::service::retry::RetryPolicy;
use brook::testing::memory_tracking::MemoryWorkerRepo;
use brook::testing::mock_fetch::{sequential_bytes, FetchOutcome, MockRangeFetch};

/// What one session works with.
struct Session {
    file: FileId,
    fetch: MockRangeFetch,
    workers: MemoryWorkerRepo,
    stored: Vec<u8>,
    restarts: usize,
    restart_fault: Option<Error>,
    finalized: bool,
    aborted: bool,
    append_fault: Option<Error>,
    statuses: Vec<FileStatus>,
    failures: Vec<EngineFailure>,
    progress: Vec<ProgressCounts>,
    urls: Vec<String>,
    waits: Vec<u128>,
    /// The chunks of the open response that were not read yet.
    body: Option<Vec<Vec<u8>>>,
}

fn policy() -> RetryPolicy {
    RetryPolicy { base_nanos: 5, max_delay_nanos: 20, max_attempts: 5, jitter_ppm: 0 }
}

impl Session {
    fn new(bytes: Vec<u8>) -> Session {
        Session {
            file: FileId::new(),
            fetch: MockRangeFetch::always_ok(bytes),
            workers: MemoryWorkerRepo::new(),
            stored: Vec::new(),
            restarts: 0,
            restart_fault: None,
            finalized: false,
            aborted: false,
            append_fault: None,
            statuses: Vec::new(),
            failures: Vec::new(),
            progress: Vec::new(),
            urls: Vec::new(),
            waits: Vec::new(),
            body: None,
        }
    }

    fn start(&mut self) -> StreamingEngine {
        let inputs = StreamingEngineInputs {
            spec: FileSpec::new("https://host/x", PathBuf::from("/tmp")),
            effective_url: None,
        };
        let (mut engine, actions) = DownloadEngine::spawn_streaming(self.file, inputs);
        self.perform_all(&mut engine, actions);
        engine
    }

    fn tell(&mut self, engine: &mut StreamingEngine, ev: StreamEvent) {
        let actions = engine.step(ev);
        self.perform_all(engine, actions);
    }

    fn perform_all(&mut self, engine: &mut StreamingEngine, actions: Vec<StreamAction>) {
        for a in actions {
            self.perform(engine, a);
        }
    }

    fn perform(&mut self, engine: &mut StreamingEngine, action: StreamAction) {
        match action {
            StreamAction::EnsureSlots { count } => {
                let rows = self.workers.ensure_slots(self.file, count);
                self.tell(engine, StreamEvent::SlotsReady(rows));
            }
            StreamAction::Open { url } => {
                self.urls.push(url);
                match self.fetch.fetch_full() {
                    Ok(bytes) => {
                        self.body = Some(bytes.chunks(1000).map(|c| c.to_vec()).collect());
                        self.tell(engine, StreamEvent::Opened);
                    }
                    Err(e) => self.fault(engine, e),
                }
            }
            StreamAction::Close => self.body = None,
            StreamAction::Wait { nanos } => {
                self.waits.push(nanos);
                self.tell(engine, StreamEvent::WaitOver);
            }
            StreamAction::Restart => {
                let result = match self.restart_fault.take() {
                    Some(e) => Err(e),
                    None => {
                        self.restarts += 1;
                        self.stored.clear();
                        Ok(())
                    }
                };
                self.tell(engine, StreamEvent::Restarted(result));
            }
            StreamAction::Append(bytes) => {
                let result = match self.append_fault.take() {
                    Some(e) => Err(e),
                    None => {
                        self.stored.extend_from_slice(&bytes);
                        Ok(())
                    }
                };
                self.tell(engine, StreamEvent::Appended(result));
            }
            StreamAction::EmitStatus(s) => self.statuses.push(s),
            StreamAction::EmitFailed(f) => {
                self.statuses.push(FileStatus::Failed);
                self.failures.push(f);
            }
            StreamAction::EmitProgress(p) => self.progress.push(p),
            StreamAction::ResetSpeed => {}
            StreamAction::MarkDone(id) => self.workers.mark_done(id).unwrap(),
            StreamAction::MarkFailed(id, f) => {
                self.workers.mark_failed(id, f.to_string()).unwrap()
            }
            StreamAction::MarkCancelled(id) => self.workers.mark_cancelled(id).unwrap(),
            StreamAction::Finalize => {
                self.finalized = true;
                self.tell(engine, StreamEvent::Finalized(Ok(())));
            }
            StreamAction::Abort => self.aborted = true,
        }
    }

    fn fault(&mut self, engine: &mut StreamingEngine, e: RangeError) {
        let actions = engine.fault(e, &policy());
        self.perform_all(engine, actions);
    }

    /// Reads one chunk, or the end of the body.
    fn read(&mut self, engine: &mut StreamingEngine) {
        if let Some(body) = &mut self.body {
            if body.is_empty() {
                self.tell(engine, StreamEvent::Eof);
            } else {
                let chunk = body.remove(0);
                self.tell(engine, StreamEvent::Chunk(chunk));
            }
        }
    }
}

#[test]
fn streaming_happy_path_completes_and_finalizes() {
    let bytes = sequential_bytes(4096);
    let mut s = Session::new(bytes.clone());
    let mut engine = s.start();
    s.tell(&mut engine, StreamEvent::Tick);
    while engine.phase() == StreamPhase::Reading {
        s.read(&mut engine);
    }

    assert_eq!(s.stored, bytes);
    assert!(s.finalized);
    assert_eq!(s.statuses, vec![FileStatus::Running, FileStatus::Done]);
    assert!(s.progress.iter().any(|p| p.bytes_total == 0));
    assert_eq!(s.progress.len(), 2);
    assert_eq!(s.progress.last().unwrap().bytes_done, 4096);
    assert_eq!(s.urls, vec!["https://host/x".to_string()]);
    assert_eq!(s.workers.by_file(s.file)[0].status, WorkerStatus::Done);
    assert_eq!(engine.id(), s.file);
}

#[test]
fn streaming_cancel_aborts_storage() {
    let mut s = Session::new(sequential_bytes(4096));
    let mut engine = s.start();
    s.read(&mut engine);
    s.tell(&mut engine, StreamEvent::Command(FileCommand::Cancel));
    assert!(s.aborted, "cancel must abort the stream storage");
    assert!(!s.finalized);
    assert_eq!(s.statuses, vec![FileStatus::Running, FileStatus::Cancelled]);
    assert_eq!(s.workers.by_file(s.file)[0].status, WorkerStatus::Cancelled);
    s.read(&mut engine);
    assert_eq!(s.statuses.len(), 2);
}

#[test]
fn streaming_trouble_that_may_pass_is_met_with_another_request() {
    let mut s = Session::new(sequential_bytes(10));
    s.fetch.push_outcomes(vec![FetchOutcome::Transient, FetchOutcome::Transient]);
    let mut engine = s.start();
    assert_eq!(s.fetch.calls(), 3);
    assert_eq!(s.waits, vec![5, 10]);
    while engine.phase() == StreamPhase::Reading {
        s.read(&mut engine);
    }
    assert!(s.finalized);
}

#[test]
fn streaming_trouble_that_stays_fails_the_download() {
    let mut s = Session::new(sequential_bytes(10));
    s.fetch.push_outcomes(vec![FetchOutcome::Permanent]);
    let engine = s.start();
    assert_eq!(engine.phase(), StreamPhase::Finished);
    assert_eq!(
        s.failures,
        vec![EngineFailure::Fetch(RangeError::UnexpectedStatus { code: 401 })]
    );
    assert_eq!(s.workers.by_file(s.file)[0].status, WorkerStatus::Failed);
}

#[test]
fn streaming_endless_trouble_uses_up_the_attempts() {
    let mut s = Session::new(sequential_bytes(10));
    s.fetch.push_outcomes((0..9).map(|_| FetchOutcome::Transient).collect());
    let engine = s.start();
    assert_eq!(engine.phase(), StreamPhase::Finished);
    assert_eq!(s.fetch.calls(), 5);
    assert_eq!(s.waits, vec![5, 10, 20, 20]);
    assert_eq!(s.statuses, vec![FileStatus::Running, FileStatus::Failed]);
    assert_eq!(s.failures[0].to_string(), "unexpected HTTP status 503");
    assert_eq!(s.workers.by_file(s.file)[0].status, WorkerStatus::Failed);
    assert!(!s.finalized);
    assert!(!s.aborted);
    assert!(s.stored.is_empty());
}

#[test]
fn streaming_fault_in_the_middle_starts_over() {
    let mut s = Session::new(sequential_bytes(2500));
    let mut engine = s.start();
    s.read(&mut engine);
    s.tell(&mut engine, StreamEvent::Tick);
    s.fault(&mut engine, RangeError::Network("reset".into()));
    assert_eq!(s.urls.len(), 2);
    assert_eq!(s.restarts, 1);
    assert_eq!(engine.phase(), StreamPhase::Reading);
    s.tell(&mut engine, StreamEvent::Tick);
    while engine.phase() == StreamPhase::Reading {
        s.read(&mut engine);
    }
    assert!(s.finalized);
    assert_eq!(s.stored, sequential_bytes(2500));
    let counted: Vec<u64> = s.progress.iter().map(|p| p.bytes_done).collect();
    assert_eq!(counted, vec![1000, 0, 2500]);
}

#[test]
fn streaming_faults_count_across_bodies_and_pauses() {
    let mut s = Session::new(sequential_bytes(2500));
    let mut engine = s.start();
    for _ in 0..4 {
        s.read(&mut engine);
        s.fault(&mut engine, RangeError::Timeout);
        assert_eq!(engine.phase(), StreamPhase::Reading);
        s.tell(&mut engine, StreamEvent::Command(FileCommand::Pause));
        s.tell(&mut engine, StreamEvent::Command(FileCommand::Resume));
    }
    s.fault(&mut engine, RangeError::Timeout);
    assert_eq!(engine.phase(), StreamPhase::Finished);
    assert_eq!(s.failures, vec![EngineFailure::Fetch(RangeError::Timeout)]);
    // The first request, one for each fault that was met with another, one for each resume.
    assert_eq!(s.urls.len(), 9);
}

#[test]
fn streaming_pause_drops_the_connection() {
    let mut s = Session::new(sequential_bytes(2500));
    let mut engine = s.start();
    s.read(&mut engine);
    s.read(&mut engine);
    assert_eq!(s.stored, sequential_bytes(2000));
    s.tell(&mut engine, StreamEvent::Command(FileCommand::Pause));
    assert!(s.body.is_none());
    assert_eq!(engine.phase(), StreamPhase::Paused);
    assert_eq!(s.restarts, 0);
    s.tell(&mut engine, StreamEvent::Command(FileCommand::Resume));
    assert_eq!(s.urls.len(), 2);
    assert_eq!(s.restarts, 1);
    assert!(s.stored.is_empty());
    while engine.phase() == StreamPhase::Reading {
        s.read(&mut engine);
    }
    assert_eq!(
        s.statuses,
        vec![FileStatus::Running, FileStatus::Paused, FileStatus::Running, FileStatus::Done]
    );
    assert_eq!(s.stored, sequential_bytes(2500));
    assert_eq!(s.progress.last().unwrap().bytes_done, 2500);
}

#[test]
fn streaming_file_that_cannot_be_emptied_fails() {
    let mut s = Session::new(sequential_bytes(2500));
    let mut engine = s.start();
    s.read(&mut engine);
    s.restart_fault = Some(Error::Other("disk gone".into()));
    s.fault(&mut engine, RangeError::Timeout);
    assert_eq!(engine.phase(), StreamPhase::Finished);
    assert_eq!(s.failures[0].to_string(), "restart: disk gone");
    assert_eq!(s.urls.len(), 1);
    assert!(!s.finalized);
}

#[test]
fn streaming_faults_of_storage_are_named() {
    let mut s = Session::new(sequential_bytes(2500));
    let mut engine = s.start();
    s.append_fault = Some(Error::Other("disk gone".into()));
    s.read(&mut engine);
    assert_eq!(s.failures[0].to_string(), "append: disk gone");

    let mut s = Session::new(sequential_bytes(10));
    let inputs = StreamingEngineInputs {
        spec: FileSpec::new("https://host/x", PathBuf::from("/tmp")),
        effective_url: Some("https://mirror/x".into()),
    };
    let (mut engine, _) = DownloadEngine::spawn_streaming(s.file, inputs);
    let actions = engine.step(StreamEvent::SlotsReady(Err(Error::Other("x".into()))));
    s.perform_all(&mut engine, actions);
    assert_eq!(s.failures[0].to_string(), "ensure_slots: x");
}

//! Storages and sources that live in memory.

use std::path::PathBuf;
use std::time::Duration;

use brook::domain::file::File;
use brook::domain::id::{AttemptId, FileId, WorkerId};
use brook::domain::spec::FileSpec;
use brook::domain::status::{AttemptStatus, FileStatus, WorkerStatus};
use brook::domain::time::Moment;
use brook::error::Error;
use brook::ports::http::{RangeError, RangeGuard};
use brook::ports::prepared::PreparedMode;
use brook::testing::file_presence::AlwaysPresent;
use brook::testing::memory_piece_storage::{MemoryPieceStorage, MemoryPieceStorageFactory};
use brook::testing::memory_queue_store::MemoryTQueueStore;
use brook::testing::memory_tracking::{MemoryAttemptRepo, MemoryWorkerRepo};
use brook::testing::mock_fetch::{sequential_bytes, FetchOutcome, MockRangeFetch};

fn spec(url: &str) -> FileSpec {
    FileSpec::new(url, PathBuf::from("/tmp"))
}

fn make(url: &str) -> File {
    File::new(FileId::new(), spec(url))
}

#[test]
fn round_trip_write_commit_finalize() {
    let mut storage = MemoryPieceStorage::new(3, 4);
    assert_eq!(storage.pending_pieces().unwrap(), vec![0, 1, 2]);

    storage.write_piece_bytes(0, 0, &[0xAA, 0xBB]).unwrap();
    storage.write_piece_bytes(0, 2, &[0xCC, 0xDD]).unwrap();
    storage.write_piece_bytes(1, 0, &[1, 2, 3, 4]).unwrap();
    storage.write_piece_bytes(2, 0, &[9, 9, 9, 9]).unwrap();

    storage.commit_done(0).unwrap();
    storage.commit_done(1).unwrap();
    assert_eq!(storage.pending_pieces().unwrap(), vec![2]);

    assert!(storage.finalize().is_err());

    storage.commit_done(2).unwrap();
    assert!(storage.pending_pieces().unwrap().is_empty());

    storage.finalize().unwrap();

    assert_eq!(
        storage.assembled_bytes(),
        vec![0xAA, 0xBB, 0xCC, 0xDD, 1, 2, 3, 4, 9, 9, 9, 9]
    );
    let snap = storage.snapshot();
    assert_eq!(snap.committed, vec![0, 1, 2]);
    assert!(snap.finalized);
    assert!(!snap.aborted);
}

#[test]
fn write_after_finalize_is_rejected() {
    let mut s = MemoryPieceStorage::new(1, 2);
    s.write_piece_bytes(0, 0, &[1, 2]).unwrap();
    s.commit_done(0).unwrap();
    s.finalize().unwrap();
    assert!(s.write_piece_bytes(0, 0, &[3, 4]).is_err());
}

#[test]
fn abort_wipes_state_and_blocks_commit() {
    let mut s = MemoryPieceStorage::new(2, 4);
    s.write_piece_bytes(0, 0, &[1, 2, 3, 4]).unwrap();
    s.commit_done(0).unwrap();
    s.abort().unwrap();

    let snap = s.snapshot();
    assert!(snap.aborted);
    assert!(snap.committed.is_empty());
    assert_eq!(s.assembled_bytes(), Vec::<u8>::new());
    assert!(s.commit_done(1).is_err());
}

#[test]
fn write_out_of_bounds_errors() {
    let mut s = MemoryPieceStorage::new(1, 4);
    assert!(s.write_piece_bytes(5, 0, &[0]).is_err());
    assert!(s.write_piece_bytes(0, 3, &[0, 0]).is_err());
}

#[test]
fn factory_creates_independent_storages() {
    let factory = MemoryPieceStorageFactory::new(2, 3);
    let spec = spec("https://example.com/a");
    let a = factory.prepare(FileId::new(), &spec).unwrap();
    let b = factory.prepare(FileId::new(), &spec).unwrap();

    match &a.mode {
        PreparedMode::Known { total_size, piece_size, accepts_ranges, guard } => {
            assert_eq!(*total_size, 6);
            assert_eq!(*piece_size, 3);
            assert!(*accepts_ranges);
            assert!(guard.is_none());
        }
        PreparedMode::Streaming => panic!("expected a known size"),
    }

    let mut a = a.piece_storage.unwrap();
    let b = b.piece_storage.unwrap();
    a.write_piece_bytes(0, 0, &[1, 2, 3]).unwrap();
    a.commit_done(0).unwrap();

    assert_eq!(a.pending_pieces().unwrap(), vec![1]);
    assert_eq!(b.pending_pieces().unwrap(), vec![0, 1]);
}

#[test]
fn factory_takes_guard_and_ranges() {
    let factory = MemoryPieceStorageFactory::new(1, 8)
        .with_accepts_ranges(false)
        .with_guard(Some(RangeGuard::Etag("\"v1\"".into())));
    let p = factory.prepare(FileId::new(), &spec("https://x")).unwrap();
    assert_eq!(
        p.mode,
        PreparedMode::Known {
            total_size: 8,
            piece_size: 8,
            accepts_ranges: false,
            guard: Some(RangeGuard::Etag("\"v1\"".into())),
        }
    );
}

#[test]
fn round_trip_insert_load_update_remove() {
    let mut store = MemoryTQueueStore::new();
    assert!(store.load_all().unwrap().is_empty());

    let a = make("https://example.com/a");
    let b = make("https://example.com/b");
    store.insert(&a).unwrap();
    store.insert(&b).unwrap();

    let loaded = store.load_all().unwrap();
    assert_eq!(loaded.len(), 2);
    let loaded_ids: Vec<_> = loaded.iter().map(|d| d.id).collect();
    assert!(loaded_ids.contains(&a.id) && loaded_ids.contains(&b.id));

    let before = loaded.iter().find(|d| d.id == a.id).unwrap().updated_at;
    store.update_status(a.id, FileStatus::Running, Moment::now()).unwrap();
    let after_list = store.load_all().unwrap();
    let after_a = after_list.iter().find(|d| d.id == a.id).unwrap();
    assert_eq!(after_a.status, FileStatus::Running);
    assert!(after_a.updated_at >= before);

    store.remove(a.id).unwrap();
    let after_remove = store.load_all().unwrap();
    assert_eq!(after_remove.len(), 1);
    assert_eq!(after_remove[0].id, b.id);
    assert_eq!(store.len(), 1);
    assert!(!store.is_empty());
}

#[test]
fn insert_duplicate_errors() {
    let mut store = MemoryTQueueStore::new();
    let d = make("https://example.com/x");
    store.insert(&d).unwrap();
    assert!(store.insert(&d).is_err());
}

#[test]
fn update_missing_errors() {
    let mut store = MemoryTQueueStore::default();
    let missing = FileId::new();
    assert!(matches!(
        store.update_status(missing, FileStatus::Paused, Moment::now()),
        Err(Error::NotFound)
    ));
}

#[test]
fn remove_missing_errors() {
    let mut store = MemoryTQueueStore::new();
    let missing = FileId::new();
    assert!(matches!(store.remove(missing), Err(Error::NotFound)));
}

#[test]
fn loaded_rows_are_in_order_of_creation() {
    let mut store = MemoryTQueueStore::new();
    let at = |secs: i64| {
        File::new_at(FileId::new(), spec("https://x"), Moment { secs, nanos: 0 })
    };
    let (a, b, c) = (at(30), at(10), at(20));
    store.insert(&a).unwrap();
    store.insert(&b).unwrap();
    store.insert(&c).unwrap();
    let ids: Vec<_> = store.load_all().unwrap().iter().map(|f| f.id).collect();
    assert_eq!(ids, vec![b.id, c.id, a.id]);
}

#[test]
fn source_answers_by_its_queue() {
    let mut f = MockRangeFetch::always_ok(sequential_bytes(10));
    f.push_outcomes(vec![
        FetchOutcome::Transient,
        FetchOutcome::Permanent,
        FetchOutcome::SourceMutated,
    ]);
    assert_eq!(f.fetch_full(), Err(RangeError::UnexpectedStatus { code: 503 }));
    assert_eq!(f.fetch_range(0, 4), Err(RangeError::UnexpectedStatus { code: 401 }));
    assert_eq!(f.fetch_full(), Err(RangeError::SourceMutated));
    assert_eq!(f.fetch_range(3, 4), Ok(vec![3, 4, 5, 6]));
    assert_eq!(f.fetch_full(), Ok((0..10).collect::<Vec<u8>>()));
    assert_eq!(f.calls(), 5);
    assert_eq!(f.delay(), None);
    let f = f.with_delay(Duration::from_millis(30));
    assert_eq!(f.delay(), Some(Duration::from_millis(30)));
}

#[test]
fn sequential_bytes_wrap_at_251() {
    let v = sequential_bytes(300);
    assert_eq!(v.len(), 300);
    assert_eq!(v[250], 250);
    assert_eq!(v[251], 0);
    assert_eq!(v[299], 48);
}

#[test]
fn files_are_always_present() {
    assert!(AlwaysPresent.is_present());
}

#[test]
fn new_session_pauses_the_workers_of_the_last_one() {
    let mut repo = MemoryWorkerRepo::new();
    let file = FileId::new();
    let other = FileId::new();
    let kept = repo.ensure_slots(other, 1).unwrap();
    let first = repo.ensure_slots(file, 2).unwrap();
    let second = repo.ensure_slots(file, 3).unwrap();
    assert_eq!(second.len(), 3);
    assert_eq!(second.iter().map(|r| r.slot_index).collect::<Vec<_>>(), vec![0, 1, 2]);
    for row in repo.by_file(file) {
        let expected = if first.iter().any(|r| r.id == row.id) {
            WorkerStatus::Paused
        } else {
            WorkerStatus::Running
        };
        assert_eq!(row.status, expected);
    }
    assert_eq!(repo.by_file(other)[0].id, kept[0].id);
    assert_eq!(repo.by_file(other)[0].status, WorkerStatus::Running);
    assert_eq!(repo.snapshot().len(), 6);
}

#[test]
fn workers_are_marked() {
    let mut repo = MemoryWorkerRepo::default();
    let file = FileId::new();
    let rows = repo.ensure_slots(file, 4).unwrap();
    repo.mark_paused(rows[0].id).unwrap();
    repo.mark_done(rows[1].id).unwrap();
    repo.mark_failed(rows[2].id, "boom".to_string()).unwrap();
    repo.mark_cancelled(rows[3].id).unwrap();
    repo.mark_done(WorkerId::new()).unwrap();
    let find = |i: usize| repo.by_file(file).into_iter().find(|r| r.id == rows[i].id).unwrap();
    assert_eq!(find(0).status, WorkerStatus::Paused);
    assert_eq!(find(1).status, WorkerStatus::Done);
    assert_eq!(find(2).status, WorkerStatus::Failed);
    assert_eq!(find(2).error.as_deref(), Some("boom"));
    assert_eq!(find(3).status, WorkerStatus::Cancelled);
}

#[test]
fn attempts_are_closed() {
    let mut repo = MemoryAttemptRepo::new();
    let file = FileId::new();
    let worker = WorkerId::new();
    let ids: Vec<AttemptId> = (0..5)
        .map(|_| repo.start(file, 7, worker).unwrap().id)
        .collect();
    repo.finish(ids[0], 99).unwrap();
    repo.fail(ids[1], "boom".to_string()).unwrap();
    repo.cancel(ids[2]).unwrap();
    repo.pause(ids[3]).unwrap();
    let status = |repo: &MemoryAttemptRepo, i: usize| {
        repo.by_piece(file, 7).into_iter().find(|r| r.id == ids[i]).unwrap()
    };
    assert_eq!(status(&repo, 0).status, AttemptStatus::Done);
    assert_eq!(status(&repo, 0).bytes, 99);
    assert_eq!(status(&repo, 1).status, AttemptStatus::Failed);
    assert_eq!(status(&repo, 1).error.as_deref(), Some("boom"));
    assert_eq!(status(&repo, 2).status, AttemptStatus::Cancelled);
    assert_eq!(status(&repo, 3).status, AttemptStatus::Paused);
    assert_eq!(status(&repo, 4).status, AttemptStatus::Running);
    repo.pause_all_running_for_file(FileId::new()).unwrap();
    assert_eq!(status(&repo, 4).status, AttemptStatus::Running);
    repo.pause_all_running_globally().unwrap();
    assert_eq!(status(&repo, 4).status, AttemptStatus::Paused);
    assert!(repo.by_piece(file, 8).is_empty());
    assert_eq!(repo.snapshot().len(), 5);
}

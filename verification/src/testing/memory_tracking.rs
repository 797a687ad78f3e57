//! The rows of workers and attempts, in memory.

use std::collections::HashMap;
use vstd::prelude::*;
use crate::domain::id::{is_random_uuid, AttemptId, FileId, WorkerId};
use crate::domain::status::{AttemptStatus, WorkerStatus};
use crate::error::Error;
use crate::ports::records::{AttemptRecord, WorkerRecord};
use crate::text::clone_text;

verus! {

broadcast use vstd::std_specs::hash::group_hash_axioms;

/// The row of a worker.
#[derive(Debug, PartialEq, Eq)]
pub struct MemoryWorkerRow {
    pub id: WorkerId,
    pub file_id: FileId,
    pub slot_index: usize,
    pub status: WorkerStatus,
    pub error: Option<String>,
}

impl Clone for MemoryWorkerRow {
    fn clone(&self) -> (r: MemoryWorkerRow)
        ensures
            r == *self,
    {
        MemoryWorkerRow {
            id: self.id,
            file_id: self.file_id,
            slot_index: self.slot_index,
            status: self.status,
            error: clone_text(&self.error),
        }
    }
}

/// The row of an attempt.
#[derive(Debug, PartialEq, Eq)]
pub struct MemoryAttemptRow {
    pub id: AttemptId,
    pub file_id: FileId,
    pub piece_number: u32,
    pub worker_id: WorkerId,
    pub status: AttemptStatus,
    pub bytes: u64,
    pub error: Option<String>,
}

impl Clone for MemoryAttemptRow {
    fn clone(&self) -> (r: MemoryAttemptRow)
        ensures
            r == *self,
    {
        MemoryAttemptRow {
            id: self.id,
            file_id: self.file_id,
            piece_number: self.piece_number,
            worker_id: self.worker_id,
            status: self.status,
            bytes: self.bytes,
            error: clone_text(&self.error),
        }
    }
}

/// The keys of a table.
fn keys_of<V>(rows: &HashMap<u128, V>) -> (keys: Vec<u128>)
    ensures
        keys@.no_duplicates(),
        keys@.to_set() == rows@.dom(),
{
    let mut keys: Vec<u128> = Vec::new();
    let it = rows.keys();
    let ghost all = vstd::std_specs::iter::IteratorSpec::remaining(&it);
    for k in iter: it
        invariant
            keys@.len() == iter.index(),
            iter.seq() == all,
            forall|i: int| 0 <= i < keys@.len() ==> keys@[i] == *all[i],
    {
        keys.push(*k);
    }
    assert(keys@ =~= all.unref());
    keys
}

/// Whether a row belongs to the file, or to any file where none is named.
pub open spec fn of_file(file_id: FileId, wanted: Option<FileId>) -> bool {
    wanted matches Some(f) ==> f == file_id
}

/// A worker's row with a running worker of the file paused.
pub open spec fn paused_worker(row: MemoryWorkerRow, wanted: Option<FileId>) -> MemoryWorkerRow {
    if row.status is Running && of_file(row.file_id, wanted) {
        MemoryWorkerRow { status: WorkerStatus::Paused, ..row }
    } else {
        row
    }
}

/// The rows with every running worker of the file paused.
pub open spec fn paused_workers(rows: Map<u128, MemoryWorkerRow>, wanted: Option<FileId>) -> Map<
    u128,
    MemoryWorkerRow,
> {
    rows.map_values(|row: MemoryWorkerRow| paused_worker(row, wanted))
}

/// A fresh row of a worker.
pub open spec fn fresh_worker(id: WorkerId, file_id: FileId, slot_index: usize) -> MemoryWorkerRow {
    MemoryWorkerRow { id, file_id, slot_index, status: WorkerStatus::Running, error: None }
}

/// The rows with fresh rows for the first `n` of `ids`, slot by slot.
pub open spec fn with_slots(
    rows: Map<u128, MemoryWorkerRow>,
    file_id: FileId,
    ids: Seq<WorkerId>,
    n: int,
) -> Map<u128, MemoryWorkerRow>
    decreases n,
{
    if n <= 0 {
        rows
    } else {
        with_slots(rows, file_id, ids, n - 1).insert(
            ids[n - 1]@,
            fresh_worker(ids[n - 1], file_id, (n - 1) as usize),
        )
    }
}

/// The rows with one worker's status set, and its error where there is one.
pub open spec fn marked_worker(
    rows: Map<u128, MemoryWorkerRow>,
    id: WorkerId,
    status: WorkerStatus,
    error: Option<String>,
) -> Map<u128, MemoryWorkerRow> {
    if rows.contains_key(id@) {
        rows.insert(
            id@,
            MemoryWorkerRow {
                status,
                error: match error {
                    Some(e) => Some(e),
                    None => rows[id@].error,
                },
                ..rows[id@]
            },
        )
    } else {
        rows
    }
}

/// Whether a worker's row comes before another one: by file, and by slot within a file.
pub open spec fn slot_order(a: MemoryWorkerRow, b: MemoryWorkerRow) -> bool {
    a.file_id@ < b.file_id@ || (a.file_id@ == b.file_id@ && a.slot_index <= b.slot_index)
}

/// Whether the rows come by file and slot.
pub open spec fn in_slot_order(rows: Seq<MemoryWorkerRow>) -> bool {
    forall|i: int, j: int|
        0 <= i < j < rows.len() ==> slot_order(#[trigger] rows[i], #[trigger] rows[j])
}

/// The rows of workers.
pub struct MemoryWorkerRepo {
    rows: HashMap<u128, MemoryWorkerRow>,
}

/// Puts a row behind all rows that come before it.
fn insert_in_slot_order(rows: &mut Vec<MemoryWorkerRow>, row: MemoryWorkerRow)
    requires
        in_slot_order(old(rows)@),
    ensures
        in_slot_order(final(rows)@),
        final(rows)@.to_multiset() == old(rows)@.to_multiset().insert(row),
{
    let file: u128 = row.file_id.as_uuid();
    let mut p: usize = rows.len();
    while p > 0 && !(rows[p - 1].file_id.as_uuid() < file || (rows[p - 1].file_id.as_uuid() == file
        && rows[p - 1].slot_index <= row.slot_index))
        invariant
            p <= rows@.len(),
            rows@ == old(rows)@,
            file == row.file_id@,
            forall|i: int| p <= i < rows@.len() ==> slot_order(row, #[trigger] rows@[i]),
        decreases p,
    {
        p = p - 1;
    }
    let ghost before = rows@;
    rows.insert(p, row);
    assert forall|i: int, j: int| 0 <= i < j < rows@.len() implies slot_order(
        #[trigger] rows@[i],
        #[trigger] rows@[j],
    ) by {
        if j < p {
            assert(rows@[i] == before[i] && rows@[j] == before[j]);
        } else if j == p {
            assert(rows@[i] == before[i]);
            if i < p - 1 {
                assert(slot_order(before[i], before[p - 1]));
            }
        } else {
            assert(rows@[j] == before[j - 1]);
            if i < p {
                assert(rows@[i] == before[i]);
            } else if i > p {
                assert(rows@[i] == before[i - 1]);
            }
        }
    }
    proof {
        before.to_multiset_ensures();
        vstd::seq_lib::to_multiset_insert(before, p as int, row);
    }
}

/// Whether `list` holds every row of a table once, in whatever order.
pub open spec fn lists_all<V>(list: Seq<V>, rows: Map<u128, V>) -> bool {
    exists|keys: Seq<u128>|
        {
            &&& keys.no_duplicates()
            &&& keys.to_set() == rows.dom()
            &&& list.to_multiset() == (#[trigger] rows_at(rows, keys)).to_multiset()
        }
}

/// The rows under the keys, in the order of the keys.
pub open spec fn rows_at<V>(rows: Map<u128, V>, keys: Seq<u128>) -> Seq<V> {
    keys.map_values(|k: u128| rows[k])
}

impl MemoryWorkerRepo {
    /// The rows.
    pub closed spec fn view(&self) -> Map<u128, MemoryWorkerRow> {
        self.rows@
    }

    /// No rows.
    pub fn new() -> (r: MemoryWorkerRepo)
        ensures
            r@ == Map::<u128, MemoryWorkerRow>::empty(),
    {
        MemoryWorkerRepo { rows: HashMap::new() }
    }

    /// All rows, by file and slot.
    pub fn snapshot(&self) -> (v: Vec<MemoryWorkerRow>)
        ensures
            lists_all(v@, self@),
            in_slot_order(v@),
    {
        let keys: Vec<u128> = keys_of(&self.rows);
        let mut v: Vec<MemoryWorkerRow> = Vec::new();
        let mut i: usize = 0;
        assert(rows_at(self@, keys@.take(0)) =~= Seq::<MemoryWorkerRow>::empty());
        while i < keys.len()
            invariant
                i <= keys@.len(),
                keys@.to_set() == self@.dom(),
                in_slot_order(v@),
                v@.to_multiset() == rows_at(self@, keys@.take(i as int)).to_multiset(),
            decreases keys@.len() - i,
        {
            assert(keys@.to_set().contains(keys@[i as int]));
            if let Some(row) = self.rows.get(&keys[i]) {
                let row: MemoryWorkerRow = row.clone();
                let ghost done = rows_at(self@, keys@.take(i as int));
                assert(rows_at(self@, keys@.take(i + 1)) =~= done.push(row));
                proof {
                    done.to_multiset_ensures();
                }
                insert_in_slot_order(&mut v, row);
            }
            i = i + 1;
        }
        assert(keys@.take(keys@.len() as int) =~= keys@);
        assert(v@.to_multiset() == rows_at(self@, keys@).to_multiset());
        v
    }

    /// The rows of a file, by slot.
    pub fn by_file(&self, file_id: FileId) -> (v: Vec<MemoryWorkerRow>)
        ensures
            exists|all: Seq<MemoryWorkerRow>|
                {
                    &&& lists_all(all, self@)
                    &&& in_slot_order(all)
                    &&& v@ == #[trigger] workers_of(all, file_id)
                },
    {
        let all: Vec<MemoryWorkerRow> = self.snapshot();
        let mut v: Vec<MemoryWorkerRow> = Vec::new();
        let mut i: usize = 0;
        assert(all@.take(0) =~= Seq::<MemoryWorkerRow>::empty());
        while i < all.len()
            invariant
                i <= all@.len(),
                v@ == workers_of(all@.take(i as int), file_id),
            decreases all@.len() - i,
        {
            assert(all@.take(i + 1).drop_last() =~= all@.take(i as int));
            if all[i].file_id == file_id {
                v.push(all[i].clone());
            }
            i = i + 1;
        }
        assert(all@.take(all@.len() as int) =~= all@);
        v
    }

    /// Pauses the running workers of a file, or of all files.
    fn sweep(&mut self, wanted: Option<FileId>)
        ensures
            final(self)@ == paused_workers(old(self)@, wanted),
    {
        let keys: Vec<u128> = keys_of(&self.rows);
        let ghost before = self@;
        let mut i: usize = 0;
        while i < keys.len()
            invariant
                i <= keys@.len(),
                before == old(self)@,
                keys@.no_duplicates(),
                keys@.to_set() == before.dom(),
                self@.dom() == before.dom(),
                forall|k: u128| #[trigger]
                    before.contains_key(k) ==> self@[k] == (if keys@.take(i as int).contains(k) {
                        paused_worker(before[k], wanted)
                    } else {
                        before[k]
                    }),
            decreases keys@.len() - i,
        {
            let key: u128 = keys[i];
            let ghost done = keys@.take(i as int);
            let ghost more = keys@.take(i + 1);
            assert(more =~= done.push(key));
            assert(keys@.to_set().contains(keys@[i as int]));
            assert(!done.contains(key)) by {
                if done.contains(key) {
                    let j = choose|j: int| 0 <= j < done.len() && done[j] == key;
                    assert(keys@[j] == keys@[i as int]);
                }
            }
            assert forall|k: u128| more.contains(k) == (done.contains(k) || k == key) by {
                if more.contains(k) {
                    let j = choose|j: int| 0 <= j < more.len() && more[j] == k;
                    if j < done.len() {
                        assert(done[j] == k);
                    }
                }
                if done.contains(k) {
                    let j = choose|j: int| 0 <= j < done.len() && done[j] == k;
                    assert(more[j] == k);
                }
                assert(more[done.len() as int] == key);
            }
            let found: Option<MemoryWorkerRow> = self.rows.remove(&key);
            if let Some(row) = found {
                let mut row: MemoryWorkerRow = row;
                let hit: bool = match wanted {
                    Some(f) => row.file_id == f,
                    None => true,
                };
                if hit && row.status == WorkerStatus::Running {
                    row.status = WorkerStatus::Paused;
                }
                assert(row == paused_worker(before[key], wanted));
                self.rows.insert(key, row);
            }
            assert(self@.dom() =~= before.dom());
            i = i + 1;
        }
        assert(keys@.take(keys@.len() as int) =~= keys@);
        assert forall|k: u128| #[trigger] before.contains_key(k) implies self@[k] == paused_worker(
            before[k],
            wanted,
        ) by {
            assert(keys@.to_set().contains(k));
        }
        assert(self@ =~= paused_workers(before, wanted));
    }

    /// Makes rows for the given workers of a file, slot by slot, after pausing what the last
    /// session left running.
    pub fn install_slots(&mut self, file_id: FileId, ids: &Vec<WorkerId>) -> (records: Vec<
        WorkerRecord,
    >)
        ensures
            final(self)@ == with_slots(
                paused_workers(old(self)@, Some(file_id)),
                file_id,
                ids@,
                ids@.len() as int,
            ),
            records@.len() == ids@.len(),
            forall|i: int|
                0 <= i < ids@.len() ==> #[trigger] records@[i] == (WorkerRecord {
                    id: ids@[i],
                    file_id,
                    slot_index: i as usize,
                    started_at: 0,
                    finished_at: None,
                }),
    {
        self.sweep(Some(file_id));
        let ghost swept = self@;
        let mut records: Vec<WorkerRecord> = Vec::new();
        let mut slot: usize = 0;
        while slot < ids.len()
            invariant
                slot <= ids@.len(),
                self@ == with_slots(swept, file_id, ids@, slot as int),
                records@.len() == slot,
                forall|i: int|
                    0 <= i < slot ==> #[trigger] records@[i] == (WorkerRecord {
                        id: ids@[i],
                        file_id,
                        slot_index: i as usize,
                        started_at: 0,
                        finished_at: None,
                    }),
            decreases ids@.len() - slot,
        {
            let id: WorkerId = ids[slot];
            self.rows.insert(
                id.as_uuid(),
                MemoryWorkerRow {
                    id,
                    file_id,
                    slot_index: slot,
                    status: WorkerStatus::Running,
                    error: None,
                },
            );
            records.push(
                WorkerRecord { id, file_id, slot_index: slot, started_at: 0, finished_at: None },
            );
            slot = slot + 1;
        }
        records
    }

    /// Makes `n` rows with fresh identifiers for a file, after pausing what the last session
    /// left running.
    pub fn ensure_slots(&mut self, file_id: FileId, n: usize) -> (r: Result<
        Vec<WorkerRecord>,
        Error,
    >)
        ensures
            r matches Ok(records) && records@.len() == n && forall|i: int|
                0 <= i < n ==> (#[trigger] records@[i]).file_id == file_id && records@[i].slot_index
                    == i && is_random_uuid(records@[i].id@),
            exists|ids: Seq<WorkerId>|
                {
                    &&& ids.len() == n
                    &&& final(self)@ == #[trigger] with_slots(
                        paused_workers(old(self)@, Some(file_id)),
                        file_id,
                        ids,
                        n as int,
                    )
                    &&& r matches Ok(records) && forall|i: int|
                        0 <= i < n ==> (#[trigger] records@[i]).id == ids[i]
                },
    {
        let mut ids: Vec<WorkerId> = Vec::new();
        let mut i: usize = 0;
        while i < n
            invariant
                i <= n,
                ids@.len() == i,
                forall|j: int| 0 <= j < i ==> is_random_uuid((#[trigger] ids@[j])@),
            decreases n - i,
        {
            ids.push(WorkerId::new());
            i = i + 1;
        }
        let records: Vec<WorkerRecord> = self.install_slots(file_id, &ids);
        Ok(records)
    }

    /// Sets the status of a worker that has a row, and its error where there is one.
    fn set_status(&mut self, id: WorkerId, status: WorkerStatus, error: Option<String>) -> (r:
        Result<(), Error>)
        ensures
            r is Ok,
            final(self)@ == marked_worker(old(self)@, id, status, error),
    {
        let found: Option<MemoryWorkerRow> = self.rows.remove(&id.as_uuid());
        match found {
            Some(row) => {
                let mut row: MemoryWorkerRow = row;
                row.status = status;
                if let Some(e) = error {
                    row.error = Some(e);
                }
                self.rows.insert(id.as_uuid(), row);
            },
            None => {},
        }
        assert(self@ =~= marked_worker(old(self)@, id, status, error));
        Ok(())
    }

    /// Marks a worker as paused.
    pub fn mark_paused(&mut self, id: WorkerId) -> (r: Result<(), Error>)
        ensures
            r is Ok,
            final(self)@ == marked_worker(old(self)@, id, WorkerStatus::Paused, None),
    {
        self.set_status(id, WorkerStatus::Paused, None)
    }

    /// Marks a worker as done.
    pub fn mark_done(&mut self, id: WorkerId) -> (r: Result<(), Error>)
        ensures
            r is Ok,
            final(self)@ == marked_worker(old(self)@, id, WorkerStatus::Done, None),
    {
        self.set_status(id, WorkerStatus::Done, None)
    }

    /// Marks a worker as failed.
    pub fn mark_failed(&mut self, id: WorkerId, error: String) -> (r: Result<(), Error>)
        ensures
            r is Ok,
            final(self)@ == marked_worker(old(self)@, id, WorkerStatus::Failed, Some(error)),
    {
        self.set_status(id, WorkerStatus::Failed, Some(error))
    }

    /// Marks a worker as cancelled.
    pub fn mark_cancelled(&mut self, id: WorkerId) -> (r: Result<(), Error>)
        ensures
            r is Ok,
            final(self)@ == marked_worker(old(self)@, id, WorkerStatus::Cancelled, None),
    {
        self.set_status(id, WorkerStatus::Cancelled, None)
    }

    /// Pauses the running workers of a file.
    pub fn pause_all_running_for_file(&mut self, file_id: FileId) -> (r: Result<(), Error>)
        ensures
            r is Ok,
            final(self)@ == paused_workers(old(self)@, Some(file_id)),
    {
        self.sweep(Some(file_id));
        Ok(())
    }

    /// Pauses the running workers of all files.
    pub fn pause_all_running_globally(&mut self) -> (r: Result<(), Error>)
        ensures
            r is Ok,
            final(self)@ == paused_workers(old(self)@, None),
    {
        self.sweep(None);
        Ok(())
    }
}

impl Default for MemoryWorkerRepo {
    fn default() -> (r: MemoryWorkerRepo)
        ensures
            r@ == Map::<u128, MemoryWorkerRow>::empty(),
    {
        MemoryWorkerRepo::new()
    }
}

/// The rows of a file, in the same order.
pub open spec fn workers_of(rows: Seq<MemoryWorkerRow>, file_id: FileId) -> Seq<MemoryWorkerRow>
    decreases rows.len(),
{
    if rows.len() == 0 {
        rows
    } else if rows.last().file_id == file_id {
        workers_of(rows.drop_last(), file_id).push(rows.last())
    } else {
        workers_of(rows.drop_last(), file_id)
    }
}

/// After rows have been made for a session, the running workers of the file are exactly
/// those of the session; the workers of other files are as before.
pub proof fn session_has_the_only_running_workers(
    rows: Map<u128, MemoryWorkerRow>,
    file_id: FileId,
    ids: Seq<WorkerId>,
    n: int,
    k: u128,
)
    requires
        0 <= n <= ids.len(),
    ensures
        ({
            let next = with_slots(paused_workers(rows, Some(file_id)), file_id, ids, n);
            let ours = exists|i: int| 0 <= i < n && (#[trigger] ids[i])@ == k;
            &&& next.contains_key(k) <==> rows.contains_key(k) || ours
            &&& next.contains_key(k) && next[k].file_id == file_id && next[k].status is Running
                ==> ours
            &&& ours ==> next[k].status is Running && next[k].file_id == file_id
            &&& !ours && rows.contains_key(k) && rows[k].file_id != file_id ==> next[k] == rows[k]
        }),
    decreases n,
{
    if n > 0 {
        session_has_the_only_running_workers(rows, file_id, ids, n - 1, k);
        let before = with_slots(paused_workers(rows, Some(file_id)), file_id, ids, n - 1);
        if ids[n - 1]@ == k {
        } else {
            assert forall|i: int| 0 <= i < n && (#[trigger] ids[i])@ == k implies i < n - 1 by {}
        }
    }
}

/// An attempt's row with a running attempt of the file paused.
pub open spec fn paused_attempt(row: MemoryAttemptRow, wanted: Option<FileId>) -> MemoryAttemptRow {
    if row.status is Running && of_file(row.file_id, wanted) {
        MemoryAttemptRow { status: AttemptStatus::Paused, ..row }
    } else {
        row
    }
}

/// The rows with every running attempt of the file paused.
pub open spec fn paused_attempts(rows: Map<u128, MemoryAttemptRow>, wanted: Option<FileId>) -> Map<
    u128,
    MemoryAttemptRow,
> {
    rows.map_values(|row: MemoryAttemptRow| paused_attempt(row, wanted))
}

/// The rows with the row of one attempt replaced, if it has one.
pub open spec fn changed_attempt(
    rows: Map<u128, MemoryAttemptRow>,
    id: AttemptId,
    change: spec_fn(MemoryAttemptRow) -> MemoryAttemptRow,
) -> Map<u128, MemoryAttemptRow> {
    if rows.contains_key(id@) {
        rows.insert(id@, change(rows[id@]))
    } else {
        rows
    }
}

/// The rows of attempts.
pub struct MemoryAttemptRepo {
    rows: HashMap<u128, MemoryAttemptRow>,
}

impl MemoryAttemptRepo {
    /// The rows.
    pub closed spec fn view(&self) -> Map<u128, MemoryAttemptRow> {
        self.rows@
    }

    /// No rows.
    pub fn new() -> (r: MemoryAttemptRepo)
        ensures
            r@ == Map::<u128, MemoryAttemptRow>::empty(),
    {
        MemoryAttemptRepo { rows: HashMap::new() }
    }

    /// All rows, in no particular order.
    pub fn snapshot(&self) -> (v: Vec<MemoryAttemptRow>)
        ensures
            lists_all(v@, self@),
    {
        let keys: Vec<u128> = keys_of(&self.rows);
        let mut v: Vec<MemoryAttemptRow> = Vec::new();
        let mut i: usize = 0;
        while i < keys.len()
            invariant
                i <= keys@.len(),
                keys@.to_set() == self@.dom(),
                v@ == rows_at(self@, keys@.take(i as int)),
            decreases keys@.len() - i,
        {
            assert(keys@.to_set().contains(keys@[i as int]));
            if let Some(row) = self.rows.get(&keys[i]) {
                v.push(row.clone());
            }
            i = i + 1;
            assert(v@ =~= rows_at(self@, keys@.take(i as int)));
        }
        assert(keys@.take(keys@.len() as int) =~= keys@);
        assert(v@.to_multiset() == rows_at(self@, keys@).to_multiset());
        v
    }

    /// The attempts at a piece of a file, in no particular order.
    pub fn by_piece(&self, file_id: FileId, piece: u32) -> (v: Vec<MemoryAttemptRow>)
        ensures
            exists|all: Seq<MemoryAttemptRow>|
                lists_all(all, self@) && v@ == #[trigger] attempts_at(all, file_id, piece),
    {
        let all: Vec<MemoryAttemptRow> = self.snapshot();
        let mut v: Vec<MemoryAttemptRow> = Vec::new();
        let mut i: usize = 0;
        assert(all@.take(0) =~= Seq::<MemoryAttemptRow>::empty());
        while i < all.len()
            invariant
                i <= all@.len(),
                v@ == attempts_at(all@.take(i as int), file_id, piece),
            decreases all@.len() - i,
        {
            assert(all@.take(i + 1).drop_last() =~= all@.take(i as int));
            if all[i].file_id == file_id && all[i].piece_number == piece {
                v.push(all[i].clone());
            }
            i = i + 1;
        }
        assert(all@.take(all@.len() as int) =~= all@);
        v
    }

    /// Makes a row for an attempt with a given identifier.
    pub fn install_attempt(
        &mut self,
        id: AttemptId,
        file_id: FileId,
        piece_number: u32,
        worker_id: WorkerId,
    ) -> (rec: AttemptRecord)
        ensures
            final(self)@ == old(self)@.insert(
                id@,
                MemoryAttemptRow {
                    id,
                    file_id,
                    piece_number,
                    worker_id,
                    status: AttemptStatus::Running,
                    bytes: 0,
                    error: None,
                },
            ),
            rec.id == id,
            rec.worker_id == worker_id,
            rec.piece_id@.len() == 0,
            rec.started_at == 0,
            rec.finished_at is None,
            rec.bytes == 0,
    {
        self.rows.insert(
            id.as_uuid(),
            MemoryAttemptRow {
                id,
                file_id,
                piece_number,
                worker_id,
                status: AttemptStatus::Running,
                bytes: 0,
                error: None,
            },
        );
        AttemptRecord {
            id,
            piece_id: String::new(),
            worker_id,
            started_at: 0,
            finished_at: None,
            bytes: 0,
        }
    }

    /// Makes a row with a fresh identifier for an attempt that begins.
    pub fn start(&mut self, file_id: FileId, piece_number: u32, worker_id: WorkerId) -> (r: Result<
        AttemptRecord,
        Error,
    >)
        ensures
            r matches Ok(rec) && rec.worker_id == worker_id && rec.bytes == 0 && is_random_uuid(
                rec.id@,
            ) && final(self)@ == old(self)@.insert(
                rec.id@,
                MemoryAttemptRow {
                    id: rec.id,
                    file_id,
                    piece_number,
                    worker_id,
                    status: AttemptStatus::Running,
                    bytes: 0,
                    error: None,
                },
            ),
    {
        let rec: AttemptRecord = self.install_attempt(
            AttemptId::new(),
            file_id,
            piece_number,
            worker_id,
        );
        Ok(rec)
    }

    /// Marks an attempt as done.
    pub fn finish(&mut self, id: AttemptId, bytes: u64) -> (r: Result<(), Error>)
        ensures
            r is Ok,
            final(self)@ == changed_attempt(
                old(self)@,
                id,
                |row: MemoryAttemptRow|
                    MemoryAttemptRow { status: AttemptStatus::Done, bytes, ..row },
            ),
    {
        let found: Option<MemoryAttemptRow> = self.rows.remove(&id.as_uuid());
        if let Some(row) = found {
            let mut row: MemoryAttemptRow = row;
            row.status = AttemptStatus::Done;
            row.bytes = bytes;
            self.rows.insert(id.as_uuid(), row);
        }
        assert(self@ =~= changed_attempt(
            old(self)@,
            id,
            |row: MemoryAttemptRow| MemoryAttemptRow { status: AttemptStatus::Done, bytes, ..row },
        ));
        Ok(())
    }

    /// Marks an attempt as failed.
    pub fn fail(&mut self, id: AttemptId, error: String) -> (r: Result<(), Error>)
        ensures
            r is Ok,
            final(self)@ == changed_attempt(
                old(self)@,
                id,
                |row: MemoryAttemptRow|
                    MemoryAttemptRow {
                        status: AttemptStatus::Failed,
                        error: Some(error),
                        ..row
                    },
            ),
    {
        let ghost change = |row: MemoryAttemptRow|
            MemoryAttemptRow { status: AttemptStatus::Failed, error: Some(error), ..row };
        let found: Option<MemoryAttemptRow> = self.rows.remove(&id.as_uuid());
        if let Some(row) = found {
            let mut row: MemoryAttemptRow = row;
            row.status = AttemptStatus::Failed;
            row.error = Some(error);
            self.rows.insert(id.as_uuid(), row);
        }
        assert(self@ =~= changed_attempt(old(self)@, id, change));
        Ok(())
    }

    /// Sets the status of an attempt that has a row.
    fn set_status(&mut self, id: AttemptId, status: AttemptStatus)
        ensures
            final(self)@ == changed_attempt(
                old(self)@,
                id,
                |row: MemoryAttemptRow| MemoryAttemptRow { status, ..row },
            ),
    {
        let found: Option<MemoryAttemptRow> = self.rows.remove(&id.as_uuid());
        if let Some(row) = found {
            let mut row: MemoryAttemptRow = row;
            row.status = status;
            self.rows.insert(id.as_uuid(), row);
        }
        assert(self@ =~= changed_attempt(
            old(self)@,
            id,
            |row: MemoryAttemptRow| MemoryAttemptRow { status, ..row },
        ));
    }

    /// Marks an attempt as cancelled.
    pub fn cancel(&mut self, id: AttemptId) -> (r: Result<(), Error>)
        ensures
            r is Ok,
            final(self)@ == changed_attempt(
                old(self)@,
                id,
                |row: MemoryAttemptRow|
                    MemoryAttemptRow { status: AttemptStatus::Cancelled, ..row },
            ),
    {
        self.set_status(id, AttemptStatus::Cancelled);
        Ok(())
    }

    /// Marks an attempt as paused.
    pub fn pause(&mut self, id: AttemptId) -> (r: Result<(), Error>)
        ensures
            r is Ok,
            final(self)@ == changed_attempt(
                old(self)@,
                id,
                |row: MemoryAttemptRow| MemoryAttemptRow { status: AttemptStatus::Paused, ..row },
            ),
    {
        self.set_status(id, AttemptStatus::Paused);
        Ok(())
    }

    /// Pauses the running attempts of a file, or of all files.
    fn sweep(&mut self, wanted: Option<FileId>)
        ensures
            final(self)@ == paused_attempts(old(self)@, wanted),
    {
        let keys: Vec<u128> = keys_of(&self.rows);
        let ghost before = self@;
        let mut i: usize = 0;
        while i < keys.len()
            invariant
                i <= keys@.len(),
                before == old(self)@,
                keys@.no_duplicates(),
                keys@.to_set() == before.dom(),
                self@.dom() == before.dom(),
                forall|k: u128| #[trigger]
                    before.contains_key(k) ==> self@[k] == (if keys@.take(i as int).contains(k) {
                        paused_attempt(before[k], wanted)
                    } else {
                        before[k]
                    }),
            decreases keys@.len() - i,
        {
            let key: u128 = keys[i];
            let ghost done = keys@.take(i as int);
            let ghost more = keys@.take(i + 1);
            assert(more =~= done.push(key));
            assert(keys@.to_set().contains(keys@[i as int]));
            assert(!done.contains(key)) by {
                if done.contains(key) {
                    let j = choose|j: int| 0 <= j < done.len() && done[j] == key;
                    assert(keys@[j] == keys@[i as int]);
                }
            }
            assert forall|k: u128| more.contains(k) == (done.contains(k) || k == key) by {
                if more.contains(k) {
                    let j = choose|j: int| 0 <= j < more.len() && more[j] == k;
                    if j < done.len() {
                        assert(done[j] == k);
                    }
                }
                if done.contains(k) {
                    let j = choose|j: int| 0 <= j < done.len() && done[j] == k;
                    assert(more[j] == k);
                }
                assert(more[done.len() as int] == key);
            }
            let found: Option<MemoryAttemptRow> = self.rows.remove(&key);
            if let Some(row) = found {
                let mut row: MemoryAttemptRow = row;
                let hit: bool = match wanted {
                    Some(f) => row.file_id == f,
                    None => true,
                };
                if hit && row.status == AttemptStatus::Running {
                    row.status = AttemptStatus::Paused;
                }
                assert(row == paused_attempt(before[key], wanted));
                self.rows.insert(key, row);
            }
            assert(self@.dom() =~= before.dom());
            i = i + 1;
        }
        assert(keys@.take(keys@.len() as int) =~= keys@);
        assert forall|k: u128| #[trigger] before.contains_key(k) implies self@[k] == paused_attempt(
            before[k],
            wanted,
        ) by {
            assert(keys@.to_set().contains(k));
        }
        assert(self@ =~= paused_attempts(before, wanted));
    }

    /// Pauses the running attempts of a file.
    pub fn pause_all_running_for_file(&mut self, file_id: FileId) -> (r: Result<(), Error>)
        ensures
            r is Ok,
            final(self)@ == paused_attempts(old(self)@, Some(file_id)),
    {
        self.sweep(Some(file_id));
        Ok(())
    }

    /// Pauses the running attempts of all files.
    pub fn pause_all_running_globally(&mut self) -> (r: Result<(), Error>)
        ensures
            r is Ok,
            final(self)@ == paused_attempts(old(self)@, None),
    {
        self.sweep(None);
        Ok(())
    }
}

impl Default for MemoryAttemptRepo {
    fn default() -> (r: MemoryAttemptRepo)
        ensures
            r@ == Map::<u128, MemoryAttemptRow>::empty(),
    {
        MemoryAttemptRepo::new()
    }
}

/// The attempts at a piece of a file, in the same order.
pub open spec fn attempts_at(rows: Seq<MemoryAttemptRow>, file_id: FileId, piece: u32) -> Seq<
    MemoryAttemptRow,
>
    decreases rows.len(),
{
    if rows.len() == 0 {
        rows
    } else if rows.last().file_id == file_id && rows.last().piece_number == piece {
        attempts_at(rows.drop_last(), file_id, piece).push(rows.last())
    } else {
        attempts_at(rows.drop_last(), file_id, piece)
    }
}

/// After the attempts of a file were paused, none of them is running.
pub proof fn paused_attempts_do_not_run(
    rows: Map<u128, MemoryAttemptRow>,
    wanted: Option<FileId>,
    k: u128,
)
    requires
        rows.contains_key(k),
        of_file(rows[k].file_id, wanted),
    ensures
        paused_attempts(rows, wanted)[k].status !is Running,
{
}

/// Pausing pauses the running workers of the file, or of all files, and no other.
pub proof fn only_running_workers_are_paused(
    rows: Map<u128, MemoryWorkerRow>,
    wanted: Option<FileId>,
    k: u128,
)
    requires
        rows.contains_key(k),
    ensures
        ({
            let before = rows[k];
            let after = paused_workers(rows, wanted)[k];
            let meant = wanted is None || wanted == Some(before.file_id);
            &&& paused_workers(rows, wanted).dom() == rows.dom()
            &&& before.status is Running && meant ==> after == (MemoryWorkerRow {
                status: WorkerStatus::Paused,
                ..before
            })
            &&& !(before.status is Running && meant) ==> after == before
        }),
{
    assert(paused_workers(rows, wanted).dom() =~= rows.dom());
}

/// Pausing pauses the running attempts of the file, or of all files, and no other.
pub proof fn only_running_attempts_are_paused(
    rows: Map<u128, MemoryAttemptRow>,
    wanted: Option<FileId>,
    k: u128,
)
    requires
        rows.contains_key(k),
    ensures
        ({
            let before = rows[k];
            let after = paused_attempts(rows, wanted)[k];
            let meant = wanted is None || wanted == Some(before.file_id);
            &&& paused_attempts(rows, wanted).dom() == rows.dom()
            &&& before.status is Running && meant ==> after == (MemoryAttemptRow {
                status: AttemptStatus::Paused,
                ..before
            })
            &&& !(before.status is Running && meant) ==> after == before
        }),
{
    assert(paused_attempts(rows, wanted).dom() =~= rows.dom());
}

/// Marking a worker sets the status of its row, and its error where there is one, and changes no
/// other row; a worker without a row gets none.
pub proof fn only_the_marked_worker_changes(
    rows: Map<u128, MemoryWorkerRow>,
    id: WorkerId,
    status: WorkerStatus,
    error: Option<String>,
    k: u128,
)
    ensures
        ({
            let next = marked_worker(rows, id, status, error);
            &&& next.dom() == rows.dom()
            &&& k != id@ && rows.contains_key(k) ==> next[k] == rows[k]
            &&& rows.contains_key(id@) ==> {
                &&& next[id@].status == status
                &&& error is Some ==> next[id@].error == error
                &&& error is None ==> next[id@].error == rows[id@].error
                &&& next[id@].id == rows[id@].id
                &&& next[id@].file_id == rows[id@].file_id
                &&& next[id@].slot_index == rows[id@].slot_index
            }
        }),
{
    assert(marked_worker(rows, id, status, error).dom() =~= rows.dom());
}

/// The worker of each slot gets a fresh row of its own: it runs, in its slot, without an error.
pub proof fn slots_get_fresh_rows(
    rows: Map<u128, MemoryWorkerRow>,
    file_id: FileId,
    ids: Seq<WorkerId>,
    n: int,
    i: int,
)
    requires
        0 <= i < n <= ids.len(),
        n <= usize::MAX,
        forall|a: int, b: int| 0 <= a < b < ids.len() ==> (#[trigger] ids[a])@ != (#[trigger] ids[b])@,
    ensures
        ({
            let next = with_slots(rows, file_id, ids, n);
            &&& next.contains_key(ids[i]@)
            &&& next[ids[i]@].id == ids[i]
            &&& next[ids[i]@].file_id == file_id
            &&& next[ids[i]@].slot_index == i
            &&& next[ids[i]@].status is Running
            &&& next[ids[i]@].error is None
        }),
    decreases n,
{
    if i < n - 1 {
        slots_get_fresh_rows(rows, file_id, ids, n - 1, i);
        assert(ids[i]@ != ids[n - 1]@);
    }
}

/// The rows of a file are those that name it, in the order of all rows.
pub proof fn rows_of_a_file_keep_their_order(rows: Seq<MemoryWorkerRow>, file_id: FileId)
    ensures
        workers_of(rows, file_id) == rows.filter(|row: MemoryWorkerRow| row.file_id == file_id),
    decreases rows.len(),
{
    reveal(Seq::filter);
    if rows.len() > 0 {
        rows_of_a_file_keep_their_order(rows.drop_last(), file_id);
    } else {
        assert(workers_of(rows, file_id) =~= rows.filter(
            |row: MemoryWorkerRow| row.file_id == file_id,
        ));
    }
}

/// The attempts at a piece are those that name it and its file, in the order of all rows.
pub proof fn attempts_at_a_piece_keep_their_order(
    rows: Seq<MemoryAttemptRow>,
    file_id: FileId,
    piece: u32,
)
    ensures
        attempts_at(rows, file_id, piece) == rows.filter(
            |row: MemoryAttemptRow| row.file_id == file_id && row.piece_number == piece,
        ),
    decreases rows.len(),
{
    reveal(Seq::filter);
    if rows.len() > 0 {
        attempts_at_a_piece_keep_their_order(rows.drop_last(), file_id, piece);
    } else {
        assert(attempts_at(rows, file_id, piece) =~= rows.filter(
            |row: MemoryAttemptRow| row.file_id == file_id && row.piece_number == piece,
        ));
    }
}

/// Rows that come by file and slot have the slots of one file in ascending order.
pub proof fn slots_ascend_within_a_file(rows: Seq<MemoryWorkerRow>, i: int, j: int)
    requires
        in_slot_order(rows),
        0 <= i < j < rows.len(),
    ensures
        rows[i].file_id@ <= rows[j].file_id@,
        rows[i].file_id@ == rows[j].file_id@ ==> rows[i].slot_index <= rows[j].slot_index,
{
    assert(slot_order(rows[i], rows[j]));
}

} // verus!

//! The queue of files, in memory.

use std::collections::HashMap;
use vstd::prelude::*;
use crate::domain::file::File;
use crate::domain::id::{hyphenated, FileId};
use crate::domain::status::FileStatus;
use crate::domain::time::Moment;
use crate::error::Error;
use crate::text::concat2;

verus! {

broadcast use vstd::std_specs::hash::group_hash_axioms;

/// The stored files.
pub struct MemoryTQueueStore {
    rows: HashMap<u128, File>,
}

/// Whether every row is found under the identifier of its file.
pub open spec fn rows_in_order(rows: Map<u128, File>) -> bool {
    forall|k: u128| #[trigger] rows.contains_key(k) ==> rows[k].id@ == k
}

/// Whether the files come by the time at which they were made.
pub open spec fn by_creation(files: Seq<File>) -> bool {
    forall|i: int, j: int|
        0 <= i < j < files.len() ==> (#[trigger] files[i]).created_at.at_most(
            (#[trigger] files[j]).created_at,
        )
}

/// Whether `files` are exactly the rows, each once.
pub open spec fn lists_rows(files: Seq<File>, rows: Map<u128, File>) -> bool {
    &&& forall|i: int|
        0 <= i < files.len() ==> rows.contains_key((#[trigger] files[i]).id@)
            && rows[files[i].id@] == files[i]
    &&& forall|i: int, j: int|
        0 <= i < j < files.len() ==> (#[trigger] files[i]).id@ != (#[trigger] files[j]).id@
    &&& forall|k: u128| #[trigger]
        rows.contains_key(k) ==> exists|i: int|
            0 <= i < files.len() && (#[trigger] files[i]).id@ == k
}

/// Puts a file behind all files that were made before it or at the same time.
fn insert_by_creation(files: &mut Vec<File>, f: File)
    requires
        by_creation(old(files)@),
    ensures
        by_creation(final(files)@),
        exists|p: int|
            0 <= p <= old(files)@.len() && final(files)@ == #[trigger] old(files)@.insert(p, f),
{
    let mut p: usize = files.len();
    while p > 0 && !files[p - 1].created_at.not_after(f.created_at)
        invariant
            p <= files@.len(),
            files@ == old(files)@,
            forall|i: int|
                p <= i < files@.len() ==> f.created_at.at_most((#[trigger] files@[i]).created_at),
        decreases p,
    {
        p = p - 1;
    }
    let ghost before = files@;
    files.insert(p, f);
    assert forall|i: int, j: int| 0 <= i < j < files@.len() implies (
    #[trigger] files@[i]).created_at.at_most((#[trigger] files@[j]).created_at) by {
        if j < p {
            assert(files@[i] == before[i] && files@[j] == before[j]);
        } else if j == p {
            assert(files@[i] == before[i]);
            if i < p - 1 {
                assert(before[i].created_at.at_most(before[p - 1].created_at));
            }
        } else {
            assert(files@[j] == before[j - 1]);
            if i < p {
                assert(files@[i] == before[i]);
            } else if i > p {
                assert(files@[i] == before[i - 1]);
            }
        }
    }
    assert(files@ == before.insert(p as int, f));
}

impl MemoryTQueueStore {
    /// The rows.
    pub closed spec fn view(&self) -> Map<u128, File> {
        self.rows@
    }

    /// A store without rows.
    pub fn new() -> (s: MemoryTQueueStore)
        ensures
            s@ == Map::<u128, File>::empty(),
    {
        MemoryTQueueStore { rows: HashMap::new() }
    }

    /// The number of rows.
    pub fn len(&self) -> (n: usize)
        ensures
            n == self@.len(),
    {
        self.rows.len()
    }

    /// Whether there is no row.
    pub fn is_empty(&self) -> (r: bool)
        ensures
            r == (self@.len() == 0),
    {
        self.len() == 0
    }

    /// All files, by the time at which they were made.
    pub fn load_all(&self) -> (r: Result<Vec<File>, Error>)
        requires
            rows_in_order(self@),
        ensures
            r matches Ok(files) && lists_rows(files@, self@) && by_creation(files@),
    {
        let mut files: Vec<File> = Vec::new();
        let it = self.rows.keys();
        let ghost all = vstd::std_specs::iter::IteratorSpec::remaining(&it);
        let mut keys: Vec<u128> = Vec::new();
        for k in iter: it
            invariant
                keys@.len() == iter.index(),
                iter.seq() == all,
                forall|i: int| 0 <= i < keys@.len() ==> keys@[i] == *all[i],
        {
            keys.push(*k);
        }
        assert(keys@ =~= all.unref());
        let mut n: usize = 0;
        while n < keys.len()
            invariant
                n <= keys@.len(),
                rows_in_order(self@),
                keys@.no_duplicates(),
                keys@.to_set() == self@.dom(),
                by_creation(files@),
                forall|i: int|
                    0 <= i < files@.len() ==> self@.contains_key((#[trigger] files@[i]).id@)
                        && self@[files@[i].id@] == files@[i] && keys@.take(n as int).contains(
                        files@[i].id@,
                    ),
                forall|i: int, j: int|
                    0 <= i < j < files@.len() ==> (#[trigger] files@[i]).id@ != (
                    #[trigger] files@[j]).id@,
                forall|k: u128| #[trigger]
                    keys@.take(n as int).contains(k) ==> exists|i: int|
                        0 <= i < files@.len() && (#[trigger] files@[i]).id@ == k,
            decreases keys@.len() - n,
        {
            let key: u128 = keys[n];
            let ghost before = files@;
            let ghost done = keys@.take(n as int);
            let ghost more = keys@.take(n + 1);
            assert(more =~= done.push(key));
            assert(keys@.to_set().contains(keys@[n as int]));
            assert(!done.contains(key)) by {
                if done.contains(key) {
                    let j = choose|j: int| 0 <= j < done.len() && done[j] == key;
                    assert(keys@[j] == keys@[n as int]);
                }
            }
            if let Some(f) = self.rows.get(&key) {
                let f: File = f.clone();
                assert(f.id@ == key);
                insert_by_creation(&mut files, f);
                proof {
                    let p = choose|p: int|
                        0 <= p <= before.len() && files@ == #[trigger] before.insert(p, f);
                    assert forall|i: int| 0 <= i < files@.len() implies self@.contains_key(
                        (#[trigger] files@[i]).id@,
                    ) && self@[files@[i].id@] == files@[i] && more.contains(files@[i].id@) by {
                        assert(more[done.len() as int] == key);
                        if i != p {
                            let b = if i < p {
                                i
                            } else {
                                i - 1
                            };
                            assert(files@[i] == before[b]);
                            let d = choose|d: int| 0 <= d < done.len() && done[d] == before[b].id@;
                            assert(more[d] == before[b].id@);
                        }
                    }
                    assert forall|i: int, j: int| 0 <= i < j < files@.len() implies (
                    #[trigger] files@[i]).id@ != (#[trigger] files@[j]).id@ by {
                        let bi = if i < p {
                            i
                        } else {
                            i - 1
                        };
                        let bj = if j < p {
                            j
                        } else {
                            j - 1
                        };
                        if i != p {
                            assert(files@[i] == before[bi]);
                            assert(done.contains(before[bi].id@));
                        }
                        if j != p {
                            assert(files@[j] == before[bj]);
                            assert(done.contains(before[bj].id@));
                        }
                    }
                    assert forall|k: u128| #[trigger] more.contains(k) implies exists|i: int|
                        0 <= i < files@.len() && (#[trigger] files@[i]).id@ == k by {
                        if k == key {
                            assert(files@[p].id@ == k);
                        } else {
                            let d = choose|d: int| 0 <= d < more.len() && more[d] == k;
                            assert(done[d] == k);
                            assert(done.contains(k));
                            let b = choose|b: int|
                                0 <= b < before.len() && (#[trigger] before[b]).id@ == k;
                            if b < p {
                                assert(files@[b].id@ == k);
                            } else {
                                assert(files@[b + 1].id@ == k);
                            }
                        }
                    }
                }
            }
            n = n + 1;
        }
        proof {
            assert(keys@.take(keys@.len() as int) =~= keys@);
            assert forall|k: u128| #[trigger] self@.contains_key(k) implies exists|i: int|
                0 <= i < files@.len() && (#[trigger] files@[i]).id@ == k by {
                assert(keys@.to_set().contains(k));
                assert(keys@.contains(k));
            }
        }
        Ok(files)
    }

    /// Stores a new file. An identifier is taken once.
    pub fn insert(&mut self, file: &File) -> (r: Result<(), Error>)
        ensures
            if old(self)@.contains_key(file.id@) {
                &&& final(self)@ == old(self)@
                &&& r matches Err(e) && e is Other && e.text() == "duplicate id: "@ + hyphenated(
                    file.id@,
                )
            } else {
                r is Ok && final(self)@ == old(self)@.insert(file.id@, *file)
            },
    {
        let key: u128 = file.id.as_uuid();
        if self.rows.contains_key(&key) {
            return Err(
                Error::Other(concat2("duplicate id: ", file.id.to_string().as_str())),
            );
        }
        self.rows.insert(key, file.clone());
        Ok(())
    }

    /// Stores another status of a file.
    pub fn update_status(&mut self, id: FileId, status: FileStatus, now: Moment) -> (r: Result<
        (),
        Error,
    >)
        ensures
            if old(self)@.contains_key(id@) {
                r is Ok && final(self)@ == old(self)@.insert(
                    id@,
                    File { status, updated_at: now, ..old(self)@[id@] },
                )
            } else {
                r == Err::<(), Error>(Error::NotFound) && final(self)@ == old(self)@
            },
    {
        let found: Option<File> = self.rows.remove(&id.as_uuid());
        match found {
            Some(f) => {
                let mut f: File = f;
                f.status = status;
                f.updated_at = now;
                self.rows.insert(id.as_uuid(), f);
                assert(self@ =~= old(self)@.insert(id@, f));
                Ok(())
            },
            None => {
                assert(self@ =~= old(self)@);
                Err(Error::NotFound)
            },
        }
    }

    /// Drops a file.
    pub fn remove(&mut self, id: FileId) -> (r: Result<(), Error>)
        ensures
            if old(self)@.contains_key(id@) {
                r is Ok && final(self)@ == old(self)@.remove(id@)
            } else {
                r == Err::<(), Error>(Error::NotFound) && final(self)@ == old(self)@
            },
    {
        let found: Option<File> = self.rows.remove(&id.as_uuid());
        match found {
            Some(_) => Ok(()),
            None => {
                assert(self@ =~= old(self)@);
                Err(Error::NotFound)
            },
        }
    }
}

impl Default for MemoryTQueueStore {
    fn default() -> (s: MemoryTQueueStore)
        ensures
            s@ == Map::<u128, File>::empty(),
    {
        MemoryTQueueStore::new()
    }
}

/// Every change keeps the rows under the identifiers of their files.
pub proof fn rows_stay_in_order(rows: Map<u128, File>, file: File, id: FileId, status: FileStatus, now: Moment)
    requires
        rows_in_order(rows),
    ensures
        rows_in_order(rows.insert(file.id@, file)),
        rows_in_order(rows.remove(id@)),
        rows.contains_key(id@) ==> rows_in_order(
            rows.insert(id@, File { status, updated_at: now, ..rows[id@] }),
        ),
{
}

/// A list of all files holds every stored file once and nothing else, the older ones first.
pub proof fn list_holds_every_file_once(files: Seq<File>, rows: Map<u128, File>, k: u128, i: int, j: int)
    requires
        lists_rows(files, rows),
        by_creation(files),
        rows_in_order(rows),
        0 <= i < j < files.len(),
    ensures
        rows.contains_key(k) ==> files.contains(rows[k]),
        rows.contains_key(files[i].id@) && rows[files[i].id@] == files[i],
        files[i].id@ != files[j].id@,
        files[i].created_at.secs <= files[j].created_at.secs,
        files[i].created_at.secs == files[j].created_at.secs ==> files[i].created_at.nanos
            <= files[j].created_at.nanos,
{
    assert(files[i].created_at.at_most(files[j].created_at));
    if rows.contains_key(k) {
        let n = choose|n: int| 0 <= n < files.len() && (#[trigger] files[n]).id@ == k;
        assert(files[n] == rows[k]);
    }
}

} // verus!

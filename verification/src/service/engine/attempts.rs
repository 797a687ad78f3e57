//! The attempts that are open: which row of the repository stands for which worker at
//! which piece.

use vstd::prelude::*;
use crate::domain::id::{AttemptId, WorkerId};

verus! {

/// One open attempt.
#[derive(Debug, Clone, Copy, PartialEq, Eq)]
pub struct OpenAttempt {
    pub worker_id: WorkerId,
    pub piece: u32,
    pub attempt: AttemptId,
}

/// The open attempts, at most one for each worker and piece.
#[derive(Debug)]
pub struct OpenAttempts {
    rows: Vec<OpenAttempt>,
}

/// Whether row `i` stands for `worker` at `piece`.
pub closed spec fn row_at(rows: Seq<OpenAttempt>, i: int, key: (WorkerId, u32)) -> bool {
    0 <= i < rows.len() && rows[i].worker_id == key.0 && rows[i].piece == key.1
}

/// The rows as a map.
pub closed spec fn rows_map(rows: Seq<OpenAttempt>) -> Map<(WorkerId, u32), AttemptId> {
    Map::new(
        |key: (WorkerId, u32)| exists|i: int| row_at(rows, i, key),
        |key: (WorkerId, u32)| rows[choose|i: int| row_at(rows, i, key)].attempt,
    )
}

impl OpenAttempts {
    /// For each worker and piece the attempt that is open.
    pub closed spec fn view(&self) -> Map<(WorkerId, u32), AttemptId> {
        rows_map(self.rows@)
    }

    /// Whether no worker and piece stands in two rows.
    pub closed spec fn wf(&self) -> bool {
        forall|i: int, j: int, key: (WorkerId, u32)|
            row_at(self.rows@, i, key) && row_at(self.rows@, j, key) ==> i == j
    }

    /// No attempt is open.
    pub fn new() -> (r: OpenAttempts)
        ensures
            r.wf(),
            r@ == Map::<(WorkerId, u32), AttemptId>::empty(),
    {
        let r = OpenAttempts { rows: Vec::new() };
        assert(r@ =~= Map::<(WorkerId, u32), AttemptId>::empty());
        r
    }

    /// The row of a worker and a piece.
    fn find(&self, worker_id: WorkerId, piece: u32) -> (r: Option<usize>)
        ensures
            match r {
                Some(i) => row_at(self.rows@, i as int, (worker_id, piece)),
                None => forall|i: int| !row_at(self.rows@, i, (worker_id, piece)),
            },
    {
        let mut i: usize = 0;
        while i < self.rows.len()
            invariant
                i <= self.rows@.len(),
                forall|j: int| j < i ==> !row_at(self.rows@, j, (worker_id, piece)),
            decreases self.rows@.len() - i,
        {
            if self.rows[i].worker_id == worker_id && self.rows[i].piece == piece {
                return Some(i);
            }
            i = i + 1;
        }
        None
    }

    /// Notes an attempt, in the place of one that was open.
    pub fn insert(&mut self, worker_id: WorkerId, piece: u32, attempt: AttemptId)
        requires
            old(self).wf(),
        ensures
            final(self).wf(),
            final(self)@ == old(self)@.insert((worker_id, piece), attempt),
    {
        let ghost before = self.rows@;
        let ghost key = (worker_id, piece);
        let found: Option<usize> = self.find(worker_id, piece);
        match found {
            Some(i) => {
                self.rows.set(i, OpenAttempt { worker_id, piece, attempt });
                proof {
                    let after = self.rows@;
                    assert forall|k: (WorkerId, u32), j: int| row_at(after, j, k) == row_at(
                        before,
                        j,
                        k,
                    ) by {}
                    assert(row_at(after, i as int, key));
                    assert forall|k: (WorkerId, u32)| #[trigger] rows_map(after).contains_key(k) implies rows_map(
                        after,
                    )[k] == rows_map(before).insert(key, attempt)[k] by {
                        let j = choose|j: int| row_at(after, j, k);
                        let j0 = choose|j: int| row_at(before, j, k);
                        assert(row_at(before, j, k) && row_at(before, j0, k));
                    }
                    assert(rows_map(after) =~= rows_map(before).insert(key, attempt));
                }
            },
            None => {
                self.rows.push(OpenAttempt { worker_id, piece, attempt });
                proof {
                    let after = self.rows@;
                    let n = before.len() as int;
                    assert forall|k: (WorkerId, u32), j: int| j != n implies row_at(after, j, k)
                        == row_at(before, j, k) by {}
                    assert forall|k: (WorkerId, u32)| row_at(after, n, k) == (k == key) by {}
                    assert forall|k: (WorkerId, u32)| rows_map(before).contains_key(k) implies {
                        &&& #[trigger] rows_map(after).contains_key(k)
                        &&& rows_map(after)[k] == rows_map(before)[k]
                    } by {
                        let j0 = choose|j: int| row_at(before, j, k);
                        assert(row_at(after, j0, k));
                        let j = choose|j: int| row_at(after, j, k);
                        assert(row_at(after, j, k));
                        assert(row_at(before, j, k));
                    }
                    assert(row_at(after, n, key));
                    assert(rows_map(after)[key] == attempt) by {
                        let j = choose|j: int| row_at(after, j, key);
                        assert(row_at(after, j, key));
                    }
                    assert forall|k: (WorkerId, u32)| #[trigger] rows_map(after).contains_key(k) implies k
                        == key || rows_map(before).contains_key(k) by {
                        let j = choose|j: int| row_at(after, j, k);
                        assert(row_at(after, j, k));
                        if j != n {
                            assert(row_at(before, j, k));
                        }
                    }
                    assert(rows_map(after) =~= rows_map(before).insert(key, attempt));
                }
            },
        }
    }

    /// Closes the attempt of a worker at a piece and gives it, where one was open.
    pub fn remove(&mut self, worker_id: WorkerId, piece: u32) -> (r: Option<AttemptId>)
        requires
            old(self).wf(),
        ensures
            final(self).wf(),
            final(self)@ == old(self)@.remove((worker_id, piece)),
            r == (if old(self)@.contains_key((worker_id, piece)) {
                Some(old(self)@[(worker_id, piece)])
            } else {
                None
            }),
    {
        let ghost before = self.rows@;
        let ghost key = (worker_id, piece);
        let found: Option<usize> = self.find(worker_id, piece);
        match found {
            Some(i) => {
                assert(row_at(before, i as int, key));
                let row: OpenAttempt = self.rows.remove(i);
                proof {
                    let after = self.rows@;
                    assert forall|k: (WorkerId, u32), j: int| row_at(after, j, k) == (if j < i {
                        row_at(before, j, k)
                    } else {
                        row_at(before, j + 1, k)
                    }) by {}
                    assert(rows_map(before)[key] == row.attempt) by {
                        let j = choose|j: int| row_at(before, j, key);
                        assert(row_at(before, j, key));
                    }
                    assert forall|k: (WorkerId, u32)| #[trigger] rows_map(after).contains_key(k) implies {
                        &&& k != key
                        &&& rows_map(before).contains_key(k)
                        &&& rows_map(after)[k] == rows_map(before)[k]
                    } by {
                        let j = choose|j: int| row_at(after, j, k);
                        assert(row_at(after, j, k));
                        let j1 = if j < i {
                            j
                        } else {
                            j + 1
                        };
                        assert(row_at(before, j1, k));
                        let j0 = choose|j: int| row_at(before, j, k);
                        assert(row_at(before, j0, k));
                    }
                    assert forall|k: (WorkerId, u32)| k != key && #[trigger] rows_map(before).contains_key(
                        k,
                    ) implies rows_map(after).contains_key(k) by {
                        let j = choose|j: int| row_at(before, j, k);
                        assert(row_at(before, j, k));
                        assert(j != i);
                        if j < i {
                            assert(row_at(after, j, k));
                        } else {
                            assert(row_at(after, j - 1, k));
                        }
                    }
                    assert(rows_map(after) =~= rows_map(before).remove(key));
                    assert forall|p: int, q: int, k: (WorkerId, u32)|
                        row_at(after, p, k) && row_at(after, q, k) implies p == q by {
                        let p1 = if p < i {
                            p
                        } else {
                            p + 1
                        };
                        let q1 = if q < i {
                            q
                        } else {
                            q + 1
                        };
                        assert(row_at(before, p1, k) && row_at(before, q1, k));
                    }
                }
                Some(row.attempt)
            },
            None => {
                assert(rows_map(before).remove(key) =~= rows_map(before));
                None
            },
        }
    }
}

} // verus!

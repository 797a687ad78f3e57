//! How many bytes of a file have arrived: those of the complete pieces, and those that the
//! attempts under way have written. What an attempt wrote is taken back if it fails.

use vstd::prelude::*;
use super::dispatch::{counted_pieces, first_pieces};
use super::geometry::{bytes_of, piece_count};
use super::held::{
    counted_pieces_lie_in_file, held_bytes, held_is_bounded, missing_pieces_are_left_out, on_disk,
    with_pieces, HeldPieces,
};

verus! {

/// `a + b`, at most `top`.
pub open spec fn capped_sum(a: int, b: int, top: int) -> int {
    if a + b < top {
        a + b
    } else {
        top
    }
}

/// The sum of all the numbers.
pub open spec fn sum_of(s: Seq<u64>) -> nat
    decreases s.len(),
{
    if s.len() == 0 {
        0
    } else {
        sum_of(s.drop_last()) + s.last() as nat
    }
}

/// The bytes that have arrived.
#[verifier::ext_equal]
pub struct CounterModel {
    pub piece_size: u64,
    pub total_size: u64,
    /// Of each piece, whether it is complete.
    pub held: Seq<bool>,
    /// Of each worker, what its attempt has written to pieces that are not complete.
    pub under_way: Seq<u64>,
}

impl CounterModel {
    /// The bytes that have arrived, at most as many as the file has.
    pub open spec fn done(self) -> int {
        capped_sum(
            held_bytes(self.held, self.piece_size as int, self.total_size as int),
            sum_of(self.under_way) as int,
            self.total_size as int,
        )
    }

    /// Whether a piece is complete.
    pub open spec fn holds(self, piece: u32) -> bool {
        piece < self.held.len() && self.held[piece as int]
    }

    /// `worker` has written `bytes` bytes to `piece`. A piece that is complete is not counted
    /// again.
    pub open spec fn wrote(self, worker: usize, piece: u32, bytes: usize) -> CounterModel {
        if worker < self.under_way.len() && !self.holds(piece) {
            CounterModel {
                under_way: self.under_way.update(
                    worker as int,
                    capped_sum(
                        self.under_way[worker as int] as int,
                        bytes as int,
                        u64::MAX as int,
                    ) as u64,
                ),
                ..self
            }
        } else {
            self
        }
    }

    /// The attempt of `worker` has come to nothing.
    pub open spec fn taken_back(self, worker: usize) -> CounterModel {
        if worker < self.under_way.len() {
            CounterModel { under_way: self.under_way.update(worker as int, 0), ..self }
        } else {
            self
        }
    }

    /// The attempt of `worker` has completed `pieces`.
    pub open spec fn completed(self, worker: usize, pieces: Seq<u32>) -> CounterModel {
        CounterModel { held: with_pieces(self.held, pieces), ..self.taken_back(worker) }
    }
}

/// Counts the bytes that have arrived.
pub struct ByteCounter {
    piece_size: u64,
    total_size: u64,
    held: HeldPieces,
    under_way: Vec<u64>,
}

impl ByteCounter {
    /// The bytes that have arrived.
    pub closed spec fn view(&self) -> CounterModel {
        CounterModel {
            piece_size: self.piece_size,
            total_size: self.total_size,
            held: self.held@,
            under_way: self.under_way@,
        }
    }

    /// Whether the pieces are in order.
    pub closed spec fn wf(&self) -> bool {
        &&& self.held.wf()
        &&& self.held.piece_size() == self.piece_size
        &&& self.held.total_size() == self.total_size
    }

    /// A counter for a download of which `pending` are missing, with `workers` workers that
    /// have not begun yet.
    pub fn new(pending: &Vec<u32>, piece_size: u64, total_size: u64, workers: usize) -> (c:
        ByteCounter)
        ensures
            c.wf(),
            c@ == (CounterModel {
                piece_size,
                total_size,
                held: on_disk(pending@, counted_pieces(total_size as int, piece_size as int)),
                under_way: Seq::new(workers as nat, |i: int| 0u64),
            }),
    {
        let mut under_way: Vec<u64> = Vec::new();
        let mut i: usize = 0;
        while i < workers
            invariant
                i <= workers,
                under_way@ == Seq::new(i as nat, |j: int| 0u64),
            decreases workers - i,
        {
            under_way.push(0);
            i = i + 1;
            assert(under_way@ =~= Seq::new(i as nat, |j: int| 0u64));
        }
        ByteCounter {
            piece_size,
            total_size,
            held: HeldPieces::at_start(pending, piece_size, total_size),
            under_way,
        }
    }

    /// Takes note that `worker` has written `bytes` bytes to `piece`.
    pub fn wrote(&mut self, worker: usize, piece: u32, bytes: usize)
        requires
            old(self).wf(),
        ensures
            final(self).wf(),
            final(self)@ == old(self)@.wrote(worker, piece, bytes),
    {
        if worker < self.under_way.len() && !self.held.holds(piece) {
            let n: u64 = self.under_way[worker].saturating_add(bytes as u64);
            self.under_way.set(worker, n);
        }
    }

    /// Takes note that the attempt of `worker` has failed or was given up.
    pub fn taken_back(&mut self, worker: usize)
        requires
            old(self).wf(),
        ensures
            final(self).wf(),
            final(self)@ == old(self)@.taken_back(worker),
    {
        if worker < self.under_way.len() {
            self.under_way.set(worker, 0);
        }
    }

    /// Takes note that the attempt of `worker` has completed `pieces`.
    pub fn completed(&mut self, worker: usize, pieces: &Vec<u32>)
        requires
            old(self).wf(),
        ensures
            final(self).wf(),
            final(self)@ == old(self)@.completed(worker, pieces@),
    {
        self.taken_back(worker);
        let ghost m = self@;
        let mut i: usize = 0;
        assert(pieces@.take(0) =~= Seq::<u32>::empty());
        while i < pieces.len()
            invariant
                i <= pieces@.len(),
                self.wf(),
                self@ == (CounterModel { held: with_pieces(m.held, pieces@.take(i as int)), ..m }),
            decreases pieces@.len() - i,
        {
            assert(pieces@.take(i + 1).drop_last() =~= pieces@.take(i as int));
            self.held.insert(pieces[i]);
            i = i + 1;
        }
        assert(pieces@.take(pieces@.len() as int) =~= pieces@);
    }

    /// The bytes that have arrived.
    pub fn done(&self) -> (n: u64)
        requires
            self.wf(),
        ensures
            n == self@.done(),
            n <= self@.total_size,
    {
        let held: u64 = self.held.bytes();
        let total: u64 = self.total_size;
        let mut n: u64 = held;
        let mut i: usize = 0;
        assert(self.under_way@.take(0) =~= Seq::<u64>::empty());
        while i < self.under_way.len()
            invariant
                i <= self.under_way@.len(),
                held <= total,
                n == capped_sum(
                    held as int,
                    sum_of(self.under_way@.take(i as int)) as int,
                    total as int,
                ),
                n <= total,
            decreases self.under_way@.len() - i,
        {
            assert(self.under_way@.take(i + 1).drop_last() =~= self.under_way@.take(i as int));
            let more: u64 = self.under_way[i];
            n = if more < total - n {
                n + more
            } else {
                total
            };
            i = i + 1;
        }
        assert(self.under_way@.take(self.under_way@.len() as int) =~= self.under_way@);
        n
    }
}

/// What an attempt writes, one write after the other: to which piece, and how many bytes.
pub open spec fn wrote_all(m: CounterModel, worker: usize, writes: Seq<(u32, usize)>) -> CounterModel
    decreases writes.len(),
{
    if writes.len() == 0 {
        m
    } else {
        wrote_all(m, worker, writes.drop_last()).wrote(worker, writes.last().0, writes.last().1)
    }
}

/// A failed attempt counts for nothing: whatever it wrote, the count is then what it was
/// before the attempt.
pub proof fn failed_attempt_counts_for_nothing(
    m: CounterModel,
    worker: usize,
    writes: Seq<(u32, usize)>,
)
    requires
        worker < m.under_way.len(),
        m.under_way[worker as int] == 0,
    ensures
        wrote_all(m, worker, writes).taken_back(worker) == m,
        wrote_all(m, worker, writes).taken_back(worker).done() == m.done(),
{
    attempt_changes_only_its_own(m, worker, writes);
    assert(wrote_all(m, worker, writes).taken_back(worker).under_way =~= m.under_way);
}

proof fn attempt_changes_only_its_own(m: CounterModel, worker: usize, writes: Seq<(u32, usize)>)
    requires
        worker < m.under_way.len(),
    ensures
        ({
            let r = wrote_all(m, worker, writes);
            r == CounterModel {
                under_way: m.under_way.update(worker as int, r.under_way[worker as int]),
                ..m
            }
        }),
    decreases writes.len(),
{
    if writes.len() == 0 {
        assert(m.under_way.update(worker as int, m.under_way[worker as int]) =~= m.under_way);
    } else {
        attempt_changes_only_its_own(m, worker, writes.drop_last());
        let before = wrote_all(m, worker, writes.drop_last());
        let r = wrote_all(m, worker, writes);
        assert(r.under_way =~= m.under_way.update(worker as int, r.under_way[worker as int]));
    }
}

/// At the start the count is the size of the file without the missing pieces.
pub proof fn start_counts_what_is_on_disk(
    pending: Seq<u32>,
    piece_size: u64,
    total_size: u64,
    workers: nat,
)
    requires
        0 < piece_size,
        piece_count(total_size as int, piece_size as int) < 0x1_0000_0000,
        pending.no_duplicates(),
        forall|i: int|
            0 <= i < pending.len() ==> (#[trigger] pending[i]) < piece_count(
                total_size as int,
                piece_size as int,
            ),
    ensures
        (CounterModel {
            piece_size,
            total_size,
            held: on_disk(pending, counted_pieces(total_size as int, piece_size as int)),
            under_way: Seq::new(workers, |i: int| 0u64),
        }).done() == total_size - bytes_of(pending, piece_size as int, total_size as int),
{
    let ps = piece_size as int;
    let ts = total_size as int;
    counted_pieces_lie_in_file(ts, ps);
    super::dispatch::body_fills_pieces_like_file(ts, ps);
    missing_pieces_are_left_out(pending, ps, ts);
    nothing_adds_nothing(workers);
    bytes_of_is_nonnegative(pending, ps, ts);
}

proof fn bytes_of_is_nonnegative(pending: Seq<u32>, piece_size: int, total_size: int)
    ensures
        0 <= bytes_of(pending, piece_size, total_size),
    decreases pending.len(),
{
    if pending.len() > 0 {
        bytes_of_is_nonnegative(pending.drop_last(), piece_size, total_size);
    }
}

proof fn nothing_adds_nothing(n: nat)
    ensures
        sum_of(Seq::new(n, |i: int| 0u64)) == 0,
    decreases n,
{
    if n > 0 {
        nothing_adds_nothing((n - 1) as nat);
        assert(Seq::new(n, |i: int| 0u64).drop_last() =~= Seq::new((n - 1) as nat, |i: int| 0u64));
    }
}

/// A body that was fetched whole counts as the whole file, whatever was complete before.
pub proof fn whole_body_counts_as_the_file(m: CounterModel, worker: usize)
    requires
        0 < m.piece_size,
        piece_count(m.total_size as int, m.piece_size as int) < 0x1_0000_0000,
        m.held.len() == counted_pieces(m.total_size as int, m.piece_size as int),
    ensures
        m.completed(worker, first_pieces(m.held.len() as int)).done() == m.total_size,
{
    let n = m.held.len() as int;
    let r = m.completed(worker, first_pieces(n));
    counted_pieces_lie_in_file(m.total_size as int, m.piece_size as int);
    leading_pieces_are_held(m.held, n);
    held_is_bounded(r.held, m.piece_size as int, m.total_size as int);
}

proof fn leading_pieces_are_held(held: Seq<bool>, k: int)
    requires
        0 <= k <= held.len(),
        held.len() <= 0x1_0000_0000,
    ensures
        with_pieces(held, first_pieces(k)).len() == held.len(),
        forall|i: int| 0 <= i < k ==> with_pieces(held, first_pieces(k))[i],
    decreases k,
{
    if k > 0 {
        leading_pieces_are_held(held, k - 1);
        assert(first_pieces(k).drop_last() =~= first_pieces(k - 1));
        assert(first_pieces(k).last() == (k - 1) as u32);
    }
}

/// What a worker writes to a piece that is not complete is added to what its attempt has written
/// so far, and to nothing else; what it writes to a complete piece is not counted.
pub proof fn writes_are_counted(m: CounterModel, worker: usize, piece: u32, bytes: usize)
    requires
        worker < m.under_way.len(),
        m.under_way[worker as int] + bytes <= u64::MAX,
    ensures
        ({
            let r = m.wrote(worker, piece, bytes);
            let complete = piece < m.held.len() && m.held[piece as int];
            &&& r.held == m.held
            &&& r.piece_size == m.piece_size
            &&& r.total_size == m.total_size
            &&& r.under_way.len() == m.under_way.len()
            &&& complete ==> r.under_way == m.under_way
            &&& !complete ==> r.under_way[worker as int] == m.under_way[worker as int] + bytes
            &&& forall|i: int|
                0 <= i < m.under_way.len() && i != worker ==> #[trigger] r.under_way[i]
                    == m.under_way[i]
            &&& complete ==> r.done() == m.done()
            &&& !complete ==> r.done() == vstd::math::min(
                m.done() + bytes,
                m.total_size as int,
            )
        }),
{
    let complete = piece < m.held.len() && m.held[piece as int];
    if !complete {
        sum_changes_with_one(
            m.under_way,
            worker as int,
            (m.under_way[worker as int] + bytes) as u64,
        );
    }
}

/// Changing one number changes the sum by as much.
pub proof fn sum_changes_with_one(s: Seq<u64>, i: int, x: u64)
    requires
        0 <= i < s.len(),
    ensures
        sum_of(s.update(i, x)) == sum_of(s) - s[i] + x,
    decreases s.len(),
{
    if i == s.len() - 1 {
        assert(s.update(i, x).drop_last() =~= s.drop_last());
    } else {
        assert(s.update(i, x).drop_last() =~= s.drop_last().update(i, x));
        sum_changes_with_one(s.drop_last(), i, x);
    }
}

/// An attempt that has completed pieces leaves exactly them complete besides those that were,
/// and what it wrote is no longer counted apart from them.
pub proof fn completed_pieces_are_held(m: CounterModel, worker: usize, pieces: Seq<u32>)
    ensures
        ({
            let r = m.completed(worker, pieces);
            &&& r.held.len() == m.held.len()
            &&& forall|i: int|
                0 <= i < m.held.len() && i <= u32::MAX ==> #[trigger] r.held[i] == (m.held[i]
                    || pieces.contains(i as u32))
            &&& r.under_way.len() == m.under_way.len()
            &&& worker < m.under_way.len() ==> r.under_way[worker as int] == 0
            &&& forall|i: int|
                0 <= i < m.under_way.len() && i != worker ==> #[trigger] r.under_way[i]
                    == m.under_way[i]
        }),
{
    pieces_are_held(m.held, pieces);
}

proof fn pieces_are_held(held: Seq<bool>, pieces: Seq<u32>)
    ensures
        with_pieces(held, pieces).len() == held.len(),
        forall|i: int|
            0 <= i < held.len() && i <= u32::MAX ==> #[trigger] with_pieces(held, pieces)[i] == (
            held[i] || pieces.contains(i as u32)),
    decreases pieces.len(),
{
    if pieces.len() > 0 {
        let rest = pieces.drop_last();
        pieces_are_held(held, rest);
        assert forall|i: int| 0 <= i < held.len() && i <= u32::MAX implies #[trigger] with_pieces(
            held,
            pieces,
        )[i] == (held[i] || pieces.contains(i as u32)) by {
            let x = i as u32;
            assert(pieces[pieces.len() - 1] == pieces.last());
            if rest.contains(x) {
                let j = choose|j: int| 0 <= j < rest.len() && rest[j] == x;
                assert(pieces[j] == x);
            }
            if pieces.contains(x) && x != pieces.last() {
                let j = choose|j: int| 0 <= j < pieces.len() && pieces[j] == x;
                assert(rest[j] == x);
            }
        }
    }
}

} // verus!

//! Which pieces of a file are complete.

use vstd::prelude::*;
use super::dispatch::counted_pieces;
use super::geometry::{
    bytes_of, leading_bytes, piece_count, piece_len, piece_size_at, pieces_are_adjacent,
    pieces_cover_file, pieces_total,
};

verus! {

/// How many pieces are complete.
pub open spec fn held_count(held: Seq<bool>) -> nat
    decreases held.len(),
{
    if held.len() == 0 {
        0
    } else {
        held_count(held.drop_last()) + if held.last() {
            1nat
        } else {
            0nat
        }
    }
}

/// How many bytes the complete pieces have.
pub open spec fn held_bytes(held: Seq<bool>, piece_size: int, total_size: int) -> int
    decreases held.len(),
{
    if held.len() == 0 {
        0
    } else {
        held_bytes(held.drop_last(), piece_size, total_size) + if held.last() {
            piece_len(held.len() - 1, piece_size, total_size)
        } else {
            0
        }
    }
}

/// Which of `n` pieces are complete when `pending` are missing.
pub open spec fn on_disk(pending: Seq<u32>, n: int) -> Seq<bool> {
    Seq::new(n as nat, |i: int| !pending.contains(i as u32))
}

/// `held` with `piece` complete; a number that no piece has changes nothing.
pub open spec fn with_piece(held: Seq<bool>, piece: u32) -> Seq<bool> {
    if piece < held.len() {
        held.update(piece as int, true)
    } else {
        held
    }
}

/// `held` with all of `pieces` complete.
pub open spec fn with_pieces(held: Seq<bool>, pieces: Seq<u32>) -> Seq<bool>
    decreases pieces.len(),
{
    if pieces.len() == 0 {
        held
    } else {
        with_piece(with_pieces(held, pieces.drop_last()), pieces.last())
    }
}

/// What changing one piece does to the number of complete pieces and their bytes.
pub proof fn changed_piece_counts(
    held: Seq<bool>,
    i: int,
    b: bool,
    piece_size: int,
    total_size: int,
)
    requires
        0 <= i < held.len(),
    ensures
        held_count(held.update(i, b)) == held_count(held) + (if b {
            1int
        } else {
            0
        }) - (if held[i] {
            1int
        } else {
            0
        }),
        held_bytes(held.update(i, b), piece_size, total_size) == held_bytes(
            held,
            piece_size,
            total_size,
        ) + (if b {
            piece_len(i, piece_size, total_size)
        } else {
            0
        }) - (if held[i] {
            piece_len(i, piece_size, total_size)
        } else {
            0
        }),
    decreases held.len(),
{
    let next = held.update(i, b);
    if i == held.len() - 1 {
        assert(next.drop_last() =~= held.drop_last());
    } else {
        assert(next.drop_last() =~= held.drop_last().update(i, b));
        changed_piece_counts(held.drop_last(), i, b, piece_size, total_size);
    }
}

/// No more pieces are complete than there are, and they have no more bytes than the first
/// pieces together; where all are complete, they have as many.
pub proof fn held_is_bounded(held: Seq<bool>, piece_size: int, total_size: int)
    ensures
        held_count(held) <= held.len(),
        0 <= held_bytes(held, piece_size, total_size) <= leading_bytes(
            held.len() as int,
            piece_size,
            total_size,
        ),
        (forall|i: int| 0 <= i < held.len() ==> held[i]) ==> held_count(held) == held.len()
            && held_bytes(held, piece_size, total_size) == leading_bytes(
            held.len() as int,
            piece_size,
            total_size,
        ),
    decreases held.len(),
{
    if held.len() > 0 {
        held_is_bounded(held.drop_last(), piece_size, total_size);
    }
}

/// The pieces that can be counted have no more bytes than the file, and lie within it.
pub proof fn counted_pieces_lie_in_file(total_size: int, piece_size: int)
    requires
        0 <= total_size,
        0 <= piece_size,
    ensures
        0 <= counted_pieces(total_size, piece_size) <= piece_count(total_size, piece_size),
        0 <= leading_bytes(counted_pieces(total_size, piece_size), piece_size, total_size)
            <= total_size,
        piece_count(total_size, piece_size) < 0x1_0000_0000 && 0 < piece_size ==> leading_bytes(
            counted_pieces(total_size, piece_size),
            piece_size,
            total_size,
        ) == total_size,
{
    let n = piece_count(total_size, piece_size);
    let k = counted_pieces(total_size, piece_size);
    if piece_size > 0 {
        vstd::arithmetic::div_mod::lemma_div_pos_is_pos(total_size + piece_size - 1, piece_size);
        vstd::arithmetic::div_mod::lemma_mod_decreases(n as nat, 0x1_0000_0000);
        pieces_cover_file(k, piece_size, total_size);
        if k < n {
            pieces_are_adjacent(k, piece_size, total_size);
            assert(0 <= k * piece_size) by (nonlinear_arith)
                requires
                    0 <= k,
                    0 <= piece_size,
            ;
        }
        if n < 0x1_0000_0000 {
            vstd::arithmetic::div_mod::lemma_small_mod(n as nat, 0x1_0000_0000);
        }
    }
}

/// The complete pieces are all but the missing ones, in number and in bytes.
pub proof fn missing_pieces_are_left_out(pending: Seq<u32>, piece_size: int, total_size: int)
    requires
        0 < piece_size,
        0 <= total_size,
        piece_count(total_size, piece_size) < 0x1_0000_0000,
        counted_pieces(total_size, piece_size) == piece_count(total_size, piece_size),
        pending.no_duplicates(),
        forall|i: int|
            0 <= i < pending.len() ==> (#[trigger] pending[i]) < piece_count(
                total_size,
                piece_size,
            ),
    ensures
        held_bytes(
            on_disk(pending, counted_pieces(total_size, piece_size)),
            piece_size,
            total_size,
        ) == total_size - bytes_of(pending, piece_size, total_size),
        held_count(on_disk(pending, counted_pieces(total_size, piece_size))) == counted_pieces(
            total_size,
            piece_size,
        ) - pending.len(),
    decreases pending.len(),
{
    let n = counted_pieces(total_size, piece_size);
    counted_pieces_lie_in_file(total_size, piece_size);
    if pending.len() == 0 {
        held_is_bounded(on_disk(pending, n), piece_size, total_size);
    } else {
        let rest = pending.drop_last();
        let p = pending.last();
        assert forall|i: int| 0 <= i < rest.len() implies (#[trigger] rest[i]) < piece_count(
            total_size,
            piece_size,
        ) by {
            assert(rest[i] == pending[i]);
        }
        missing_pieces_are_left_out(rest, piece_size, total_size);
        let before = on_disk(rest, n);
        assert(pending[pending.len() - 1] == p);
        assert(!rest.contains(p));
        assert(on_disk(pending, n) =~= before.update(p as int, false)) by {
            assert forall|i: int| 0 <= i < n implies on_disk(pending, n)[i] == before.update(
                p as int,
                false,
            )[i] by {
                let x = i as u32;
                if rest.contains(x) {
                    let j = choose|j: int| 0 <= j < rest.len() && rest[j] == x;
                    assert(pending[j] == x);
                }
                if pending.contains(x) && x != p {
                    let j = choose|j: int| 0 <= j < pending.len() && pending[j] == x;
                    assert(rest[j] == x);
                }
            }
        }
        changed_piece_counts(before, p as int, false, piece_size, total_size);
    }
}

/// Which pieces of a file are complete.
pub struct HeldPieces {
    piece_size: u64,
    total_size: u64,
    held: Vec<bool>,
    count: u32,
    bytes: u64,
}

impl HeldPieces {
    /// Of each piece, whether it is complete.
    pub closed spec fn view(&self) -> Seq<bool> {
        self.held@
    }

    /// The size of a piece.
    pub closed spec fn piece_size(&self) -> int {
        self.piece_size as int
    }

    /// The size of the file.
    pub closed spec fn total_size(&self) -> int {
        self.total_size as int
    }

    /// Whether what is counted fits the pieces.
    pub closed spec fn wf(&self) -> bool {
        &&& self.held@.len() <= counted_pieces(self.total_size as int, self.piece_size as int)
        &&& self.count == held_count(self.held@)
        &&& self.bytes == held_bytes(self.held@, self.piece_size as int, self.total_size as int)
    }

    /// The pieces of a file of which nothing is known yet.
    pub fn none(piece_size: u64, total_size: u64) -> (h: HeldPieces)
        ensures
            h.wf(),
            h@ == Seq::<bool>::empty(),
            h.piece_size() == piece_size,
            h.total_size() == total_size,
    {
        proof {
            counted_pieces_lie_in_file(total_size as int, piece_size as int);
        }
        HeldPieces { piece_size, total_size, held: Vec::new(), count: 0, bytes: 0 }
    }

    /// The pieces of a file when `pending` are missing.
    pub fn at_start(pending: &Vec<u32>, piece_size: u64, total_size: u64) -> (h: HeldPieces)
        ensures
            h.wf(),
            h@ == on_disk(pending@, counted_pieces(total_size as int, piece_size as int)),
            h.piece_size() == piece_size,
            h.total_size() == total_size,
    {
        proof {
            counted_pieces_lie_in_file(total_size as int, piece_size as int);
        }
        let n: u32 = pieces_total(total_size, piece_size);
        let mut held: Vec<bool> = Vec::new();
        let mut i: u32 = 0;
        while i < n
            invariant
                i <= n,
                held@.len() == i,
                forall|j: int| 0 <= j < i ==> held@[j],
            decreases n - i,
        {
            held.push(true);
            i = i + 1;
        }
        let mut h = HeldPieces { piece_size, total_size, held, count: 0, bytes: 0 };
        let mut k: usize = 0;
        while k < pending.len()
            invariant
                k <= pending@.len(),
                n == counted_pieces(total_size as int, piece_size as int),
                h.piece_size == piece_size,
                h.total_size == total_size,
                h.held@.len() == n,
                forall|j: int|
                    0 <= j < n ==> (h.held@[j] <==> !pending@.take(k as int).contains(j as u32)),
            decreases pending@.len() - k,
        {
            let p: u32 = pending[k];
            let ghost before = h.held@;
            if p < n {
                h.held.set(p as usize, false);
            }
            proof {
                let now = pending@.take(k + 1);
                let was = pending@.take(k as int);
                assert(now =~= was.push(p));
                assert forall|j: int| 0 <= j < n implies (h.held@[j] <==> !now.contains(
                    j as u32,
                )) by {
                    assert(now[k as int] == p);
                    if was.contains(j as u32) {
                        let x = choose|x: int| 0 <= x < was.len() && was[x] == j as u32;
                        assert(now[x] == j as u32);
                    }
                    if now.contains(j as u32) {
                        let x = choose|x: int| 0 <= x < now.len() && now[x] == j as u32;
                        if x < k {
                            assert(was[x] == j as u32);
                        }
                    }
                }
            }
            k = k + 1;
        }
        assert(pending@.take(pending@.len() as int) =~= pending@);
        assert(h.held@ =~= on_disk(pending@, n as int));
        h.recount();
        h
    }

    /// Counts anew.
    fn recount(&mut self)
        requires
            old(self).held@.len() <= counted_pieces(
                old(self).total_size as int,
                old(self).piece_size as int,
            ),
        ensures
            final(self).wf(),
            final(self).held@ == old(self).held@,
            final(self).piece_size == old(self).piece_size,
            final(self).total_size == old(self).total_size,
    {
        let mut count: u32 = 0;
        let mut bytes: u64 = 0;
        let mut i: usize = 0;
        let ghost ps = self.piece_size as int;
        let ghost ts = self.total_size as int;
        let ghost n = counted_pieces(ts, ps);
        proof {
            counted_pieces_lie_in_file(ts, ps);
            leading_bytes_grow(self.held@.len() as int, n, ps, ts);
        }
        assert(self.held@.take(0) =~= Seq::<bool>::empty());
        while i < self.held.len()
            invariant
                i <= self.held@.len(),
                self.held@.len() <= n <= piece_count(ts, ps),
                n < 0x1_0000_0000,
                ps == self.piece_size,
                ts == self.total_size,
                leading_bytes(self.held@.len() as int, ps, ts) <= ts,
                count == held_count(self.held@.take(i as int)),
                count <= i,
                bytes == held_bytes(self.held@.take(i as int), ps, ts),
            decreases self.held@.len() - i,
        {
            let ghost next = self.held@.take(i + 1);
            proof {
                assert(next.drop_last() =~= self.held@.take(i as int));
                held_is_bounded(next, ps, ts);
                leading_bytes_grow(i + 1, self.held@.len() as int, ps, ts);
                piece_lies_in_file(i as int, ps, ts);
            }
            if self.held[i] {
                count = count + 1;
                bytes = bytes + piece_size_at(i as u32, self.piece_size, self.total_size);
            }
            i = i + 1;
        }
        assert(self.held@.take(self.held@.len() as int) =~= self.held@);
        self.count = count;
        self.bytes = bytes;
    }

    /// Whether a piece is complete.
    pub fn holds(&self, piece: u32) -> (r: bool)
        ensures
            r == (piece < self@.len() && self@[piece as int]),
    {
        (piece as usize) < self.held.len() && self.held[piece as usize]
    }

    /// Takes note that a piece is complete.
    pub fn insert(&mut self, piece: u32)
        requires
            old(self).wf(),
        ensures
            final(self).wf(),
            final(self)@ == with_piece(old(self)@, piece),
            final(self).piece_size() == old(self).piece_size(),
            final(self).total_size() == old(self).total_size(),
    {
        if (piece as usize) < self.held.len() && !self.held[piece as usize] {
            let ghost ps = self.piece_size as int;
            let ghost ts = self.total_size as int;
            proof {
                let next = self.held@.update(piece as int, true);
                changed_piece_counts(self.held@, piece as int, true, ps, ts);
                counted_pieces_lie_in_file(ts, ps);
                leading_bytes_grow(self.held@.len() as int, counted_pieces(ts, ps), ps, ts);
                held_is_bounded(next, ps, ts);
                piece_lies_in_file(piece as int, ps, ts);
            }
            self.held.set(piece as usize, true);
            self.count = self.count + 1;
            self.bytes = self.bytes + piece_size_at(piece, self.piece_size, self.total_size);
        } else {
            assert(with_piece(self.held@, piece) =~= self.held@);
        }
    }

    /// How many pieces are complete.
    pub fn count(&self) -> (n: u32)
        requires
            self.wf(),
        ensures
            n == held_count(self@),
    {
        self.count
    }

    /// How many bytes the complete pieces have.
    pub fn bytes(&self) -> (n: u64)
        requires
            self.wf(),
        ensures
            n == held_bytes(self@, self.piece_size(), self.total_size()),
            n <= self.total_size(),
    {
        proof {
            let ps = self.piece_size as int;
            let ts = self.total_size as int;
            counted_pieces_lie_in_file(ts, ps);
            leading_bytes_grow(self.held@.len() as int, counted_pieces(ts, ps), ps, ts);
            held_is_bounded(self.held@, ps, ts);
        }
        self.bytes
    }
}

/// The first pieces have no more bytes than the first ones and some more.
proof fn leading_bytes_grow(a: int, b: int, piece_size: int, total_size: int)
    requires
        0 <= a <= b,
    ensures
        leading_bytes(a, piece_size, total_size) <= leading_bytes(b, piece_size, total_size),
    decreases b,
{
    if a < b {
        leading_bytes_grow(a, b - 1, piece_size, total_size);
    }
}

/// The place of a piece can be told.
proof fn piece_lies_in_file(i: int, piece_size: int, total_size: int)
    requires
        0 <= i < piece_count(total_size, piece_size),
        0 <= piece_size,
        0 <= total_size,
    ensures
        0 <= i * piece_size < total_size,
{
    pieces_are_adjacent(i, piece_size, total_size);
    assert(0 <= i * piece_size) by (nonlinear_arith)
        requires
            0 <= i,
            0 <= piece_size,
    ;
}

} // verus!

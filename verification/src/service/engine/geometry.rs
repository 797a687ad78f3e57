//! How a file is cut into pieces.
//!
//! Piece `idx` starts at `idx * piece_size` and is `piece_size` bytes long, but for the
//! last piece, which ends where the file ends.

use vstd::prelude::*;
use crate::domain::spec::{ceil_div, div_up};

verus! {

/// Where piece `idx` starts.
pub open spec fn piece_start(idx: int, piece_size: int) -> int {
    idx * piece_size
}

/// How many bytes of a file of `total_size` bytes lie in piece `idx`.
pub open spec fn piece_len(idx: int, piece_size: int, total_size: int) -> int {
    let start = piece_start(idx, piece_size);
    let end = if start + piece_size < total_size {
        start + piece_size
    } else {
        total_size
    };
    if end > start {
        end - start
    } else {
        0
    }
}

/// How many pieces a file of `total_size` bytes has; none where a piece holds nothing.
pub open spec fn piece_count(total_size: int, piece_size: int) -> int {
    if piece_size == 0 {
        0
    } else {
        ceil_div(total_size, piece_size)
    }
}

/// The bytes of the first `n` pieces.
pub open spec fn leading_bytes(n: int, piece_size: int, total_size: int) -> int
    decreases n,
{
    if n <= 0 {
        0
    } else {
        leading_bytes(n - 1, piece_size, total_size) + piece_len(n - 1, piece_size, total_size)
    }
}

/// The bytes of all the pieces in `pieces`.
pub open spec fn bytes_of(pieces: Seq<u32>, piece_size: int, total_size: int) -> int
    decreases pieces.len(),
{
    if pieces.len() == 0 {
        0
    } else {
        bytes_of(pieces.drop_last(), piece_size, total_size) + piece_len(
            pieces.last() as int,
            piece_size,
            total_size,
        )
    }
}

/// The absolute position of a piece in the file.
pub fn piece_offset(idx: u32, piece_size: u64) -> (r: u64)
    requires
        idx * piece_size <= u64::MAX,
    ensures
        r == piece_start(idx as int, piece_size as int),
        r == idx * piece_size,
{
    idx as u64 * piece_size
}

/// The size of piece `idx`, which is shorter than `piece_size` where the file ends in it.
pub fn piece_size_at(idx: u32, piece_size: u64, total_size: u64) -> (r: u64)
    requires
        idx * piece_size <= u64::MAX,
    ensures
        r == piece_len(idx as int, piece_size as int, total_size as int),
        idx * piece_size >= total_size ==> r == 0,
        idx * piece_size < total_size ==> r == vstd::math::min(
            piece_size as int,
            total_size - idx * piece_size,
        ),
{
    let start: u64 = piece_offset(idx, piece_size);
    let full_end: u64 = start.saturating_add(piece_size);
    let end: u64 = if full_end < total_size {
        full_end
    } else {
        total_size
    };
    end.saturating_sub(start)
}

/// The number of pieces, as far as `u32` holds it.
pub fn pieces_total(total_size: u64, piece_size: u64) -> (r: u32)
    ensures
        r == piece_count(total_size as int, piece_size as int) % 0x1_0000_0000,
{
    if piece_size == 0 {
        return 0;
    }
    let n: u64 = div_up(total_size, piece_size);
    assert(n as u32 == n % 0x1_0000_0000) by (bit_vector);
    #[verifier::truncate]
    (n as u32)
}

/// The bytes of all the pieces in `pieces`, as far as `u64` holds them.
pub fn bytes_in(pieces: &Vec<u32>, piece_size: u64, total_size: u64) -> (r: u64)
    ensures
        r == (if bytes_of(pieces@, piece_size as int, total_size as int) < u64::MAX {
            bytes_of(pieces@, piece_size as int, total_size as int)
        } else {
            u64::MAX as int
        }),
{
    let mut sum: u64 = 0;
    let mut i: usize = 0;
    while i < pieces.len()
        invariant
            i <= pieces@.len(),
            sum == (if bytes_of(pieces@.take(i as int), piece_size as int, total_size as int)
                < u64::MAX {
                bytes_of(pieces@.take(i as int), piece_size as int, total_size as int)
            } else {
                u64::MAX as int
            }),
        decreases pieces@.len() - i,
    {
        let idx: u32 = pieces[i];
        proof {
            assert(pieces@.take(i + 1).drop_last() == pieces@.take(i as int));
            assert(0 <= idx * piece_size <= 0xffff_ffff * 0xffff_ffff_ffff_ffff)
                by (nonlinear_arith)
                requires
                    0 <= idx <= 0xffff_ffff,
                    0 <= piece_size <= 0xffff_ffff_ffff_ffff,
            ;
        }
        let start: u128 = idx as u128 * piece_size as u128;
        let len: u64 = if start >= total_size as u128 {
            0
        } else if total_size - (start as u64) < piece_size {
            total_size - (start as u64)
        } else {
            piece_size
        };
        assert(len == piece_len(idx as int, piece_size as int, total_size as int));
        sum = sum.saturating_add(len);
        i = i + 1;
    }
    assert(pieces@.take(pieces@.len() as int) == pieces@);
    sum
}

/// A piece starts at a multiple of the size of a piece, and goes as far as that size and the
/// file go.
pub proof fn pieces_lie_side_by_side(idx: int, piece_size: int, total_size: int)
    requires
        0 <= piece_size,
    ensures
        piece_start(idx, piece_size) == idx * piece_size,
        idx * piece_size >= total_size ==> piece_len(idx, piece_size, total_size) == 0,
        idx * piece_size < total_size ==> piece_len(idx, piece_size, total_size)
            == vstd::math::min(piece_size, total_size - idx * piece_size),
{
}

/// The bytes of some pieces are those of each of them, and it does not matter where in the list
/// one stands.
pub proof fn bytes_add_up(pieces: Seq<u32>, i: int, piece_size: int, total_size: int)
    requires
        0 <= i < pieces.len(),
    ensures
        bytes_of(Seq::<u32>::empty(), piece_size, total_size) == 0,
        bytes_of(pieces, piece_size, total_size) == bytes_of(
            pieces.remove(i),
            piece_size,
            total_size,
        ) + piece_len(pieces[i] as int, piece_size, total_size),
    decreases pieces.len(),
{
    if i == pieces.len() - 1 {
        assert(pieces.remove(i) =~= pieces.drop_last());
    } else {
        assert(pieces.remove(i).drop_last() =~= pieces.drop_last().remove(i));
        bytes_add_up(pieces.drop_last(), i, piece_size, total_size);
    }
}

/// The pieces follow each other without a gap: each one ends where the next one starts,
/// and every piece but the last has the full size.
pub proof fn pieces_are_adjacent(idx: int, piece_size: int, total_size: int)
    requires
        0 <= idx < piece_count(total_size, piece_size),
        0 <= piece_size,
        0 <= total_size,
    ensures
        piece_start(idx, piece_size) < total_size,
        0 < piece_len(idx, piece_size, total_size) <= piece_size,
        idx + 1 < piece_count(total_size, piece_size) ==> piece_len(idx, piece_size, total_size)
            == piece_size && piece_start(idx + 1, piece_size) == piece_start(idx, piece_size)
            + piece_len(idx, piece_size, total_size),
        idx + 1 == piece_count(total_size, piece_size) ==> piece_start(idx, piece_size) + piece_len(
            idx,
            piece_size,
            total_size,
        ) == total_size,
{
    let n = ceil_div(total_size, piece_size);
    vstd::arithmetic::div_mod::lemma_fundamental_div_mod(total_size + piece_size - 1, piece_size);
    let rem = (total_size + piece_size - 1) % piece_size;
    assert(0 <= rem < piece_size) by {
        vstd::arithmetic::div_mod::lemma_mod_bound(total_size + piece_size - 1, piece_size);
    }
    assert(total_size + piece_size - 1 == piece_size * n + rem);
    assert(piece_size * n == n * piece_size) by (nonlinear_arith);
    assert((idx + 1) * piece_size == idx * piece_size + piece_size) by (nonlinear_arith);
    if idx + 1 < n {
        assert((idx + 1) * piece_size <= (n - 1) * piece_size) by (nonlinear_arith)
            requires
                idx + 1 <= n - 1,
                piece_size >= 0,
        ;
        assert((n - 1) * piece_size == n * piece_size - piece_size) by (nonlinear_arith);
    } else {
        assert(idx + 1 == n);
    }
}

/// The pieces cover the file exactly once: the bytes of all of them add up to its size.
pub proof fn pieces_cover_file(n: int, piece_size: int, total_size: int)
    requires
        0 <= n <= piece_count(total_size, piece_size),
        0 < piece_size,
        0 <= total_size,
    ensures
        n < piece_count(total_size, piece_size) ==> leading_bytes(n, piece_size, total_size)
            == piece_start(n, piece_size),
        n == piece_count(total_size, piece_size) ==> leading_bytes(n, piece_size, total_size)
            == total_size,
    decreases n,
{
    if n == 0 {
        assert(0 * piece_size == 0) by (nonlinear_arith);
        if piece_count(total_size, piece_size) == 0 {
            if total_size > 0 {
                vstd::arithmetic::div_mod::lemma_div_non_zero(
                    total_size + piece_size - 1,
                    piece_size,
                );
            }
        }
    } else {
        pieces_cover_file(n - 1, piece_size, total_size);
        pieces_are_adjacent(n - 1, piece_size, total_size);
    }
}

/// Every byte of the file lies in exactly one piece.
pub proof fn every_byte_has_one_piece(pos: int, idx: int, piece_size: int, total_size: int)
    requires
        0 <= pos < total_size,
        0 < piece_size,
        0 <= idx < piece_count(total_size, piece_size),
    ensures
        0 <= pos / piece_size < piece_count(total_size, piece_size),
        (piece_start(idx, piece_size) <= pos < piece_start(idx, piece_size) + piece_len(
            idx,
            piece_size,
            total_size,
        )) <==> idx == pos / piece_size,
{
    pieces_are_adjacent(idx, piece_size, total_size);
    let q = pos / piece_size;
    vstd::arithmetic::div_mod::lemma_fundamental_div_mod(pos, piece_size);
    vstd::arithmetic::div_mod::lemma_mod_bound(pos, piece_size);
    vstd::arithmetic::div_mod::lemma_div_pos_is_pos(pos, piece_size);
    vstd::arithmetic::div_mod::lemma_div_is_ordered(pos, total_size - 1, piece_size);
    vstd::arithmetic::div_mod::lemma_fundamental_div_mod(total_size + piece_size - 1, piece_size);
    vstd::arithmetic::div_mod::lemma_div_plus_one(total_size - 1, piece_size);
    assert(piece_size * q == q * piece_size) by (nonlinear_arith);
    let start = idx * piece_size;
    if idx < q {
        assert((idx + 1) * piece_size <= q * piece_size) by (nonlinear_arith)
            requires
                idx + 1 <= q,
                piece_size >= 0,
        ;
        assert((idx + 1) * piece_size == idx * piece_size + piece_size) by (nonlinear_arith);
    } else if idx > q {
        assert((q + 1) * piece_size <= idx * piece_size) by (nonlinear_arith)
            requires
                q + 1 <= idx,
                piece_size >= 0,
        ;
        assert((q + 1) * piece_size == q * piece_size + piece_size) by (nonlinear_arith);
    } else {
        if idx + 1 < piece_count(total_size, piece_size) {
        } else {
            assert(start + piece_len(idx, piece_size, total_size) == total_size);
        }
    }
}

} // verus!

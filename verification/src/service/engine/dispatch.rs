//! A body without ranges: one response from the first byte to the last, dealt out to the
//! pieces in order.

use vstd::prelude::*;
use crate::error::Error;
use crate::text::{concat2, decimal, decimal_text};
use super::drain::{joined, joined_prefix, overwritten, StreamEnd};
use super::geometry::{
    piece_count, piece_len, piece_offset, piece_size_at, piece_start, pieces_are_adjacent,
    pieces_total,
};
use super::piece::{
    answer_to, first_refusal, first_refusal_stays, is_write_refusal, range_err_to_piece,
    write_err_to_piece, PieceError,
};

verus! {

/// Where the next bytes of the body go.
pub enum DispatchStep {
    /// The bytes up to the position that was reached go to `piece`, from `offset` on.
    Write { piece: u32, offset: u64 },
    /// The body is longer than the file, or a write was refused.
    Failed(PieceError),
}

/// Deals the bytes of a body out to the pieces.
pub struct FullDispatch {
    piece_size: u64,
    total_size: u64,
    pieces: u32,
    absolute: u64,
    cursor: u32,
    completed: Vec<u32>,
    refused: Option<String>,
}

/// A dispatch as seen from outside.
pub struct DispatchModel {
    pub piece_size: int,
    pub total_size: int,
    /// The number of pieces.
    pub pieces: int,
    /// How many bytes have been dealt out.
    pub absolute: int,
    /// The piece that the next byte belongs to.
    pub cursor: int,
    /// Why the storage refused a write, if it did.
    pub refused: Option<Seq<char>>,
}

/// Where piece `c` starts, or where the file ends if there is no piece `c`.
pub open spec fn boundary(c: int, piece_size: int, total_size: int) -> int {
    if c < piece_count(total_size, piece_size) {
        piece_start(c, piece_size)
    } else {
        total_size
    }
}

/// The number of pieces as far as a piece's number holds it.
pub open spec fn counted_pieces(total_size: int, piece_size: int) -> int {
    piece_count(total_size, piece_size) % 0x1_0000_0000
}

/// How many bytes a body has that fills all the pieces.
pub open spec fn body_limit(total_size: int, piece_size: int) -> int {
    if counted_pieces(total_size, piece_size) == 0 {
        0
    } else {
        boundary(counted_pieces(total_size, piece_size), piece_size, total_size)
    }
}

/// A body fills all the pieces exactly where it is as long as the file, if a piece's number
/// can count the pieces.
pub proof fn body_fills_pieces_like_file(total_size: int, piece_size: int)
    requires
        0 <= total_size,
        0 < piece_size,
        piece_count(total_size, piece_size) < 0x1_0000_0000,
    ensures
        body_limit(total_size, piece_size) == total_size,
        counted_pieces(total_size, piece_size) == piece_count(total_size, piece_size),
{
    vstd::arithmetic::div_mod::lemma_div_pos_is_pos(total_size + piece_size - 1, piece_size);
    vstd::arithmetic::div_mod::lemma_small_mod(
        piece_count(total_size, piece_size) as nat,
        0x1_0000_0000,
    );
    if total_size > 0 {
        vstd::arithmetic::div_mod::lemma_div_non_zero(total_size + piece_size - 1, piece_size);
    }
}

/// The pieces from zero up to but without `n`.
pub open spec fn first_pieces(n: int) -> Seq<u32> {
    Seq::new(n as nat, |i: int| i as u32)
}

/// The first pieces are those that are numbered from zero on.
pub proof fn first_pieces_are_numbered(n: int, i: int)
    requires
        0 <= i < n <= 0x1_0000_0000,
    ensures
        first_pieces(n).len() == n,
        first_pieces(n)[i] == i,
{
}

impl DispatchModel {
    /// How many bytes the body may have.
    pub open spec fn limit(self) -> int {
        body_limit(self.total_size, self.piece_size)
    }

    /// A dispatch whose next byte lies in the piece that the cursor shows, or that has dealt
    /// out everything.
    pub open spec fn wf(self) -> bool {
        &&& 0 <= self.piece_size <= u64::MAX
        &&& 0 <= self.total_size <= u64::MAX
        &&& self.pieces == counted_pieces(self.total_size, self.piece_size)
        &&& 0 <= self.cursor <= self.pieces
        &&& self.cursor < self.pieces ==> piece_start(self.cursor, self.piece_size)
            <= self.absolute < piece_start(self.cursor, self.piece_size) + piece_len(
            self.cursor,
            self.piece_size,
            self.total_size,
        )
        &&& self.cursor == self.pieces ==> self.absolute == self.limit()
    }
}

/// Facts about the piece that the cursor shows.
proof fn cursor_facts(m: DispatchModel)
    requires
        m.wf(),
    ensures
        m.pieces <= piece_count(m.total_size, m.piece_size),
        m.limit() <= m.total_size,
        m.cursor < m.pieces ==> {
            &&& piece_start(m.cursor, m.piece_size) + piece_len(
                m.cursor,
                m.piece_size,
                m.total_size,
            ) == boundary(m.cursor + 1, m.piece_size, m.total_size)
            &&& 0 <= piece_start(m.cursor, m.piece_size) < m.total_size
            &&& boundary(m.cursor + 1, m.piece_size, m.total_size) <= m.limit()
        },
        m.pieces == 0 ==> m.limit() == 0,
{
    let n = piece_count(m.total_size, m.piece_size);
    if m.piece_size > 0 {
        vstd::arithmetic::div_mod::lemma_div_pos_is_pos(
            m.total_size + m.piece_size - 1,
            m.piece_size,
        );
    }
    vstd::arithmetic::div_mod::lemma_mod_decreases(n as nat, 0x1_0000_0000);
    if m.pieces > 0 {
        pieces_are_adjacent(m.pieces - 1, m.piece_size, m.total_size);
        if m.pieces < n {
            pieces_are_adjacent(m.pieces, m.piece_size, m.total_size);
        }
    }
    if m.cursor < m.pieces {
        pieces_are_adjacent(m.cursor, m.piece_size, m.total_size);
        let c = m.cursor;
        let ps = m.piece_size;
        assert(0 <= c * ps) by (nonlinear_arith)
            requires
                0 <= c,
                0 <= ps,
        ;
        if m.cursor + 1 < m.pieces {
            let p = m.pieces;
            assert((c + 1) * ps <= p * ps) by (nonlinear_arith)
                requires
                    c + 1 <= p,
                    0 <= ps,
            ;
            pieces_are_adjacent(m.cursor + 1, m.piece_size, m.total_size);
        }
    }
}

impl FullDispatch {
    /// The dispatch as seen from outside.
    pub closed spec fn view(&self) -> DispatchModel {
        DispatchModel {
            piece_size: self.piece_size as int,
            total_size: self.total_size as int,
            pieces: self.pieces as int,
            absolute: self.absolute as int,
            cursor: self.cursor as int,
            refused: match self.refused {
                Some(text) => Some(text@),
                None => None,
            },
        }
    }

    /// Whether the position fits the cursor and the pieces before it are noted as complete.
    pub closed spec fn wf(&self) -> bool {
        self@.wf() && self.completed@ == first_pieces(self.cursor as int)
    }

    /// The position of a valid dispatch fits its cursor.
    pub proof fn wf_model(&self)
        requires
            self.wf(),
        ensures
            self@.wf(),
    {
    }

    /// A dispatch that has dealt out nothing yet.
    pub fn new(piece_size: u64, total_size: u64) -> (d: FullDispatch)
        ensures
            d.wf(),
            d@ == (DispatchModel {
                piece_size: piece_size as int,
                total_size: total_size as int,
                pieces: counted_pieces(total_size as int, piece_size as int),
                absolute: 0,
                cursor: 0,
                refused: None,
            }),
    {
        let pieces: u32 = pieces_total(total_size, piece_size);
        let d = FullDispatch {
            piece_size,
            total_size,
            pieces,
            absolute: 0,
            cursor: 0,
            completed: Vec::new(),
            refused: None,
        };
        proof {
            assert(0 * piece_size == 0) by (nonlinear_arith);
            if pieces > 0 {
                let n = piece_count(total_size as int, piece_size as int);
                vstd::arithmetic::div_mod::lemma_div_pos_is_pos(
                    total_size + piece_size - 1,
                    piece_size as int,
                );
                vstd::arithmetic::div_mod::lemma_mod_decreases(n as nat, 0x1_0000_0000);
                pieces_are_adjacent(0, piece_size as int, total_size as int);
            }
            assert(d.completed@ =~= first_pieces(0));
        }
        d
    }

    /// How many bytes have been dealt out.
    pub fn absolute(&self) -> (a: u64)
        ensures
            a == self@.absolute,
    {
        self.absolute
    }

    /// Takes in what the storage answered to the write that was dealt out last. Once a write
    /// was refused, nothing is dealt out any more.
    pub fn answered(&mut self, answer: &Result<(), Error>) -> (r: Result<(), PieceError>)
        requires
            old(self).wf(),
        ensures
            final(self).wf(),
            *answer is Ok ==> r is Ok && final(self)@ == old(self)@,
            *answer is Err ==> {
                &&& r matches Err(e) && is_write_refusal(e, *answer)
                &&& final(self)@ == (DispatchModel {
                    refused: Some(r->Err_0.text()),
                    ..old(self)@
                })
            },
    {
        match answer {
            Ok(_) => Ok(()),
            Err(e) => {
                let refusal: PieceError = write_err_to_piece(e);
                let text: String = refusal.into_text();
                self.refused = Some(text.clone());
                Err(PieceError::Permanent(text))
            },
        }
    }

    /// Deals out bytes of `chunk` from position `pos` on, up to the end of the piece that
    /// they belong to or the end of the chunk. Gives the position that it came to.
    pub fn feed(&mut self, chunk: &[u8], pos: usize) -> (r: (usize, DispatchStep))
        requires
            old(self).wf(),
            pos < chunk@.len(),
        ensures
            old(self)@.refused matches Some(text) ==> {
                &&& r.0 == pos
                &&& r.1 matches DispatchStep::Failed(e) && e is Permanent && e.text() == text
                &&& final(self)@ == old(self)@
            },
            old(self)@.refused is None ==> ({
                let s = old(self)@;
                let start = piece_start(s.cursor, s.piece_size);
                let end = start + piece_len(s.cursor, s.piece_size, s.total_size);
                let left = chunk@.len() - pos;
                match r.1 {
                    DispatchStep::Write { piece, offset } => {
                        &&& s.cursor < s.pieces
                        &&& piece == s.cursor
                        &&& offset == s.absolute - start
                        &&& r.0 - pos == (if left < end - s.absolute {
                            left
                        } else {
                            end - s.absolute
                        })
                        &&& final(self)@ == (DispatchModel {
                            absolute: s.absolute + (r.0 - pos),
                            cursor: if left < end - s.absolute {
                                s.cursor
                            } else {
                                s.cursor + 1
                            },
                            ..s
                        })
                    },
                    DispatchStep::Failed(e) => {
                        &&& s.cursor == s.pieces
                        &&& r.0 == pos
                        &&& e is Transient
                        &&& e.text() == "server overshoots total_size"@
                        &&& final(self)@ == s
                    },
                }
            }),
            pos <= r.0 <= chunk@.len(),
            r.1 is Write ==> pos < r.0,
            final(self).wf(),
    {
        if let Some(text) = &self.refused {
            return (pos, DispatchStep::Failed(PieceError::Permanent(text.clone())));
        }
        if self.cursor >= self.pieces {
            return (
                pos,
                DispatchStep::Failed(
                    PieceError::Transient("server overshoots total_size".to_owned()),
                ),
            );
        }
        proof {
            cursor_facts(self@);
        }
        let piece: u32 = self.cursor;
        let start: u64 = piece_offset(piece, self.piece_size);
        let end: u64 = start + piece_size_at(piece, self.piece_size, self.total_size);
        let offset: u64 = self.absolute - start;
        let room: u64 = end - self.absolute;
        let left: usize = chunk.len() - pos;
        let ghost before = self.completed@;
        if (left as u64) < room {
            self.absolute = self.absolute + left as u64;
            return (pos + left, DispatchStep::Write { piece, offset });
        }
        self.absolute = end;
        self.completed.push(piece);
        self.cursor = self.cursor + 1;
        proof {
            assert(self.completed@ =~= first_pieces(self.cursor as int));
            let m = self@;
            if m.cursor < m.pieces {
                pieces_are_adjacent(m.cursor, m.piece_size, m.total_size);
            }
        }
        (pos + room as usize, DispatchStep::Write { piece, offset })
    }

    /// Takes note that the body has ended: all pieces are complete, or the body was short.
    pub fn finish(self) -> (r: Result<Vec<u32>, PieceError>)
        requires
            self.wf(),
        ensures
            self@.refused matches Some(text) ==> (r matches Err(e) && e is Permanent && e.text()
                == text),
            self@.refused is None ==> match r {
                Ok(pieces) => self@.cursor == self@.pieces && pieces@ == first_pieces(
                    self@.pieces,
                ),
                Err(e) => {
                    &&& self@.cursor < self@.pieces
                    &&& e is Transient
                    &&& e.text() == "truncated: wrote "@ + decimal(self@.absolute as nat)
                        + " bytes"@
                },
            },
    {
        if let Some(text) = self.refused {
            return Err(PieceError::Permanent(text));
        }
        if self.cursor != self.pieces {
            let head: String = concat2("truncated: wrote ", decimal_text(self.absolute).as_str());
            return Err(PieceError::Transient(concat2(head.as_str(), " bytes")));
        }
        Ok(self.completed)
    }
}

/// Bytes that go to one piece, and where in it.
#[derive(Debug, PartialEq, Eq)]
pub struct FullWrite {
    pub piece: u32,
    pub offset: u64,
    pub bytes: Vec<u8>,
}

/// A write as seen from outside.
pub struct DealtWrite {
    pub piece: int,
    pub offset: int,
    pub bytes: Seq<u8>,
}

/// The writes as seen from outside.
pub open spec fn dealt(writes: Seq<FullWrite>) -> Seq<DealtWrite> {
    writes.map_values(
        |w: FullWrite|
            DealtWrite { piece: w.piece as int, offset: w.offset as int, bytes: w.bytes@ },
    )
}

/// How many bytes lie between position `pos` of the file and the end of the piece that holds
/// it; none where the pieces have ended.
pub open spec fn room_at(pos: int, piece_size: int, total_size: int) -> int {
    if 0 <= pos < body_limit(total_size, piece_size) {
        let piece = pos / piece_size;
        piece_start(piece, piece_size) + piece_len(piece, piece_size, total_size) - pos
    } else {
        0
    }
}

/// How the bytes of a chunk that begins at position `pos` of the file are cut into writes:
/// each one goes as far as the chunk and the piece go.
pub open spec fn cut_chunk(pos: int, chunk: Seq<u8>, piece_size: int, total_size: int) -> Seq<
    DealtWrite,
>
    decreases chunk.len(),
{
    let room = room_at(pos, piece_size, total_size);
    if chunk.len() == 0 || room <= 0 {
        Seq::empty()
    } else {
        let n = if chunk.len() < room {
            chunk.len() as int
        } else {
            room
        };
        let first = DealtWrite {
            piece: pos / piece_size,
            offset: pos - piece_start(pos / piece_size, piece_size),
            bytes: chunk.take(n),
        };
        seq![first] + cut_chunk(pos + n, chunk.skip(n), piece_size, total_size)
    }
}

/// How a body that comes as `chunks` is cut into writes.
pub open spec fn cut_body(chunks: Seq<Vec<u8>>, piece_size: int, total_size: int) -> Seq<DealtWrite>
    decreases chunks.len(),
{
    if chunks.len() == 0 {
        Seq::empty()
    } else {
        let before = chunks.drop_last();
        cut_body(before, piece_size, total_size) + cut_chunk(
            joined(before).len() as int,
            chunks.last()@,
            piece_size,
            total_size,
        )
    }
}

/// Nothing is written once the pieces have ended.
proof fn rest_is_not_written(chunks: Seq<Vec<u8>>, i: int, piece_size: int, total_size: int)
    requires
        0 <= i <= chunks.len(),
        body_limit(total_size, piece_size) <= joined(chunks.take(i)).len(),
    ensures
        cut_body(chunks, piece_size, total_size) == cut_body(
            chunks.take(i),
            piece_size,
            total_size,
        ),
    decreases chunks.len(),
{
    if i == chunks.len() {
        assert(chunks.take(i) =~= chunks);
    } else {
        let rest = chunks.drop_last();
        assert(rest.take(i) =~= chunks.take(i));
        rest_is_not_written(rest, i, piece_size, total_size);
        joined_prefix(rest, i);
        assert(joined(rest.take(i)).len() <= joined(rest).len());
        assert(cut_body(chunks, piece_size, total_size) =~= cut_body(rest, piece_size, total_size));
    }
}

/// The position of a dispatch tells the piece that it is at and the room that is left there.
proof fn room_of_cursor(m: DispatchModel)
    requires
        m.wf(),
    ensures
        m.cursor < m.pieces ==> {
            &&& m.absolute / m.piece_size == m.cursor
            &&& room_at(m.absolute, m.piece_size, m.total_size) == piece_start(
                m.cursor,
                m.piece_size,
            ) + piece_len(m.cursor, m.piece_size, m.total_size) - m.absolute
        },
        m.cursor == m.pieces ==> room_at(m.absolute, m.piece_size, m.total_size) == 0,
{
    cursor_facts(m);
    if m.cursor < m.pieces {
        pieces_are_adjacent(m.cursor, m.piece_size, m.total_size);
        vstd::arithmetic::div_mod::lemma_fundamental_div_mod_converse(
            m.absolute,
            m.piece_size,
            m.cursor,
            m.absolute - piece_start(m.cursor, m.piece_size),
        );
    }
}

/// How many bytes all the writes hold.
pub open spec fn written_bytes(writes: Seq<FullWrite>) -> nat
    decreases writes.len(),
{
    if writes.len() == 0 {
        0
    } else {
        written_bytes(writes.drop_last()) + writes.last().bytes@.len()
    }
}

/// Whether `w` puts the bytes of `data` from position `pos` on to the place in a piece where
/// that position lies, and stays within the piece.
pub open spec fn is_dealt(
    w: FullWrite,
    data: Seq<u8>,
    pos: int,
    piece_size: int,
    total_size: int,
) -> bool {
    &&& piece_start(w.piece as int, piece_size) + w.offset == pos
    &&& 0 < w.bytes@.len() <= data.len() - pos
    &&& w.bytes@ == data.subrange(pos, pos + w.bytes@.len())
    &&& w.offset + w.bytes@.len() <= piece_len(w.piece as int, piece_size, total_size)
}

/// Whether the writes deal out the start of `data` without a gap.
pub open spec fn deals_out(
    writes: Seq<FullWrite>,
    data: Seq<u8>,
    piece_size: int,
    total_size: int,
) -> bool {
    forall|k: int|
        0 <= k < writes.len() ==> is_dealt(
            #[trigger] writes[k],
            data,
            written_bytes(writes.take(k)) as int,
            piece_size,
            total_size,
        )
}

/// One more write that continues where the others stopped keeps the deal without a gap.
proof fn deals_out_push(
    writes: Seq<FullWrite>,
    w: FullWrite,
    data: Seq<u8>,
    piece_size: int,
    total_size: int,
)
    requires
        deals_out(writes, data, piece_size, total_size),
        is_dealt(w, data, written_bytes(writes) as int, piece_size, total_size),
    ensures
        deals_out(writes.push(w), data, piece_size, total_size),
        written_bytes(writes.push(w)) == written_bytes(writes) + w.bytes@.len(),
{
    let more = writes.push(w);
    assert(more.drop_last() == writes);
    assert forall|k: int| 0 <= k < more.len() implies is_dealt(
        #[trigger] more[k],
        data,
        written_bytes(more.take(k)) as int,
        piece_size,
        total_size,
    ) by {
        if k < writes.len() {
            assert(more.take(k) == writes.take(k));
            assert(more[k] == writes[k]);
        } else {
            assert(more.take(k) == writes);
        }
    }
}

/// What dealing out a whole body came to.
pub struct DispatchRun {
    /// The writes, in the order in which they were asked for. Where one was refused, it is the
    /// last.
    pub writes: Vec<FullWrite>,
    /// The pieces that are complete, or why the body is of no use.
    pub outcome: Result<Vec<u32>, PieceError>,
}

/// The bytes `from..to` of a chunk.
fn part_of(chunk: &[u8], from: usize, to: usize) -> (v: Vec<u8>)
    requires
        from <= to <= chunk@.len(),
    ensures
        v@ == chunk@.subrange(from as int, to as int),
{
    let mut v: Vec<u8> = Vec::new();
    let mut i: usize = from;
    while i < to
        invariant
            from <= i <= to <= chunk@.len(),
            v@ == chunk@.subrange(from as int, i as int),
        decreases to - i,
    {
        v.push(chunk[i]);
        i = i + 1;
    }
    v
}

/// A chunk is the part of the body that begins where the chunks before it end.
proof fn chunk_lies_in_body(chunks: Seq<Vec<u8>>, i: int)
    requires
        0 <= i < chunks.len(),
    ensures
        ({
            let before = joined(chunks.take(i)).len();
            let chunk = chunks[i]@;
            &&& before + chunk.len() == joined(chunks.take(i + 1)).len() <= joined(chunks).len()
            &&& forall|p: int, q: int|
                0 <= p <= q <= chunk.len() ==> chunk.subrange(p, q) == #[trigger] joined(
                    chunks,
                ).subrange(before + p, before + q)
        }),
{
    let data = joined(chunks);
    let before = joined(chunks.take(i)).len();
    let chunk = chunks[i]@;
    joined_prefix(chunks, i);
    joined_prefix(chunks, i + 1);
    assert(chunks.take(i + 1).drop_last() =~= chunks.take(i));
    assert forall|p: int, q: int| 0 <= p <= q <= chunk.len() implies chunk.subrange(p, q)
        == #[trigger] data.subrange(before + p, before + q) by {
        let upto = joined(chunks.take(i + 1));
        assert(upto == data.take(upto.len() as int));
        assert(upto.subrange(before + p, before + q) == chunk.subrange(p, q));
        assert(data.subrange(before + p, before + q) == upto.subrange(before + p, before + q));
    }
}

/// What the first chunks lead to is what the whole body leads to first.
proof fn first_writes_come_first(chunks: Seq<Vec<u8>>, i: int, piece_size: int, total_size: int)
    requires
        0 <= i <= chunks.len(),
    ensures
        ({
            let first = cut_body(chunks.take(i), piece_size, total_size);
            let all = cut_body(chunks, piece_size, total_size);
            first.len() <= all.len() && all.take(first.len() as int) == first
        }),
    decreases chunks.len(),
{
    let first = cut_body(chunks.take(i), piece_size, total_size);
    let all = cut_body(chunks, piece_size, total_size);
    if i == chunks.len() {
        assert(chunks.take(i) =~= chunks);
    } else {
        let rest = chunks.drop_last();
        assert(rest.take(i) =~= chunks.take(i));
        first_writes_come_first(rest, i, piece_size, total_size);
        let most = cut_body(rest, piece_size, total_size);
        assert(all.take(first.len() as int) =~= most.take(first.len() as int));
    }
    assert(all.take(first.len() as int) =~= first);
}

/// A write that goes as far as its chunk and its piece go is the next one of the cut.
proof fn cut_goes_on(
    writes: Seq<FullWrite>,
    w: FullWrite,
    pos: int,
    left: Seq<u8>,
    n: int,
    piece_size: int,
    total_size: int,
    upto: Seq<DealtWrite>,
)
    requires
        0 < n <= left.len(),
        n == left.len() || n == room_at(pos, piece_size, total_size),
        n <= room_at(pos, piece_size, total_size),
        w.piece == pos / piece_size,
        w.offset == pos - piece_start(pos / piece_size, piece_size),
        w.bytes@ == left.take(n),
        dealt(writes) + cut_chunk(pos, left, piece_size, total_size) == upto,
    ensures
        dealt(writes.push(w)) + cut_chunk(pos + n, left.skip(n), piece_size, total_size) == upto,
{
    let first = DealtWrite { piece: w.piece as int, offset: w.offset as int, bytes: w.bytes@ };
    let rest = cut_chunk(pos + n, left.skip(n), piece_size, total_size);
    assert(dealt(writes.push(w)) =~= dealt(writes).push(first));
    assert(cut_chunk(pos, left, piece_size, total_size) == seq![first] + rest);
    assert(dealt(writes).push(first) + rest =~= dealt(writes) + (seq![first] + rest));
}

/// Writes that stop at a refused one are the first writes of the whole body.
proof fn refused_run_is_cut_short(
    chunks: Seq<Vec<u8>>,
    i: int,
    writes: Seq<FullWrite>,
    rest: Seq<DealtWrite>,
    answers: Seq<Result<(), Error>>,
    piece_size: int,
    total_size: int,
)
    requires
        0 <= i <= chunks.len(),
        dealt(writes) + rest == cut_body(chunks.take(i), piece_size, total_size),
        first_refusal(answers, writes.len() as int) is Some,
    ensures
        ({
            let all = cut_body(chunks, piece_size, total_size);
            &&& dealt(writes) == all.take(writes.len() as int)
            &&& first_refusal(answers, all.len() as int) == first_refusal(
                answers,
                writes.len() as int,
            )
        }),
{
    let n = writes.len() as int;
    let all = cut_body(chunks, piece_size, total_size);
    let upto = cut_body(chunks.take(i), piece_size, total_size);
    first_writes_come_first(chunks, i, piece_size, total_size);
    assert(upto.take(n) =~= dealt(writes));
    assert(all.take(n) =~= all.take(upto.len() as int).take(n));
    first_refusal_stays(answers, n, all.len() as int);
}

/// Deals out a body that came as `chunks` to the pieces of a file; `answers` is what the storage
/// answers to the writes, in order. A write ends where its chunk or its piece ends. Nothing is
/// written after a refused write, and the attempt has then failed for good. Otherwise it
/// succeeds exactly where the body ended well and was as long as the file; all the pieces are
/// then complete.
pub fn fetch_full_and_dispatch(
    chunks: &Vec<Vec<u8>>,
    end: &StreamEnd,
    piece_size: u64,
    total_size: u64,
    answers: &Vec<Result<(), Error>>,
) -> (run: DispatchRun)
    ensures
        ({
            let data = joined(chunks@);
            let pieces = counted_pieces(total_size as int, piece_size as int);
            let limit = body_limit(total_size as int, piece_size as int);
            let all = cut_body(chunks@, piece_size as int, total_size as int);
            &&& deals_out(run.writes@, data, piece_size as int, total_size as int)
            &&& match first_refusal(answers@, all.len() as int) {
                Some(k) => {
                    &&& dealt(run.writes@) == all.take(k + 1)
                    &&& run.outcome matches Err(e) && is_write_refusal(e, answers@[k])
                },
                None => {
                    &&& dealt(run.writes@) == all
                    &&& written_bytes(run.writes@) == (if data.len() < limit {
                        data.len() as int
                    } else {
                        limit
                    })
                    &&& run.outcome is Ok <==> *end is Eof && data.len() == limit
                    &&& run.outcome matches Ok(done) ==> done@ == first_pieces(pieces)
                    &&& run.outcome matches Err(e) ==> if data.len() > limit {
                        e is Transient && e.text() == "server overshoots total_size"@
                    } else {
                        match *end {
                            StreamEnd::Eof => e is Transient && e.text() == "truncated: wrote "@
                                + decimal(data.len()) + " bytes"@,
                            StreamEnd::Fault(f) => (e is Transient <==> f.transient())
                                && e.text() == f.text(),
                        }
                    }
                },
            }
        }),
{
    let mut dispatch = FullDispatch::new(piece_size, total_size);
    let mut writes: Vec<FullWrite> = Vec::new();
    let ghost data = joined(chunks@);
    let ghost m0 = dispatch@;
    let ghost ps = piece_size as int;
    let ghost ts = total_size as int;
    let mut i: usize = 0;
    assert(chunks@.take(0) =~= Seq::<Vec<u8>>::empty());
    assert(dealt(writes@) =~= cut_body(chunks@.take(0), ps, ts));
    assert(joined(chunks@.take(0)) =~= Seq::<u8>::empty());
    while i < chunks.len()
        invariant
            i <= chunks@.len(),
            ps == piece_size,
            ts == total_size,
            dealt(writes@) == cut_body(chunks@.take(i as int), ps, ts),
            data == joined(chunks@),
            dispatch.wf(),
            dispatch@.refused is None,
            first_refusal(answers@, writes@.len() as int) is None,
            dispatch@.piece_size == piece_size,
            dispatch@.total_size == total_size,
            dispatch@.pieces == m0.pieces,
            m0.piece_size == piece_size,
            m0.total_size == total_size,
            m0.pieces == counted_pieces(total_size as int, piece_size as int),
            dispatch@.absolute == joined(chunks@.take(i as int)).len(),
            dispatch@.absolute == written_bytes(writes@),
            joined(chunks@.take(i as int)).len() <= data.len(),
            deals_out(writes@, data, piece_size as int, total_size as int),
        decreases chunks@.len() - i,
    {
        let chunk: &[u8] = chunks[i].as_slice();
        let mut pos: usize = 0;
        let ghost before = joined(chunks@.take(i as int)).len();
        proof {
            chunk_lies_in_body(chunks@, i as int);
        }
        let ghost upto = cut_body(chunks@.take(i + 1), ps, ts);
        proof {
            assert(chunks@.take(i + 1).drop_last() =~= chunks@.take(i as int));
            assert(chunk@.skip(0) =~= chunk@);
            assert(dealt(writes@) + cut_chunk(before as int, chunk@.skip(0), ps, ts) == upto);
        }
        while pos < chunk.len()
            invariant
                ps == piece_size,
                ts == total_size,
                upto == cut_body(chunks@.take(i + 1), ps, ts),
                before + chunk@.len() == joined(chunks@.take(i + 1)).len(),
                dealt(writes@) + cut_chunk(before + pos, chunk@.skip(pos as int), ps, ts) == upto,
                i < chunks@.len(),
                pos <= chunk@.len(),
                chunk@ == chunks@[i as int]@,
                data == joined(chunks@),
                dispatch.wf(),
                dispatch@.refused is None,
                first_refusal(answers@, writes@.len() as int) is None,
                dispatch@.piece_size == piece_size,
                dispatch@.total_size == total_size,
                dispatch@.pieces == m0.pieces,
                m0.piece_size == piece_size,
                m0.total_size == total_size,
                m0.pieces == counted_pieces(total_size as int, piece_size as int),
                dispatch@.absolute == before + pos,
                dispatch@.absolute == written_bytes(writes@),
                before + chunk@.len() <= data.len(),
                deals_out(writes@, data, piece_size as int, total_size as int),
                forall|p: int, q: int|
                    0 <= p <= q <= chunk@.len() ==> chunk@.subrange(p, q)
                        == #[trigger] data.subrange(before + p, before + q),
            decreases chunk@.len() - pos,
        {
            proof {
                dispatch.wf_model();
                cursor_facts(dispatch@);
                room_of_cursor(dispatch@);
            }
            let ghost left = chunk@.skip(pos as int);
            let ghost so_far = writes@;
            let (next, step) = dispatch.feed(chunk, pos);
            match step {
                DispatchStep::Write { piece, offset } => {
                    let bytes: Vec<u8> = part_of(chunk, pos, next);
                    assert(bytes@ == data.subrange(before + pos, before + next));
                    let w = FullWrite { piece, offset, bytes };
                    proof {
                        deals_out_push(writes@, w, data, piece_size as int, total_size as int);
                    }
                    let answer: Result<(), Error> = answer_to(answers, writes.len());
                    writes.push(w);
                    proof {
                        let n = next - pos;
                        assert(left.take(n) =~= w.bytes@);
                        assert(left.skip(n) =~= chunk@.skip(next as int));
                        cut_goes_on(so_far, w, before + pos, left, n, ps, ts, upto);
                        assert(writes@ == so_far.push(w));
                    }
                    if let Err(e) = dispatch.answered(&answer) {
                        proof {
                            refused_run_is_cut_short(
                                chunks@,
                                i + 1,
                                writes@,
                                cut_chunk(before + next, chunk@.skip(next as int), ps, ts),
                                answers@,
                                ps,
                                ts,
                            );
                        }
                        return DispatchRun { writes, outcome: Err(e) };
                    }
                },
                DispatchStep::Failed(e) => {
                    proof {
                        assert(dealt(writes@) =~= upto);
                        rest_is_not_written(chunks@, i + 1, ps, ts);
                    }
                    return DispatchRun { writes, outcome: Err(e) };
                },
            }
            pos = next;
        }
        assert(dealt(writes@) =~= upto);
        i = i + 1;
    }
    assert(chunks@.take(chunks@.len() as int) == chunks@);
    proof {
        dispatch.wf_model();
        cursor_facts(dispatch@);
    }
    if let StreamEnd::Fault(f) = end {
        return DispatchRun { writes, outcome: Err(range_err_to_piece(f)) };
    }
    DispatchRun { writes, outcome: dispatch.finish() }
}

/// The content of a file after all the writes have been made in order.
pub open spec fn stored_file(content: Seq<u8>, writes: Seq<FullWrite>, piece_size: int) -> Seq<u8>
    decreases writes.len(),
{
    if writes.len() == 0 {
        content
    } else {
        let w = writes.last();
        overwritten(
            stored_file(content, writes.drop_last(), piece_size),
            piece_start(w.piece as int, piece_size) + w.offset,
            w.bytes@,
        )
    }
}

/// Dealing out a body puts it at the start of the file, as far as it goes, and leaves the
/// rest of the file alone.
pub proof fn dealt_body_fills_the_file(
    content: Seq<u8>,
    data: Seq<u8>,
    writes: Seq<FullWrite>,
    piece_size: int,
    total_size: int,
)
    requires
        data.len() <= content.len(),
        deals_out(writes, data, piece_size, total_size),
    ensures
        written_bytes(writes) <= data.len(),
        stored_file(content, writes, piece_size) == data.take(written_bytes(writes) as int)
            + content.skip(written_bytes(writes) as int),
    decreases writes.len(),
{
    if writes.len() == 0 {
        assert(stored_file(content, writes, piece_size) =~= data.take(0) + content.skip(0));
    } else {
        let rest = writes.drop_last();
        let n = rest.len() as int;
        assert forall|k: int| 0 <= k < rest.len() implies is_dealt(
            #[trigger] rest[k],
            data,
            written_bytes(rest.take(k)) as int,
            piece_size,
            total_size,
        ) by {
            assert(rest[k] == writes[k]);
            assert(rest.take(k) == writes.take(k));
        }
        dealt_body_fills_the_file(content, data, rest, piece_size, total_size);
        assert(writes.take(n) == rest);
        assert(is_dealt(
            writes[n],
            data,
            written_bytes(writes.take(n)) as int,
            piece_size,
            total_size,
        ));
        assert(stored_file(content, writes, piece_size) =~= data.take(written_bytes(writes) as int)
            + content.skip(written_bytes(writes) as int));
    }
}

/// A body that was dealt out to the end is what the file holds.
pub proof fn dispatched_file_holds_the_body(
    content: Seq<u8>,
    data: Seq<u8>,
    writes: Seq<FullWrite>,
    piece_size: int,
    total_size: int,
)
    requires
        content.len() == data.len(),
        deals_out(writes, data, piece_size, total_size),
        written_bytes(writes) == data.len(),
    ensures
        stored_file(content, writes, piece_size) == data,
{
    dealt_body_fills_the_file(content, data, writes, piece_size, total_size);
    assert(stored_file(content, writes, piece_size) =~= data);
}

} // verus!

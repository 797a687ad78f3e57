//! A whole response drained into a piece: which writes it leads to and how it ends.

use vstd::prelude::*;
use crate::domain::spec::ceil_div;
use crate::error::Error;
use crate::ports::http::RangeError;
use super::piece::{
    answer_to, first_refusal, first_refusal_stays, is_write_refusal, range_err_to_piece,
    truncated_text, DrainEnd, DrainStep, PieceDrain, PieceError, PieceWrite,
};

verus! {

/// How the body of a response ends.
#[derive(Debug, PartialEq, Eq)]
pub enum StreamEnd {
    /// Everything has come.
    Eof,
    /// The connection failed in the middle.
    Fault(RangeError),
}

/// The bytes of all chunks, one after the other.
pub open spec fn joined(chunks: Seq<Vec<u8>>) -> Seq<u8>
    decreases chunks.len(),
{
    if chunks.len() == 0 {
        Seq::empty()
    } else {
        joined(chunks.drop_last()) + chunks.last()@
    }
}

/// Whether `w` is the `k`-th write of `block` bytes of `data`; the last one may be shorter.
pub open spec fn is_block_write(w: PieceWrite, data: Seq<u8>, block: nat, k: int) -> bool {
    &&& w.offset == k * block
    &&& k * block < data.len()
    &&& w.bytes@ == data.subrange(
        k * block,
        if (k + 1) * block < data.len() {
            (k + 1) * block
        } else {
            data.len() as int
        },
    )
}

/// How many bytes of `data` have been handed out as full writes of `block` bytes when the
/// connection fails.
pub open spec fn full_blocks(data: Seq<u8>, block: nat) -> int {
    data.len() as int / block as int * block
}

/// Whether the response runs over a piece of `size` bytes before it ends. A fault hides an
/// overrun by less than one write.
pub open spec fn overruns(data: Seq<u8>, end: StreamEnd, size: nat, block: nat) -> bool {
    match end {
        StreamEnd::Eof => data.len() > size,
        StreamEnd::Fault(_) => full_blocks(data, block) > size,
    }
}

/// How many writes `data` leads to if none is refused: all of it in blocks where it fits and
/// ends well, the full blocks that fit otherwise.
pub open spec fn write_count(data: Seq<u8>, end: StreamEnd, size: nat, block: nat) -> int {
    if overruns(data, end, size, block) {
        size as int / block as int
    } else {
        match end {
            StreamEnd::Eof => ceil_div(data.len() as int, block as int),
            StreamEnd::Fault(_) => data.len() as int / block as int,
        }
    }
}

/// What draining a whole response came to.
pub struct DrainRun {
    /// The writes, in the order in which they were asked for. Where one was refused, it is the
    /// last.
    pub writes: Vec<PieceWrite>,
    pub outcome: Result<(), PieceError>,
}

/// Full blocks that have come and fit into the piece are among the writes.
proof fn blocks_are_written(n: int, data: Seq<u8>, end: StreamEnd, size: nat, block: nat)
    requires
        0 <= n,
        0 < block,
        n * block <= size,
        n * block <= data.len(),
    ensures
        n <= write_count(data, end, size, block),
{
    let b = block as int;
    assert(n * b == b * n) by (nonlinear_arith);
    vstd::arithmetic::div_mod::lemma_div_multiples_vanish(n, b);
    vstd::arithmetic::div_mod::lemma_div_is_ordered(n * b, size as int, b);
    vstd::arithmetic::div_mod::lemma_div_is_ordered(n * b, data.len() as int, b);
    vstd::arithmetic::div_mod::lemma_div_is_ordered(n * b, data.len() + b - 1, b);
}

/// A response that ends well and fits into the piece is written to its last byte; of one that is
/// too long, or breaks off, the full blocks that fit are written. A response that breaks off is
/// too long where its full blocks alone are.
pub proof fn writes_follow_the_response(data: Seq<u8>, end: StreamEnd, size: nat, block: nat, n: int)
    requires
        0 < block,
        0 <= n,
        n * block <= data.len() < (n + 1) * block,
    ensures
        ({
            let count = write_count(data, end, size, block);
            &&& end is Eof ==> (overruns(data, end, size, block) <==> data.len() > size)
            &&& end is Fault ==> (overruns(data, end, size, block) <==> n * block > size)
            &&& overruns(data, end, size, block) ==> count * block <= size < (count + 1) * block
            &&& end is Eof && data.len() <= size ==> (count - 1) * block < data.len() <= count
                * block
            &&& end is Fault && n * block <= size ==> count == n
        }),
{
    let b = block as int;
    let len = data.len() as int;
    let rest = len - n * b;
    assert((n + 1) * b == n * b + b) by (nonlinear_arith);
    assert(n * b == b * n) by (nonlinear_arith);
    vstd::arithmetic::div_mod::lemma_fundamental_div_mod_converse(len, b, n, rest);
    let fits = size as int / b;
    vstd::arithmetic::div_mod::lemma_fundamental_div_mod(size as int, b);
    assert(fits * b == b * fits) by (nonlinear_arith);
    assert((fits + 1) * b == fits * b + b) by (nonlinear_arith);
    let all = ceil_div(len, b);
    vstd::arithmetic::div_mod::lemma_fundamental_div_mod(len + b - 1, b);
    assert(all * b == b * all) by (nonlinear_arith);
    assert((all - 1) * b == all * b - b) by (nonlinear_arith);
}

/// The chunks before position `i` are a prefix of all of them.
pub proof fn joined_prefix(chunks: Seq<Vec<u8>>, i: int)
    requires
        0 <= i <= chunks.len(),
    ensures
        joined(chunks.take(i)).len() <= joined(chunks).len(),
        joined(chunks.take(i)) == joined(chunks).take(joined(chunks.take(i)).len() as int),
        i < chunks.len() ==> joined(chunks.take(i + 1)) == joined(chunks.take(i)) + chunks[i]@,
    decreases chunks.len() - i,
{
    if i == chunks.len() {
        assert(chunks.take(i) == chunks);
    } else {
        joined_prefix(chunks, i + 1);
        assert(chunks.take(i + 1).drop_last() == chunks.take(i));
        let a = joined(chunks.take(i));
        let b = joined(chunks.take(i + 1));
        assert(b == a + chunks[i]@);
        assert(a == b.take(a.len() as int));
        assert(a == joined(chunks).take(a.len() as int));
    }
}

/// Drains a response that came as `chunks` into a piece of `size` bytes, `buf_cap` bytes at
/// a time; `answers` is what the storage answers to the writes, in order. Nothing is written
/// after a refused write, and the attempt has then failed for good. Otherwise the piece is
/// complete exactly where the response ended well and was as long as the piece.
pub fn drain_stream_into_piece(
    chunks: &Vec<Vec<u8>>,
    end: &StreamEnd,
    size: u64,
    buf_cap: usize,
    answers: &Vec<Result<(), Error>>,
) -> (run: DrainRun)
    ensures
        ({
            let data = joined(chunks@);
            let block = if buf_cap == 0 {
                1nat
            } else {
                buf_cap as nat
            };
            let count = write_count(data, *end, size as nat, block);
            &&& forall|k: int|
                0 <= k < run.writes@.len() ==> is_block_write(
                    #[trigger] run.writes@[k],
                    data,
                    block,
                    k,
                )
            &&& match first_refusal(answers@, count) {
                Some(k) => {
                    &&& run.writes@.len() == k + 1
                    &&& run.outcome matches Err(e) && is_write_refusal(e, answers@[k])
                },
                None => {
                    &&& run.writes@.len() == count
                    &&& run.outcome is Ok <==> *end is Eof && data.len() == size
                    &&& run.outcome matches Err(e) ==> if overruns(
                        data,
                        *end,
                        size as nat,
                        block,
                    ) {
                        e is Transient && e.text() == "piece overflow"@
                    } else {
                        match *end {
                            StreamEnd::Eof => e is Transient && e.text() == truncated_text(
                                data.len(),
                                size as nat,
                            ),
                            StreamEnd::Fault(f) => (e is Transient <==> f.transient())
                                && e.text() == f.text(),
                        }
                    }
                },
            }
        }),
{
    let mut drain = PieceDrain::new(size, buf_cap);
    let mut writes: Vec<PieceWrite> = Vec::new();
    let ghost data = joined(chunks@);
    let ghost block = drain@.block;
    let mut i: usize = 0;
    assert(0 * block == 0) by (nonlinear_arith);
    assert(joined(chunks@.take(0)) =~= Seq::<u8>::empty());
    while i < chunks.len()
        invariant
            i <= chunks@.len(),
            data == joined(chunks@),
            block == drain@.block,
            block > 0,
            drain@.wf(),
            drain@.refused is None,
            first_refusal(answers@, writes@.len() as int) is None,
            drain@.size == size,
            drain@.written == writes@.len() * block,
            drain@.written + drain@.buf.len() == joined(chunks@.take(i as int)).len(),
            joined(chunks@.take(i as int)).len() <= data.len(),
            drain@.buf == data.subrange(
                drain@.written as int,
                (drain@.written + drain@.buf.len()) as int,
            ),
            forall|k: int|
                0 <= k < writes@.len() ==> is_block_write(#[trigger] writes@[k], data, block, k),
            block == (if buf_cap == 0 {
                1nat
            } else {
                buf_cap as nat
            }),
        decreases chunks@.len() - i,
    {
        let chunk: &[u8] = chunks[i].as_slice();
        let mut pos: usize = 0;
        let ghost before = joined(chunks@.take(i as int)).len();
        proof {
            joined_prefix(chunks@, i as int);
            joined_prefix(chunks@, i + 1);
        }
        assert forall|p: int, q: int| 0 <= p <= q <= chunk@.len() implies chunk@.subrange(p, q)
            == #[trigger] data.subrange(before + p, before + q) by {
            let upto = joined(chunks@.take(i + 1));
            assert(upto == data.take(upto.len() as int));
            assert(upto.subrange(before + p, before + q) == chunk@.subrange(p, q));
            assert(data.subrange(before + p, before + q) == upto.subrange(before + p, before + q));
        }
        while pos < chunk.len()
            invariant
                i < chunks@.len(),
                pos <= chunk@.len(),
                chunk@ == chunks@[i as int]@,
                data == joined(chunks@),
                block == drain@.block,
                block > 0,
                drain@.wf(),
                drain@.refused is None,
                first_refusal(answers@, writes@.len() as int) is None,
                drain@.size == size,
                drain@.written == writes@.len() * block,
                drain@.written + drain@.buf.len() == before + pos,
                before + chunk@.len() <= data.len(),
                drain@.buf == data.subrange(
                    drain@.written as int,
                    (drain@.written + drain@.buf.len()) as int,
                ),
                forall|k: int|
                    0 <= k < writes@.len() ==> is_block_write(
                        #[trigger] writes@[k],
                        data,
                        block,
                        k,
                    ),
                forall|p: int, q: int|
                    0 <= p <= q <= chunk@.len() ==> chunk@.subrange(p, q)
                        == #[trigger] data.subrange(before + p, before + q),
                block == (if buf_cap == 0 {
                    1nat
                } else {
                    buf_cap as nat
                }),
            decreases chunk@.len() - pos,
        {
            let ghost old_drain = drain@;
            let ghost n = writes@.len();
            let (next, step) = drain.feed(chunk, pos);
            assert(chunk@.subrange(pos as int, next as int) == data.subrange(
                before + pos,
                before + next,
            ));
            assert(old_drain.buf + chunk@.subrange(pos as int, next as int) =~= data.subrange(
                old_drain.written as int,
                before + next,
            ));
            assert((n + 1) * block == n * block + block) by (nonlinear_arith);
            pos = next;
            match step {
                DrainStep::More => {},
                DrainStep::Write(w) => {
                    assert(is_block_write(w, data, block, n as int));
                    let answer: Result<(), Error> = answer_to(answers, writes.len());
                    writes.push(w);
                    if let Err(e) = drain.answered(&answer) {
                        proof {
                            blocks_are_written(n as int + 1, data, *end, size as nat, block);
                            first_refusal_stays(
                                answers@,
                                n as int + 1,
                                write_count(data, *end, size as nat, block),
                            );
                        }
                        return DrainRun { writes, outcome: Err(e) };
                    }
                },
                DrainStep::Failed(e) => {
                    proof {
                        vstd::arithmetic::div_mod::lemma_fundamental_div_mod_converse(
                            size as int,
                            block as int,
                            n as int,
                            size - n * block,
                        );
                        vstd::arithmetic::div_mod::lemma_fundamental_div_mod(
                            data.len() as int,
                            block as int,
                        );
                        vstd::arithmetic::div_mod::lemma_mod_bound(
                            data.len() as int,
                            block as int,
                        );
                        let q = data.len() as int / block as int;
                        assert(q * block == block * q) by (nonlinear_arith);
                        assert(block * n == n * block) by (nonlinear_arith);
                        if q < n + 1 {
                            assert(q * block <= n * block) by (nonlinear_arith)
                                requires
                                    q <= n,
                                    block >= 0,
                            ;
                            assert(false);
                        }
                        assert(q * block >= (n + 1) * block) by (nonlinear_arith)
                            requires
                                q >= n + 1,
                                block >= 0,
                        ;
                    }
                    return DrainRun { writes, outcome: Err(e) };
                },
            }
        }
        i = i + 1;
    }
    assert(chunks@.take(chunks@.len() as int) == chunks@);
    let ghost n = writes@.len();
    let ghost rest = drain@.buf.len();
    proof {
        vstd::arithmetic::div_mod::lemma_fundamental_div_mod_converse(
            data.len() as int,
            block as int,
            n as int,
            rest as int,
        );
    }
    if let StreamEnd::Fault(f) = end {
        return DrainRun { writes, outcome: Err(range_err_to_piece(f)) };
    }
    proof {
        if data.len() > size {
            vstd::arithmetic::div_mod::lemma_fundamental_div_mod_converse(
                size as int,
                block as int,
                n as int,
                size - n * block,
            );
        }
        if rest == 0 {
            vstd::arithmetic::div_mod::lemma_fundamental_div_mod_converse(
                data.len() + block - 1,
                block as int,
                n as int,
                block - 1,
            );
        } else {
            assert((n + 1) * block == n * block + block) by (nonlinear_arith);
            vstd::arithmetic::div_mod::lemma_fundamental_div_mod_converse(
                data.len() + block - 1,
                block as int,
                n as int + 1,
                rest - 1,
            );
        }
    }
    match drain.finish() {
        DrainEnd::Failed(e) => DrainRun { writes, outcome: Err(e) },
        DrainEnd::Done => DrainRun { writes, outcome: Ok(()) },
        DrainEnd::Write(w) => {
            assert((n + 1) * block == n * block + block) by (nonlinear_arith);
            assert(is_block_write(w, data, block, n as int));
            let answer: Result<(), Error> = answer_to(answers, writes.len());
            writes.push(w);
            if let Err(e) = drain.answered(&answer) {
                return DrainRun { writes, outcome: Err(e) };
            }
            match drain.finish() {
                DrainEnd::Failed(e) => DrainRun { writes, outcome: Err(e) },
                DrainEnd::Done => DrainRun { writes, outcome: Ok(()) },
                DrainEnd::Write(_) => DrainRun { writes, outcome: Ok(()) },
            }
        },
    }
}

/// `content` with `bytes` written over it from position `offset` on.
pub open spec fn overwritten(content: Seq<u8>, offset: int, bytes: Seq<u8>) -> Seq<u8> {
    content.take(offset) + bytes + content.skip(offset + bytes.len())
}

/// `content` after all the writes have been made in order.
pub open spec fn stored(content: Seq<u8>, writes: Seq<PieceWrite>) -> Seq<u8>
    decreases writes.len(),
{
    if writes.len() == 0 {
        content
    } else {
        overwritten(
            stored(content, writes.drop_last()),
            writes.last().offset as int,
            writes.last().bytes@,
        )
    }
}

/// The writes of blocks of `data` put `data` at the start of the piece, as far as they go,
/// and leave the rest of it alone.
pub proof fn block_writes_store_data(
    content: Seq<u8>,
    data: Seq<u8>,
    block: nat,
    writes: Seq<PieceWrite>,
)
    requires
        block > 0,
        data.len() <= content.len(),
        forall|k: int|
            0 <= k < writes.len() ==> is_block_write(#[trigger] writes[k], data, block, k),
    ensures
        ({
            let upto = if writes.len() * block < data.len() {
                (writes.len() * block) as int
            } else {
                data.len() as int
            };
            stored(content, writes) == data.take(upto) + content.skip(upto)
        }),
    decreases writes.len(),
{
    if writes.len() == 0 {
        assert(0 * block == 0) by (nonlinear_arith);
        assert(stored(content, writes) =~= data.take(0) + content.skip(0));
    } else {
        let n = writes.len() - 1;
        let rest = writes.drop_last();
        assert forall|k: int| 0 <= k < rest.len() implies is_block_write(
            #[trigger] rest[k],
            data,
            block,
            k,
        ) by {
            assert(rest[k] == writes[k]);
        }
        block_writes_store_data(content, data, block, rest);
        assert(is_block_write(writes[n], data, block, n));
        assert((n + 1) * block == n * block + block) by (nonlinear_arith);
        let upto = if (n + 1) * block < data.len() {
            (n + 1) * block
        } else {
            data.len() as int
        };
        assert(stored(content, writes) =~= data.take(upto) + content.skip(upto));
    }
}

/// A piece that was drained to the end holds exactly the bytes of the response, whatever it
/// held before and however the response was cut into chunks.
pub proof fn drained_piece_holds_the_response(
    content: Seq<u8>,
    data: Seq<u8>,
    block: nat,
    writes: Seq<PieceWrite>,
)
    requires
        block > 0,
        content.len() == data.len(),
        writes.len() == write_count(data, StreamEnd::Eof, data.len(), block),
        forall|k: int|
            0 <= k < writes.len() ==> is_block_write(#[trigger] writes[k], data, block, k),
    ensures
        stored(content, writes) == data,
{
    block_writes_store_data(content, data, block, writes);
    let len = data.len() as int;
    let b = block as int;
    vstd::arithmetic::div_mod::lemma_fundamental_div_mod(len + b - 1, b);
    vstd::arithmetic::div_mod::lemma_mod_bound(len + b - 1, b);
    let q = (len + b - 1) / b;
    assert(b * q == q * b) by (nonlinear_arith);
    assert(q * b >= len);
    assert(stored(content, writes) =~= data);
}

/// How a response was cut into chunks makes no difference to the writes.
pub proof fn chunking_makes_no_difference(
    data: Seq<u8>,
    block: nat,
    some: Seq<PieceWrite>,
    others: Seq<PieceWrite>,
)
    requires
        some.len() == others.len(),
        forall|k: int| 0 <= k < some.len() ==> is_block_write(#[trigger] some[k], data, block, k),
        forall|k: int|
            0 <= k < others.len() ==> is_block_write(#[trigger] others[k], data, block, k),
    ensures
        forall|k: int|
            0 <= k < some.len() ==> (#[trigger] some[k]).offset == others[k].offset
                && some[k].bytes@ == others[k].bytes@,
{
    assert forall|k: int| 0 <= k < some.len() implies (#[trigger] some[k]).offset
        == others[k].offset && some[k].bytes@ == others[k].bytes@ by {
        assert(is_block_write(some[k], data, block, k));
        assert(is_block_write(others[k], data, block, k));
    }
}

/// The bytes of a response are those of its chunks, none left out and in their order.
pub proof fn response_is_its_chunks(chunks: Seq<Vec<u8>>, more: Vec<u8>)
    ensures
        joined(Seq::<Vec<u8>>::empty()).len() == 0,
        joined(chunks.push(more)) == joined(chunks) + more@,
{
    assert(chunks.push(more).drop_last() =~= chunks);
}

/// Writing over content changes the bytes from the offset on, as many as are written, and no
/// other.
pub proof fn overwriting_changes_only_its_place(content: Seq<u8>, offset: int, bytes: Seq<u8>, i: int)
    requires
        0 <= offset,
        offset + bytes.len() <= content.len(),
        0 <= i < content.len(),
    ensures
        overwritten(content, offset, bytes).len() == content.len(),
        offset <= i < offset + bytes.len() ==> overwritten(content, offset, bytes)[i]
            == bytes[i - offset],
        !(offset <= i < offset + bytes.len()) ==> overwritten(content, offset, bytes)[i]
            == content[i],
{
}

} // verus!

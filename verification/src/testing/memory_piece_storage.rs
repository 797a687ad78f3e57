//! The pieces of one download, in memory.

use std::collections::{HashMap, HashSet};
use vstd::prelude::*;
use crate::domain::id::FileId;
use crate::domain::spec::FileSpec;
use crate::error::Error;
use crate::ports::http::RangeGuard;
use crate::ports::prepared::{PreparedDownload, PreparedMode};
use crate::service::engine::drain::overwritten;
use crate::service::engine::inputs::clone_guard;
use crate::text::{concat2, decimal, decimal_text};

verus! {

broadcast use vstd::std_specs::hash::group_hash_axioms;

/// The pieces of one download. A piece is `piece_size` bytes of zeros until something is
/// written to it.
pub struct MemoryPieceStorage {
    piece_count: u32,
    piece_size: usize,
    buffers: HashMap<u32, Vec<u8>>,
    committed: HashSet<u32>,
    finalized: bool,
    aborted: bool,
}

/// What a storage holds, for comparisons.
#[derive(Debug, Clone, PartialEq, Eq)]
pub struct MemoryPieceStorageSnapshot {
    pub piece_count: u32,
    /// The committed pieces in ascending order.
    pub committed: Vec<u32>,
    pub finalized: bool,
    pub aborted: bool,
}

/// A storage as seen from outside.
#[verifier::ext_equal]
pub struct StorageModel {
    pub piece_count: u32,
    pub piece_size: nat,
    /// The pieces that something was written to.
    pub buffers: Map<u32, Seq<u8>>,
    pub committed: Set<u32>,
    pub finalized: bool,
    pub aborted: bool,
}

/// The pieces below `n` that pass a test, in ascending order.
pub open spec fn pieces_below(n: int, keep: spec_fn(u32) -> bool) -> Seq<u32>
    decreases n,
{
    if n <= 0 {
        Seq::empty()
    } else if keep((n - 1) as u32) {
        pieces_below(n - 1, keep).push((n - 1) as u32)
    } else {
        pieces_below(n - 1, keep)
    }
}

/// The numbers as a list in square brackets.
pub open spec fn list_text(v: Seq<u32>) -> Seq<char> {
    "["@ + items_text(v) + "]"@
}

/// The numbers with commas between them.
pub open spec fn items_text(v: Seq<u32>) -> Seq<char>
    decreases v.len(),
{
    if v.len() == 0 {
        Seq::empty()
    } else if v.len() == 1 {
        decimal(v[0] as nat)
    } else {
        items_text(v.drop_last()) + ", "@ + decimal(v.last() as nat)
    }
}

impl StorageModel {
    /// Whether every piece that was written to has its size and is one of the storage's
    /// pieces, as is every committed one.
    pub open spec fn wf(self) -> bool {
        &&& self.piece_size <= usize::MAX
        &&& forall|k: u32| #[trigger]
            self.buffers.contains_key(k) ==> k < self.piece_count && self.buffers[k].len()
                == self.piece_size
        &&& forall|k: u32| #[trigger] self.committed.contains(k) ==> k < self.piece_count
    }

    /// The pieces that are not committed, in ascending order.
    pub open spec fn pending(self) -> Seq<u32> {
        pieces_below(self.piece_count as int, |k: u32| !self.committed.contains(k))
    }

    /// The content of a piece.
    pub open spec fn content(self, piece: u32) -> Seq<u8> {
        if self.buffers.contains_key(piece) {
            self.buffers[piece]
        } else {
            Seq::new(self.piece_size, |i: int| 0u8)
        }
    }

    /// The storage with the content of a piece replaced.
    pub open spec fn with_content(self, piece: u32, content: Seq<u8>) -> StorageModel {
        StorageModel { buffers: self.buffers.insert(piece, content), ..self }
    }

    /// Whether writing `bytes` to a piece from `offset` on leads to `r` and to `next`. A write
    /// that is refused for its length has touched the piece.
    pub open spec fn is_write(
        self,
        piece: u32,
        offset: int,
        bytes: Seq<u8>,
        r: Result<(), Error>,
        next: StorageModel,
    ) -> bool {
        let end = offset + bytes.len();
        if self.finalized {
            next == self && refuses(r, "write after finalize"@)
        } else if self.aborted {
            next == self && refuses(r, "write after abort"@)
        } else if piece >= self.piece_count {
            next == self && refuses(
                r,
                "piece_index "@ + decimal(piece as nat) + " out of range (count = "@ + decimal(
                    self.piece_count as nat,
                ) + ")"@,
            )
        } else if end > self.piece_size {
            next == self.with_content(piece, self.content(piece)) && refuses(
                r,
                "write past piece end: piece "@ + decimal(piece as nat) + ", ["@ + decimal(
                    offset as nat,
                ) + ".."@ + decimal(end as nat) + ") vs size "@ + decimal(self.piece_size),
            )
        } else {
            r is Ok && next == self.with_content(
                piece,
                overwritten(self.content(piece), offset, bytes),
            )
        }
    }

    /// Whether committing a piece leads to `r` and to `next`.
    pub open spec fn is_commit(self, piece: u32, r: Result<(), Error>, next: StorageModel) -> bool {
        if self.finalized || self.aborted {
            next == self && refuses(r, "commit after finalize/abort"@)
        } else if piece >= self.piece_count {
            next == self && refuses(
                r,
                "commit: piece_index "@ + decimal(piece as nat) + " out of range (count = "@
                    + decimal(self.piece_count as nat) + ")"@,
            )
        } else {
            r is Ok && next == StorageModel { committed: self.committed.insert(piece), ..self }
        }
    }

    /// Whether finishing the file leads to `r` and to `next`.
    pub open spec fn is_finalize(self, r: Result<(), Error>, next: StorageModel) -> bool {
        if self.aborted {
            next == self && refuses(r, "finalize after abort"@)
        } else if self.pending().len() > 0 {
            next == self && refuses(
                r,
                "finalize with pending pieces: "@ + list_text(self.pending()),
            )
        } else {
            r is Ok && next == StorageModel { finalized: true, ..self }
        }
    }

    /// The storage after everything was removed.
    pub open spec fn wiped(self) -> StorageModel {
        StorageModel {
            buffers: Map::empty(),
            committed: Set::empty(),
            aborted: true,
            ..self
        }
    }

    /// The pieces below `n` that something was written to, one after the other.
    pub open spec fn assembled(self, n: int) -> Seq<u8>
        decreases n,
    {
        if n <= 0 {
            Seq::empty()
        } else if self.buffers.contains_key((n - 1) as u32) {
            self.assembled(n - 1) + self.buffers[(n - 1) as u32]
        } else {
            self.assembled(n - 1)
        }
    }
}

proof fn with_content_wf(m: StorageModel, piece: u32, content: Seq<u8>)
    requires
        m.wf(),
        piece < m.piece_count,
        content.len() == m.piece_size,
    ensures
        m.with_content(piece, content).wf(),
{
    let next = m.with_content(piece, content);
    assert forall|k: u32| #[trigger] next.buffers.contains_key(k) implies k < next.piece_count
        && next.buffers[k].len() == next.piece_size by {
        if k != piece {
            assert(m.buffers.contains_key(k));
        }
    }
}

/// Whether `r` is a refusal with the text `text`.
pub open spec fn refuses(r: Result<(), Error>, text: Seq<char>) -> bool {
    r matches Err(e) && e is Other && e.text() == text
}

/// The content of a piece that nothing was written to.
fn zeros(n: usize) -> (v: Vec<u8>)
    ensures
        v@ == Seq::new(n as nat, |i: int| 0u8),
{
    let mut v: Vec<u8> = Vec::new();
    let mut i: usize = 0;
    while i < n
        invariant
            i <= n,
            v@ == Seq::new(i as nat, |j: int| 0u8),
        decreases n - i,
    {
        v.push(0);
        i = i + 1;
        assert(v@ =~= Seq::new(i as nat, |j: int| 0u8));
    }
    v
}

/// Writes `bytes` over a buffer from `start` on.
fn copy_over(buf: &mut Vec<u8>, start: usize, bytes: &[u8])
    requires
        start + bytes@.len() <= old(buf)@.len(),
    ensures
        final(buf)@ == overwritten(old(buf)@, start as int, bytes@),
{
    let ghost before = buf@;
    let total: usize = buf.len();
    let mut i: usize = 0;
    while i < bytes.len()
        invariant
            i <= bytes@.len(),
            start + bytes@.len() <= total,
            total == before.len(),
            buf@.len() == before.len(),
            buf@ == overwritten(before, start as int, bytes@.take(i as int)),
        decreases bytes@.len() - i,
    {
        buf.set(start + i, bytes[i]);
        i = i + 1;
        assert(buf@ =~= overwritten(before, start as int, bytes@.take(i as int)));
    }
    assert(bytes@.take(bytes@.len() as int) =~= bytes@);
}

/// The text of a piece's number that is out of range, behind `head`.
fn out_of_range(head: &str, piece: u32, count: u32) -> (s: String)
    ensures
        s@ == head@ + decimal(piece as nat) + " out of range (count = "@ + decimal(count as nat)
            + ")"@,
{
    let a: String = concat2(head, decimal_text(piece as u64).as_str());
    let b: String = concat2(a.as_str(), " out of range (count = ");
    let c: String = concat2(b.as_str(), decimal_text(count as u64).as_str());
    concat2(c.as_str(), ")")
}

/// The numbers as a list in square brackets.
fn list_of(v: &Vec<u32>) -> (s: String)
    ensures
        s@ == list_text(v@),
{
    let mut items: String = String::new();
    let mut i: usize = 0;
    while i < v.len()
        invariant
            i <= v@.len(),
            items@ == items_text(v@.take(i as int)),
        decreases v@.len() - i,
    {
        let n: String = decimal_text(v[i] as u64);
        assert(v@.take(i + 1).drop_last() =~= v@.take(i as int));
        if i == 0 {
            items = n;
        } else {
            items = concat2(concat2(items.as_str(), ", ").as_str(), n.as_str());
        }
        i = i + 1;
    }
    assert(v@.take(v@.len() as int) =~= v@);
    concat2(concat2("[", items.as_str()).as_str(), "]")
}

impl MemoryPieceStorage {
    /// The storage as seen from outside.
    pub closed spec fn view(&self) -> StorageModel {
        StorageModel {
            piece_count: self.piece_count,
            piece_size: self.piece_size as nat,
            buffers: self.buffers@.map_values(|v: Vec<u8>| v@),
            committed: self.committed@,
            finalized: self.finalized,
            aborted: self.aborted,
        }
    }

    /// A storage for `piece_count` pieces of `piece_size` bytes.
    pub fn new(piece_count: u32, piece_size: u64) -> (s: MemoryPieceStorage)
        requires
            piece_size <= usize::MAX,
        ensures
            s@ == (StorageModel {
                piece_count,
                piece_size: piece_size as nat,
                buffers: Map::empty(),
                committed: Set::empty(),
                finalized: false,
                aborted: false,
            }),
            s@.wf(),
    {
        let s = MemoryPieceStorage {
            piece_count,
            piece_size: piece_size as usize,
            buffers: HashMap::new(),
            committed: HashSet::new(),
            finalized: false,
            aborted: false,
        };
        assert(s@.buffers =~= Map::<u32, Seq<u8>>::empty());
        s
    }

    /// Writes bytes to a piece. They do not count as stored until the piece is committed.
    pub fn write_piece_bytes(&mut self, piece_index: u32, offset_in_piece: u64, bytes: &[u8]) -> (r:
        Result<(), Error>)
        requires
            old(self)@.wf(),
            offset_in_piece + bytes@.len() <= usize::MAX,
        ensures
            old(self)@.is_write(piece_index, offset_in_piece as int, bytes@, r, final(self)@),
            final(self)@.wf(),
    {
        if self.finalized {
            return Err(Error::Other("write after finalize".to_owned()));
        }
        if self.aborted {
            return Err(Error::Other("write after abort".to_owned()));
        }
        if piece_index >= self.piece_count {
            return Err(Error::Other(out_of_range("piece_index ", piece_index, self.piece_count)));
        }
        let ghost before = self@;
        let taken: Option<Vec<u8>> = self.buffers.remove(&piece_index);
        let mut buf: Vec<u8> = match taken {
            Some(b) => b,
            None => zeros(self.piece_size),
        };
        assert(buf@ == before.content(piece_index));
        let start: usize = offset_in_piece as usize;
        let end: usize = start + bytes.len();
        if end > self.piece_size {
            let size: usize = self.piece_size;
            let ghost content = buf@;
            self.buffers.insert(piece_index, buf);
            proof {
                assert(self@ =~= before.with_content(piece_index, content));
                with_content_wf(before, piece_index, content);
            }
            let a: String = concat2(
                "write past piece end: piece ",
                decimal_text(piece_index as u64).as_str(),
            );
            let b: String = concat2(a.as_str(), ", [");
            let c: String = concat2(b.as_str(), decimal_text(offset_in_piece).as_str());
            let d: String = concat2(c.as_str(), "..");
            let e: String = concat2(d.as_str(), decimal_text(end as u64).as_str());
            let f: String = concat2(e.as_str(), ") vs size ");
            let g: String = concat2(f.as_str(), decimal_text(size as u64).as_str());
            return Err(Error::Other(g));
        }
        copy_over(&mut buf, start, bytes);
        let ghost content = buf@;
        self.buffers.insert(piece_index, buf);
        proof {
            assert(self@ =~= before.with_content(piece_index, content));
            with_content_wf(before, piece_index, content);
        }
        Ok(())
    }

    /// Marks a piece as complete and stored.
    pub fn commit_done(&mut self, piece_index: u32) -> (r: Result<(), Error>)
        requires
            old(self)@.wf(),
        ensures
            old(self)@.is_commit(piece_index, r, final(self)@),
            final(self)@.wf(),
    {
        if self.finalized || self.aborted {
            return Err(Error::Other("commit after finalize/abort".to_owned()));
        }
        if piece_index >= self.piece_count {
            return Err(
                Error::Other(out_of_range("commit: piece_index ", piece_index, self.piece_count)),
            );
        }
        self.committed.insert(piece_index);
        Ok(())
    }

    /// The pieces below the count for which being committed equals `wanted`.
    fn pieces_by_commit(&self, wanted: bool) -> (v: Vec<u32>)
        ensures
            v@ == pieces_below(
                self@.piece_count as int,
                |k: u32| self@.committed.contains(k) == wanted,
            ),
    {
        let mut v: Vec<u32> = Vec::new();
        let mut i: u32 = 0;
        while i < self.piece_count
            invariant
                i <= self.piece_count,
                v@ == pieces_below(i as int, |k: u32| self@.committed.contains(k) == wanted),
            decreases self.piece_count - i,
        {
            if self.committed.contains(&i) == wanted {
                v.push(i);
            }
            i = i + 1;
        }
        v
    }

    /// The pieces that are not committed, in ascending order.
    pub fn pending_pieces(&self) -> (r: Result<Vec<u32>, Error>)
        ensures
            r matches Ok(v) && v@ == self@.pending(),
    {
        let v: Vec<u32> = self.pieces_by_commit(false);
        proof {
            pieces_below_same(
                self@.piece_count as int,
                |k: u32| self@.committed.contains(k) == false,
                |k: u32| !self@.committed.contains(k),
            );
        }
        Ok(v)
    }

    /// Finishes the file, if every piece is committed.
    pub fn finalize(&mut self) -> (r: Result<(), Error>)
        ensures
            old(self)@.is_finalize(r, final(self)@),
    {
        if self.aborted {
            return Err(Error::Other("finalize after abort".to_owned()));
        }
        let missing: Vec<u32> = self.pieces_by_commit(false);
        proof {
            pieces_below_same(
                self@.piece_count as int,
                |k: u32| self@.committed.contains(k) == false,
                |k: u32| !self@.committed.contains(k),
            );
        }
        if missing.len() > 0 {
            let text: String = list_of(&missing);
            return Err(Error::Other(concat2("finalize with pending pieces: ", text.as_str())));
        }
        self.finalized = true;
        Ok(())
    }

    /// Removes everything.
    pub fn abort(&mut self) -> (r: Result<(), Error>)
        ensures
            r is Ok,
            final(self)@ == old(self)@.wiped(),
    {
        self.buffers.clear();
        self.committed.clear();
        self.aborted = true;
        assert(self@.buffers =~= Map::<u32, Seq<u8>>::empty());
        Ok(())
    }

    /// The pieces that something was written to, one after the other.
    pub fn assembled_bytes(&self) -> (v: Vec<u8>)
        ensures
            v@ == self@.assembled(self@.piece_count as int),
    {
        let mut v: Vec<u8> = Vec::new();
        let mut i: u32 = 0;
        while i < self.piece_count
            invariant
                i <= self.piece_count,
                v@ == self@.assembled(i as int),
            decreases self.piece_count - i,
        {
            if let Some(buf) = self.buffers.get(&i) {
                let ghost before = v@;
                let mut j: usize = 0;
                while j < buf.len()
                    invariant
                        j <= buf@.len(),
                        v@ == before + buf@.take(j as int),
                    decreases buf@.len() - j,
                {
                    v.push(buf[j]);
                    j = j + 1;
                    assert(v@ =~= before + buf@.take(j as int));
                }
                assert(buf@.take(buf@.len() as int) =~= buf@);
            }
            i = i + 1;
        }
        v
    }

    /// What the storage holds, for comparisons.
    pub fn snapshot(&self) -> (s: MemoryPieceStorageSnapshot)
        ensures
            s.piece_count == self@.piece_count,
            s.finalized == self@.finalized,
            s.aborted == self@.aborted,
            s.committed@ == pieces_below(
                self@.piece_count as int,
                |k: u32| self@.committed.contains(k),
            ),
    {
        let committed: Vec<u32> = self.pieces_by_commit(true);
        proof {
            pieces_below_same(
                self@.piece_count as int,
                |k: u32| self@.committed.contains(k) == true,
                |k: u32| self@.committed.contains(k),
            );
        }
        MemoryPieceStorageSnapshot {
            piece_count: self.piece_count,
            committed,
            finalized: self.finalized,
            aborted: self.aborted,
        }
    }
}

proof fn pieces_below_same(n: int, one: spec_fn(u32) -> bool, two: spec_fn(u32) -> bool)
    requires
        forall|k: u32| #[trigger] one(k) == two(k),
    ensures
        pieces_below(n, one) == pieces_below(n, two),
    decreases n,
{
    if n > 0 {
        pieces_below_same(n - 1, one, two);
        assert(one((n - 1) as u32) == two((n - 1) as u32));
    }
}

/// The pieces below `n` that pass a test are listed each once, in ascending order, and no
/// others.
pub proof fn pieces_below_lists_them(n: int, keep: spec_fn(u32) -> bool, k: u32)
    requires
        0 <= n <= 0x1_0000_0000,
    ensures
        pieces_below(n, keep).contains(k) <==> k < n && keep(k),
        forall|i: int, j: int|
            #![trigger pieces_below(n, keep)[i], pieces_below(n, keep)[j]]
            0 <= i < j < pieces_below(n, keep).len() ==> pieces_below(n, keep)[i] < pieces_below(
                n,
                keep,
            )[j],
        forall|i: int|
            0 <= i < pieces_below(n, keep).len() ==> #[trigger] pieces_below(n, keep)[i] < n,
    decreases n,
{
    if n > 0 {
        let rest = pieces_below(n - 1, keep);
        let all = pieces_below(n, keep);
        pieces_below_lists_them(n - 1, keep, k);
        if all.contains(k) {
            let i = choose|i: int| 0 <= i < all.len() && all[i] == k;
            if i < rest.len() {
                assert(rest[i] == k);
            }
        }
        if rest.contains(k) {
            let i = choose|i: int| 0 <= i < rest.len() && rest[i] == k;
            assert(all[i] == k);
        }
        if keep((n - 1) as u32) {
            assert(all[rest.len() as int] == (n - 1) as u32);
        }
    }
}

/// What was written to a piece is what the piece holds there, and nothing else changes.
pub proof fn write_is_read_back(
    m: StorageModel,
    piece: u32,
    offset: int,
    bytes: Seq<u8>,
    r: Result<(), Error>,
    next: StorageModel,
    other: u32,
)
    requires
        m.wf(),
        0 <= offset,
        m.is_write(piece, offset, bytes, r, next),
        r is Ok,
    ensures
        next.content(piece).subrange(offset, offset + bytes.len()) == bytes,
        forall|i: int|
            0 <= i < m.piece_size && !(offset <= i < offset + bytes.len())
                ==> #[trigger] next.content(piece)[i] == m.content(piece)[i],
        other != piece ==> next.content(other) == m.content(other),
        next.committed == m.committed,
{
    assert(next.content(piece).subrange(offset, offset + bytes.len()) =~= bytes);
}

/// A committed piece is no longer pending, and the other pieces are pending as before.
pub proof fn committed_piece_is_not_pending(
    m: StorageModel,
    piece: u32,
    r: Result<(), Error>,
    next: StorageModel,
    other: u32,
)
    requires
        m.is_commit(piece, r, next),
        r is Ok,
    ensures
        !next.pending().contains(piece),
        other != piece ==> (next.pending().contains(other) <==> m.pending().contains(other)),
        next.buffers == m.buffers,
{
    let n = m.piece_count as int;
    pieces_below_lists_them(n, |k: u32| !next.committed.contains(k), piece);
    pieces_below_lists_them(n, |k: u32| !next.committed.contains(k), other);
    pieces_below_lists_them(n, |k: u32| !m.committed.contains(k), other);
}

/// A file is finished exactly where it was not aborted and every piece is committed.
pub proof fn finalize_needs_every_piece(m: StorageModel, r: Result<(), Error>, next: StorageModel)
    requires
        m.is_finalize(r, next),
    ensures
        r is Ok <==> !m.aborted && (forall|k: u32|
            k < m.piece_count ==> #[trigger] m.committed.contains(k)),
{
    let n = m.piece_count as int;
    let keep = |k: u32| !m.committed.contains(k);
    if m.pending().len() > 0 {
        let k = m.pending()[0];
        pieces_below_lists_them(n, keep, k);
        assert(m.pending().contains(k));
        assert(!m.committed.contains(k));
    } else {
        assert forall|k: u32| k < m.piece_count implies #[trigger] m.committed.contains(k) by {
            pieces_below_lists_them(n, keep, k);
            if !m.committed.contains(k) {
                assert(m.pending().contains(k));
            }
        }
    }
}

/// An aborted storage holds nothing, and takes neither writes nor commits nor a finish.
pub proof fn abort_is_final(
    m: StorageModel,
    piece: u32,
    offset: int,
    bytes: Seq<u8>,
    r: Result<(), Error>,
    next: StorageModel,
)
    requires
        ({
            ||| m.wiped().is_write(piece, offset, bytes, r, next)
            ||| m.wiped().is_commit(piece, r, next)
            ||| m.wiped().is_finalize(r, next)
        }),
    ensures
        r is Err,
        next == m.wiped(),
        m.wiped().assembled(m.piece_count as int).len() == 0,
{
    nothing_assembled(m.wiped(), m.piece_count as int);
}

proof fn nothing_assembled(m: StorageModel, n: int)
    requires
        m.buffers == Map::<u32, Seq<u8>>::empty(),
    ensures
        m.assembled(n).len() == 0,
    decreases n,
{
    if n > 0 {
        nothing_assembled(m, n - 1);
    }
}

/// Makes storages of one fixed layout.
pub struct MemoryPieceStorageFactory {
    pub piece_count: u32,
    pub piece_size: u64,
    pub accepts_ranges: bool,
    pub guard: Option<RangeGuard>,
}

impl MemoryPieceStorageFactory {
    /// A factory for a source that takes ranges and has no guard.
    pub fn new(piece_count: u32, piece_size: u64) -> (f: MemoryPieceStorageFactory)
        ensures
            f == (MemoryPieceStorageFactory {
                piece_count,
                piece_size,
                accepts_ranges: true,
                guard: None,
            }),
    {
        MemoryPieceStorageFactory { piece_count, piece_size, accepts_ranges: true, guard: None }
    }

    /// The same factory for a source that takes ranges or does not.
    pub fn with_accepts_ranges(self, accepts_ranges: bool) -> (f: MemoryPieceStorageFactory)
        ensures
            f == (MemoryPieceStorageFactory { accepts_ranges, ..self }),
    {
        MemoryPieceStorageFactory { accepts_ranges, ..self }
    }

    /// The same factory for a source with another guard.
    pub fn with_guard(self, guard: Option<RangeGuard>) -> (f: MemoryPieceStorageFactory)
        ensures
            f == (MemoryPieceStorageFactory { guard, ..self }),
    {
        MemoryPieceStorageFactory { guard, ..self }
    }

    /// Prepares a download: a fresh storage, and the name that the client chose or
    /// `memory.bin`.
    pub fn prepare(&self, _id: FileId, spec: &FileSpec) -> (r: Result<
        PreparedDownload<MemoryPieceStorage, ()>,
        Error,
    >)
        requires
            self.piece_count * self.piece_size <= u64::MAX,
            self.piece_size <= usize::MAX,
        ensures
            r matches Ok(p) && {
                &&& p.mode == (PreparedMode::Known {
                    total_size: (self.piece_count * self.piece_size) as u64,
                    piece_size: self.piece_size,
                    accepts_ranges: self.accepts_ranges,
                    guard: self.guard,
                })
                &&& p.piece_storage matches Some(s) && s@.wf() && s@ == (StorageModel {
                    piece_count: self.piece_count,
                    piece_size: self.piece_size as nat,
                    buffers: Map::empty(),
                    committed: Set::empty(),
                    finalized: false,
                    aborted: false,
                })
                &&& p.stream_storage is None
                &&& p.effective_url is None
                &&& match spec.filename {
                    Some(name) => p.resolved_filename == name,
                    None => p.resolved_filename@ == "memory.bin"@,
                }
            },
    {
        let total_size: u64 = self.piece_count as u64 * self.piece_size;
        let resolved_filename: String = match &spec.filename {
            Some(name) => name.clone(),
            None => "memory.bin".to_owned(),
        };
        Ok(
            PreparedDownload {
                mode: PreparedMode::Known {
                    total_size,
                    piece_size: self.piece_size,
                    accepts_ranges: self.accepts_ranges,
                    guard: clone_guard(&self.guard),
                },
                piece_storage: Some(MemoryPieceStorage::new(self.piece_count, self.piece_size)),
                stream_storage: None,
                resolved_filename,
                effective_url: None,
            },
        )
    }
}

/// A write goes well exactly where the storage is neither finished nor aborted, the piece is one
/// of its own and the bytes fit into it; a commit, where the first two hold. What is refused
/// changes neither what is committed nor what a piece holds.
pub proof fn storage_refuses_what_does_not_fit(
    m: StorageModel,
    piece: u32,
    offset: int,
    bytes: Seq<u8>,
    r: Result<(), Error>,
    next: StorageModel,
    other: u32,
)
    ensures
        m.is_write(piece, offset, bytes, r, next) ==> {
            &&& r is Ok <==> !m.finalized && !m.aborted && piece < m.piece_count && offset
                + bytes.len() <= m.piece_size
            &&& r is Err ==> next.content(other) == m.content(other)
            &&& next.committed == m.committed
            &&& next.finalized == m.finalized
            &&& next.aborted == m.aborted
            &&& next.piece_count == m.piece_count
            &&& next.piece_size == m.piece_size
        },
        m.is_commit(piece, r, next) ==> {
            &&& r is Ok <==> !m.finalized && !m.aborted && piece < m.piece_count
            &&& r is Err ==> next == m
            &&& r is Ok ==> (next.committed.contains(other) <==> m.committed.contains(other)
                || other == piece)
            &&& next.buffers == m.buffers
            &&& next.finalized == m.finalized
            &&& next.aborted == m.aborted
        },
        m.is_finalize(r, next) ==> {
            &&& r is Ok ==> next.finalized
            &&& r is Err ==> next == m
            &&& next.buffers == m.buffers
            &&& next.committed == m.committed
            &&& next.aborted == m.aborted
        },
        r is Err ==> (m.is_write(piece, offset, bytes, r, next) || m.is_commit(piece, r, next)
            || m.is_finalize(r, next) ==> (r matches Err(e) && e is Other)),
{
}

/// An untouched piece holds zeros; one that was written to holds what its buffer holds.
pub proof fn untouched_pieces_are_zero(m: StorageModel, piece: u32, i: int)
    requires
        0 <= i < m.piece_size,
    ensures
        !m.buffers.contains_key(piece) ==> m.content(piece).len() == m.piece_size
            && m.content(piece)[i] == 0,
        m.buffers.contains_key(piece) ==> m.content(piece) == m.buffers[piece],
{
}

/// The pending pieces are exactly those of the storage that are not committed.
pub proof fn pending_pieces_are_uncommitted(m: StorageModel, k: u32)
    ensures
        m.pending().contains(k) <==> k < m.piece_count && !m.committed.contains(k),
{
    pieces_below_lists_them(m.piece_count as int, |x: u32| !m.committed.contains(x), k);
}

/// Where every piece was written to, the assembled file is the pieces one after the other: each
/// byte of it is the byte of the piece that it lies in.
pub proof fn assembled_file_is_the_pieces(m: StorageModel, n: int, k: int, i: int)
    requires
        m.wf(),
        0 <= k < n <= m.piece_count,
        0 <= i < m.piece_size,
        forall|p: u32| p < n ==> #[trigger] m.buffers.contains_key(p),
    ensures
        m.assembled(n).len() == n * m.piece_size,
        0 <= k * m.piece_size + i < m.assembled(n).len(),
        m.assembled(n)[k * m.piece_size + i] == m.content(k as u32)[i],
    decreases n,
{
    let size = m.piece_size as int;
    assembled_has_its_length(m, n);
    assembled_has_its_length(m, n - 1);
    assert(m.buffers.contains_key((n - 1) as u32));
    assert(0 <= k * size && k * size + size <= n * size) by (nonlinear_arith)
        requires
            0 <= k < n,
            0 <= size,
    ;
    if k < n - 1 {
        assert(k * size + size <= (n - 1) * size) by (nonlinear_arith)
            requires
                0 <= k < n - 1,
                0 <= size,
        ;
        assembled_file_is_the_pieces(m, n - 1, k, i);
    }
}

proof fn assembled_has_its_length(m: StorageModel, n: int)
    requires
        m.wf(),
        0 <= n <= m.piece_count,
        forall|p: u32| p < n ==> #[trigger] m.buffers.contains_key(p),
    ensures
        m.assembled(n).len() == n * m.piece_size,
    decreases n,
{
    let size = m.piece_size as int;
    if n > 0 {
        assembled_has_its_length(m, n - 1);
        assert(m.buffers.contains_key((n - 1) as u32));
        assert((n - 1) * size + size == n * size) by (nonlinear_arith);
    } else {
        assert(0 * size == 0) by (nonlinear_arith);
    }
}

/// A storage that was wiped holds no piece and no commit, and is aborted.
pub proof fn wiped_storage_is_empty(m: StorageModel, k: u32)
    ensures
        m.wiped().aborted,
        !m.wiped().buffers.contains_key(k),
        !m.wiped().committed.contains(k),
        m.wiped().piece_count == m.piece_count,
        m.wiped().piece_size == m.piece_size,
        m.wiped().finalized == m.finalized,
{
}

/// Numbers are listed in square brackets with a comma and a blank between them.
pub proof fn lists_are_written_out(v: Seq<u32>, x: u32)
    ensures
        list_text(Seq::<u32>::empty()) == "["@ + "]"@,
        v.len() > 0 ==> items_text(v.push(x)) == items_text(v) + ", "@ + decimal(x as nat),
        items_text(seq![x]) == decimal(x as nat),
        list_text(v) == "["@ + items_text(v) + "]"@,
{
    assert(items_text(Seq::<u32>::empty()) =~= Seq::<char>::empty());
    assert("["@ + Seq::<char>::empty() =~= "["@);
    if v.len() > 0 {
        assert(v.push(x).drop_last() =~= v);
    }
}

} // verus!

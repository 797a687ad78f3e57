//! Errors of one piece, and how the bytes of a response become the bytes of a piece.

use vstd::prelude::*;
use crate::error::Error;
use crate::ports::http::RangeError;
use crate::text::{concat2, decimal, decimal_text};

verus! {

/// Why a piece could not be fetched and written.
#[derive(Debug, PartialEq, Eq)]
pub enum PieceError {
    /// Another attempt may succeed.
    Transient(String),
    /// Another attempt is of no use.
    Permanent(String),
}

impl PieceError {
    /// What went wrong.
    pub open spec fn text(&self) -> Seq<char> {
        match self {
            PieceError::Transient(s) => s@,
            PieceError::Permanent(s) => s@,
        }
    }

    /// Whether another attempt may succeed.
    pub fn is_transient(&self) -> (r: bool)
        ensures
            r == (self is Transient),
    {
        match self {
            PieceError::Transient(_) => true,
            PieceError::Permanent(_) => false,
        }
    }

    /// The text, without the classification.
    pub open spec fn into_text_spec(self) -> String {
        match self {
            PieceError::Transient(s) => s,
            PieceError::Permanent(s) => s,
        }
    }

    /// The text, without the classification.
    pub fn into_text(self) -> (s: String)
        ensures
            s == self.into_text_spec(),
            self matches PieceError::Transient(text) ==> s == text,
            self matches PieceError::Permanent(text) ==> s == text,
    {
        match self {
            PieceError::Transient(s) => s,
            PieceError::Permanent(s) => s,
        }
    }
}

/// An error of a piece says what it was made with, whether it may pass or not.
pub proof fn piece_errors_keep_their_text(e: PieceError, text: String)
    requires
        e == PieceError::Transient(text) || e == PieceError::Permanent(text),
    ensures
        e.text() == text@,
        e.into_text_spec() == text,
{
}

/// A refused write is trouble that does not pass, told with the words of the storage.
pub proof fn write_refusals_are_permanent(e: PieceError, cause: Error)
    ensures
        is_write_refusal(e, Err::<(), Error>(cause)) <==> (e matches PieceError::Permanent(text)
            && text@ == "write: "@ + cause.text()),
        !is_write_refusal(e, Ok::<(), Error>(())),
{
}

/// The error of a piece whose request or body failed.
pub fn range_err_to_piece(e: &RangeError) -> (r: PieceError)
    ensures
        r is Transient <==> e.transient(),
        r.text() == e.text(),
{
    if e.is_transient() {
        PieceError::Transient(e.to_string())
    } else {
        PieceError::Permanent(e.to_string())
    }
}

/// The error of a piece that the storage refused to write.
pub fn write_err_to_piece(e: &Error) -> (r: PieceError)
    ensures
        r is Permanent,
        r.text() == "write: "@ + e.text(),
{
    PieceError::Permanent(concat2("write: ", e.to_string().as_str()))
}

/// Which of the first `n` writes the storage refuses, if it answers them by `answers` in order:
/// the first one whose answer is an error. A write for which there is no answer goes well.
pub open spec fn first_refusal(answers: Seq<Result<(), Error>>, n: int) -> Option<int>
    decreases n,
{
    if n <= 0 {
        None
    } else {
        match first_refusal(answers, n - 1) {
            Some(k) => Some(k),
            None => if n - 1 < answers.len() && answers[n - 1] is Err {
                Some(n - 1)
            } else {
                None
            },
        }
    }
}

/// A write that was refused first stays the first, however many writes follow.
pub proof fn first_refusal_stays(answers: Seq<Result<(), Error>>, m: int, n: int)
    requires
        m <= n,
        first_refusal(answers, m) is Some,
    ensures
        first_refusal(answers, n) == first_refusal(answers, m),
    decreases n - m,
{
    if m < n {
        first_refusal_stays(answers, m, n - 1);
    }
}

/// The first refused write is one that was asked for and refused, and none before it was.
pub proof fn first_refusal_is_the_first(answers: Seq<Result<(), Error>>, n: int)
    ensures
        match first_refusal(answers, n) {
            Some(k) => {
                &&& 0 <= k < n
                &&& k < answers.len()
                &&& answers[k] is Err
                &&& forall|j: int| 0 <= j < k ==> (#[trigger] answers[j]) is Ok
            },
            None => forall|j: int| 0 <= j < n && j < answers.len() ==> (#[trigger] answers[j]) is Ok,
        },
    decreases n,
{
    if n > 0 {
        first_refusal_is_the_first(answers, n - 1);
    }
}

/// Whether `e` is the error of a piece whose write was refused by `answer`.
pub open spec fn is_write_refusal(e: PieceError, answer: Result<(), Error>) -> bool {
    e is Permanent && (answer matches Err(cause) && e.text() == "write: "@ + cause.text())
}

/// What the storage answers to write number `k`.
pub fn answer_to(answers: &Vec<Result<(), Error>>, k: usize) -> (r: Result<(), Error>)
    ensures
        r == (if k < answers@.len() {
            answers@[k as int]
        } else {
            Ok(())
        }),
{
    if k < answers.len() {
        match &answers[k] {
            Ok(unit) => Ok(*unit),
            Err(e) => Err(e.clone()),
        }
    } else {
        Ok(())
    }
}

/// The text of an attempt that brought too few bytes.
pub open spec fn truncated_text(written: nat, size: nat) -> Seq<char> {
    "truncated: wrote "@ + decimal(written) + " of "@ + decimal(size)
}

/// Bytes that are to be written to a piece, and where in it.
#[derive(Debug, PartialEq, Eq)]
pub struct PieceWrite {
    pub offset: u64,
    pub bytes: Vec<u8>,
}

/// What the bytes of a response lead to.
pub enum DrainStep {
    /// Everything that was given has been taken in.
    More,
    /// A full buffer is to be written; then the rest of the chunk is to be given.
    Write(PieceWrite),
    /// The response is longer than the piece, or a write was refused.
    Failed(PieceError),
}

/// What the end of a response leads to.
pub enum DrainEnd {
    /// The rest of the buffer is to be written; then the end is to be reported once more.
    Write(PieceWrite),
    /// The piece is complete.
    Done,
    /// The response was too long or too short, or a write was refused.
    Failed(PieceError),
}

/// Collects the body of a response into writes of a fixed size.
pub struct PieceDrain {
    size: u64,
    cap: usize,
    written: u64,
    buf: Vec<u8>,
    refused: Option<String>,
}

/// A drain as seen from outside.
pub struct DrainModel {
    /// The size of the piece.
    pub size: nat,
    /// The size of every write but the last.
    pub block: nat,
    /// How many bytes have been handed out for writing.
    pub written: nat,
    /// The bytes that wait for the next write.
    pub buf: Seq<u8>,
    /// Why the storage refused a write, if it did.
    pub refused: Option<Seq<char>>,
}

impl DrainModel {
    /// A drain that has handed out no more than the piece holds and keeps less than one write.
    pub open spec fn wf(self) -> bool {
        &&& self.written <= self.size <= u64::MAX
        &&& self.buf.len() < self.block
    }
}

/// Adds the bytes `from..to` of a chunk to a buffer.
fn take_bytes(buf: &mut Vec<u8>, chunk: &[u8], from: usize, to: usize)
    requires
        from <= to <= chunk@.len(),
    ensures
        final(buf)@ == old(buf)@ + chunk@.subrange(from as int, to as int),
{
    let mut i: usize = from;
    let ghost before = buf@;
    while i < to
        invariant
            from <= i <= to <= chunk@.len(),
            buf@ == before + chunk@.subrange(from as int, i as int),
        decreases to - i,
    {
        buf.push(chunk[i]);
        i = i + 1;
    }
}

impl PieceDrain {
    /// The drain as seen from outside.
    pub closed spec fn view(&self) -> DrainModel {
        DrainModel {
            size: self.size as nat,
            block: if self.cap == 0 {
                1
            } else {
                self.cap as nat
            },
            written: self.written as nat,
            buf: self.buf@,
            refused: match self.refused {
                Some(text) => Some(text@),
                None => None,
            },
        }
    }

    /// A drain for a piece of `size` bytes that writes `buf_cap` bytes at a time, but at
    /// least one.
    pub fn new(size: u64, buf_cap: usize) -> (d: PieceDrain)
        ensures
            d@ == (DrainModel {
                size: size as nat,
                block: if buf_cap == 0 {
                    1
                } else {
                    buf_cap as nat
                },
                written: 0,
                buf: Seq::empty(),
                refused: None,
            }),
            d@.wf(),
    {
        PieceDrain { size, cap: buf_cap, written: 0, buf: Vec::new(), refused: None }
    }

    /// How many bytes have been handed out for writing.
    pub fn written(&self) -> (w: u64)
        ensures
            w == self@.written,
    {
        self.written
    }

    /// Takes in what the storage answered to the write that was handed out last. Once a write
    /// was refused, none is handed out any more.
    pub fn answered(&mut self, answer: &Result<(), Error>) -> (r: Result<(), PieceError>)
        ensures
            *answer is Ok ==> r is Ok && final(self)@ == old(self)@,
            *answer is Err ==> {
                &&& r matches Err(e) && is_write_refusal(e, *answer)
                &&& final(self)@ == (DrainModel {
                    refused: Some(r->Err_0.text()),
                    ..old(self)@
                })
            },
    {
        match answer {
            Ok(_) => Ok(()),
            Err(e) => {
                let refusal: PieceError = write_err_to_piece(e);
                let text: String = refusal.into_text();
                self.refused = Some(text.clone());
                Err(PieceError::Permanent(text))
            },
        }
    }

    /// Takes in bytes of `chunk` from position `pos` on, until the buffer is full or the
    /// chunk is used up. Gives the position that it came to.
    pub fn feed(&mut self, chunk: &[u8], pos: usize) -> (r: (usize, DrainStep))
        requires
            old(self)@.wf(),
            pos <= chunk@.len(),
        ensures
            pos <= r.0 <= chunk@.len(),
            old(self)@.refused matches Some(text) ==> {
                &&& r.0 == pos
                &&& r.1 matches DrainStep::Failed(e) && e is Permanent && e.text() == text
                &&& final(self)@ == old(self)@
            },
            old(self)@.refused is None ==> ({
                let data = old(self)@.buf + chunk@.subrange(pos as int, r.0 as int);
                match r.1 {
                    DrainStep::More => {
                        &&& r.0 == chunk@.len()
                        &&& data.len() < old(self)@.block
                        &&& final(self)@ == (DrainModel { buf: data, ..old(self)@ })
                    },
                    DrainStep::Write(w) => {
                        &&& data.len() == old(self)@.block
                        &&& old(self)@.written + data.len() <= old(self)@.size
                        &&& w.offset == old(self)@.written
                        &&& w.bytes@ == data
                        &&& final(self)@ == (DrainModel {
                            written: old(self)@.written + data.len(),
                            buf: Seq::empty(),
                            ..old(self)@
                        })
                    },
                    DrainStep::Failed(e) => {
                        &&& data.len() == old(self)@.block
                        &&& old(self)@.written + data.len() > old(self)@.size
                        &&& e is Transient
                        &&& e.text() == "piece overflow"@
                    },
                }
            }),
            r.1 !is Failed ==> final(self)@.wf(),
    {
        if let Some(text) = &self.refused {
            return (pos, DrainStep::Failed(PieceError::Permanent(text.clone())));
        }
        let block: usize = if self.cap == 0 {
            1
        } else {
            self.cap
        };
        let space: usize = block - self.buf.len();
        let left: usize = chunk.len() - pos;
        let take: usize = if left < space {
            left
        } else {
            space
        };
        take_bytes(&mut self.buf, chunk, pos, pos + take);
        if self.buf.len() < block {
            return (pos + take, DrainStep::More);
        }
        if self.size - self.written < self.buf.len() as u64 {
            return (
                pos + take,
                DrainStep::Failed(PieceError::Transient("piece overflow".to_owned())),
            );
        }
        let offset: u64 = self.written;
        self.written = self.written + self.buf.len() as u64;
        let mut bytes: Vec<u8> = Vec::new();
        std::mem::swap(&mut bytes, &mut self.buf);
        (pos + take, DrainStep::Write(PieceWrite { offset, bytes }))
    }

    /// Takes note that the response has ended.
    pub fn finish(&mut self) -> (r: DrainEnd)
        requires
            old(self)@.wf(),
        ensures
            old(self)@.refused matches Some(text) ==> {
                &&& r matches DrainEnd::Failed(e) && e is Permanent && e.text() == text
                &&& final(self)@ == old(self)@
            },
            old(self)@.refused is None ==> ({
                let s = old(self)@;
                let total = s.written + s.buf.len();
                match r {
                    DrainEnd::Write(w) => {
                        &&& 0 < s.buf.len()
                        &&& total <= s.size
                        &&& w.offset == s.written
                        &&& w.bytes@ == s.buf
                        &&& final(self)@ == (DrainModel {
                            written: total,
                            buf: Seq::empty(),
                            ..s
                        })
                    },
                    DrainEnd::Done => s.buf.len() == 0 && total == s.size && final(self)@ == s,
                    DrainEnd::Failed(e) => {
                        &&& e is Transient
                        &&& if s.buf.len() > 0 {
                            total > s.size && e.text() == "piece overflow"@
                        } else {
                            total < s.size && e.text() == truncated_text(s.written, s.size)
                        }
                    },
                }
            }),
            r !is Failed ==> final(self)@.wf(),
    {
        if let Some(text) = &self.refused {
            return DrainEnd::Failed(PieceError::Permanent(text.clone()));
        }
        if self.buf.len() > 0 {
            if self.size - self.written < self.buf.len() as u64 {
                return DrainEnd::Failed(PieceError::Transient("piece overflow".to_owned()));
            }
            let offset: u64 = self.written;
            self.written = self.written + self.buf.len() as u64;
            let mut bytes: Vec<u8> = Vec::new();
            std::mem::swap(&mut bytes, &mut self.buf);
            return DrainEnd::Write(PieceWrite { offset, bytes });
        }
        if self.written != self.size {
            let head: String = concat2("truncated: wrote ", decimal_text(self.written).as_str());
            let tail: String = concat2(" of ", decimal_text(self.size).as_str());
            let text: String = concat2(head.as_str(), tail.as_str());
            assert(text@ == truncated_text(self.written as nat, self.size as nat));
            return DrainEnd::Failed(PieceError::Transient(text));
        }
        DrainEnd::Done
    }
}

/// A short response is told with what came and what was owed.
pub proof fn short_responses_tell_both_sizes(written: nat, size: nat)
    ensures
        truncated_text(written, size) == "truncated: wrote "@ + decimal(written) + " of "@
            + decimal(size),
{
}

} // verus!

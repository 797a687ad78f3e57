//! A source that serves given bytes, and fails where it is told to.

use std::time::Duration;
use vstd::prelude::*;
use crate::ports::http::RangeError;

verus! {

/// How the source answers one request.
#[derive(Debug, Clone, Copy, PartialEq, Eq, Structural)]
pub enum FetchOutcome {
    /// Serve the bytes that were asked for.
    Serve,
    /// Answer `503`, which may pass.
    Transient,
    /// Answer `401`, which does not.
    Permanent,
    /// Answer that the guard does not match.
    SourceMutated,
}

/// A source with fixed content. It answers the first requests by the outcomes that were
/// pushed, in order, and every later one by serving.
pub struct MockRangeFetch {
    bytes: Vec<u8>,
    queue: Vec<FetchOutcome>,
    calls: usize,
    delay: Option<Duration>,
}

/// The source as seen from outside.
#[verifier::ext_equal]
pub struct FetchModel {
    pub bytes: Seq<u8>,
    /// The outcomes of the next requests.
    pub queue: Seq<FetchOutcome>,
    /// How many requests were made, modulo the range of `usize`.
    pub calls: usize,
    /// How long a request takes.
    pub delay: Option<Duration>,
}

impl FetchModel {
    /// How the next request is answered.
    pub open spec fn outcome(self) -> FetchOutcome {
        if self.queue.len() == 0 {
            FetchOutcome::Serve
        } else {
            self.queue[0]
        }
    }

    /// The source after one more request.
    pub open spec fn asked(self) -> FetchModel {
        FetchModel {
            queue: if self.queue.len() == 0 {
                self.queue
            } else {
                self.queue.drop_first()
            },
            calls: if self.calls < usize::MAX {
                (self.calls + 1) as usize
            } else {
                0
            },
            ..self
        }
    }
}

/// The error of an answer that is not served.
pub open spec fn outcome_error(o: FetchOutcome) -> Option<RangeError> {
    match o {
        FetchOutcome::Serve => None,
        FetchOutcome::Transient => Some(RangeError::UnexpectedStatus { code: 503 }),
        FetchOutcome::Permanent => Some(RangeError::UnexpectedStatus { code: 401 }),
        FetchOutcome::SourceMutated => Some(RangeError::SourceMutated),
    }
}

impl MockRangeFetch {
    /// The source as seen from outside.
    pub closed spec fn view(&self) -> FetchModel {
        FetchModel {
            bytes: self.bytes@,
            queue: self.queue@,
            calls: self.calls,
            delay: self.delay,
        }
    }

    /// A source that serves every request at once.
    pub fn always_ok(bytes: Vec<u8>) -> (f: MockRangeFetch)
        ensures
            f@ == (FetchModel { bytes: bytes@, queue: Seq::empty(), calls: 0, delay: None }),
    {
        MockRangeFetch { bytes, queue: Vec::new(), calls: 0, delay: None }
    }

    /// The same source, with every request taking `delay`.
    pub fn with_delay(self, delay: Duration) -> (f: MockRangeFetch)
        ensures
            f@ == (FetchModel { delay: Some(delay), ..self@ }),
    {
        let mut f: MockRangeFetch = self;
        f.delay = Some(delay);
        f
    }

    /// How long a request takes, where that was said.
    pub fn delay(&self) -> (d: Option<Duration>)
        ensures
            d == self@.delay,
    {
        self.delay
    }

    /// Says how the next requests are answered, behind what was said before.
    pub fn push_outcomes(&mut self, outcomes: Vec<FetchOutcome>)
        ensures
            final(self)@ == (FetchModel {
                queue: old(self)@.queue + outcomes@,
                ..old(self)@
            }),
    {
        let mut outcomes: Vec<FetchOutcome> = outcomes;
        self.queue.append(&mut outcomes);
    }

    /// How many requests were made.
    pub fn calls(&self) -> (n: usize)
        ensures
            n == self@.calls,
    {
        self.calls
    }

    /// Counts a request and gives how it is answered.
    fn next_outcome(&mut self) -> (o: FetchOutcome)
        ensures
            o == old(self)@.outcome(),
            final(self)@ == old(self)@.asked(),
    {
        self.calls = if self.calls < usize::MAX {
            self.calls + 1
        } else {
            0
        };
        if self.queue.len() == 0 {
            FetchOutcome::Serve
        } else {
            let o: FetchOutcome = self.queue.remove(0);
            assert(self.queue@ =~= old(self)@.queue.drop_first());
            o
        }
    }

    /// Asks for `len` bytes from `offset` on.
    pub fn fetch_range(&mut self, offset: u64, len: u64) -> (r: Result<Vec<u8>, RangeError>)
        requires
            old(self)@.outcome() is Serve ==> offset + len <= old(self)@.bytes.len(),
        ensures
            final(self)@ == old(self)@.asked(),
            match outcome_error(old(self)@.outcome()) {
                None => r matches Ok(v) && v@ == old(self)@.bytes.subrange(
                    offset as int,
                    offset + len,
                ),
                Some(e) => r == Err::<Vec<u8>, RangeError>(e),
            },
    {
        match self.next_outcome() {
            FetchOutcome::Serve => {
                let mut v: Vec<u8> = Vec::new();
                let total: usize = self.bytes.len();
                let mut i: u64 = 0;
                while i < len
                    invariant
                        i <= len,
                        offset + len <= total,
                        total == self.bytes@.len(),
                        v@ == self.bytes@.subrange(offset as int, offset + i),
                        self@ == old(self)@.asked(),
                    decreases len - i,
                {
                    v.push(self.bytes[(offset + i) as usize]);
                    i = i + 1;
                    assert(v@ =~= self.bytes@.subrange(offset as int, offset + i));
                }
                Ok(v)
            },
            FetchOutcome::Transient => Err(RangeError::UnexpectedStatus { code: 503 }),
            FetchOutcome::Permanent => Err(RangeError::UnexpectedStatus { code: 401 }),
            FetchOutcome::SourceMutated => Err(RangeError::SourceMutated),
        }
    }

    /// Asks for everything.
    pub fn fetch_full(&mut self) -> (r: Result<Vec<u8>, RangeError>)
        ensures
            final(self)@ == old(self)@.asked(),
            match outcome_error(old(self)@.outcome()) {
                None => r matches Ok(v) && v@ == old(self)@.bytes,
                Some(e) => r == Err::<Vec<u8>, RangeError>(e),
            },
    {
        match self.next_outcome() {
            FetchOutcome::Serve => {
                let mut v: Vec<u8> = Vec::new();
                let mut i: usize = 0;
                while i < self.bytes.len()
                    invariant
                        i <= self.bytes@.len(),
                        v@ == self.bytes@.take(i as int),
                        self@ == old(self)@.asked(),
                    decreases self.bytes@.len() - i,
                {
                    v.push(self.bytes[i]);
                    i = i + 1;
                    assert(v@ =~= self.bytes@.take(i as int));
                }
                assert(v@ =~= self.bytes@);
                Ok(v)
            },
            FetchOutcome::Transient => Err(RangeError::UnexpectedStatus { code: 503 }),
            FetchOutcome::Permanent => Err(RangeError::UnexpectedStatus { code: 401 }),
            FetchOutcome::SourceMutated => Err(RangeError::SourceMutated),
        }
    }
}

/// Content by which every position can be told: byte `i` is `i` modulo 251.
pub fn sequential_bytes(total: u64) -> (v: Vec<u8>)
    ensures
        v@.len() == total,
        forall|i: int| 0 <= i < total ==> #[trigger] v@[i] == i % 251,
{
    let mut v: Vec<u8> = Vec::new();
    let mut i: u64 = 0;
    while i < total
        invariant
            i <= total,
            v@.len() == i,
            forall|j: int| 0 <= j < i ==> #[trigger] v@[j] == j % 251,
        decreases total - i,
    {
        v.push((i % 251) as u8);
        i = i + 1;
    }
    v
}

/// Requests are answered by the outcomes that were pushed, in order, and served once there are
/// none left; every request counts.
pub proof fn outcomes_come_in_order(m: FetchModel, first: FetchOutcome, rest: Seq<FetchOutcome>)
    requires
        m.queue == seq![first] + rest,
    ensures
        m.outcome() == first,
        m.asked().queue == rest,
        m.asked().bytes == m.bytes,
        m.asked().delay == m.delay,
        m.calls < usize::MAX ==> m.asked().calls == m.calls + 1,
        (FetchModel { queue: Seq::empty(), ..m }).outcome() is Serve,
        (FetchModel { queue: Seq::empty(), ..m }).asked().queue.len() == 0,
{
    assert(m.queue.drop_first() =~= rest);
}

/// A request that is not served meets an error that may pass exactly where that was said.
pub proof fn outcomes_are_what_they_say(o: FetchOutcome)
    ensures
        outcome_error(o) is None <==> o is Serve,
        o is Transient ==> outcome_error(o) == Some(RangeError::UnexpectedStatus { code: 503 }),
        o is Permanent ==> outcome_error(o) == Some(RangeError::UnexpectedStatus { code: 401 }),
        o is SourceMutated ==> outcome_error(o) == Some(RangeError::SourceMutated),
        outcome_error(o) matches Some(e) ==> (e.transient() <==> o is Transient),
{
}

} // verus!

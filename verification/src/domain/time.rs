//! Points in time.

use std::time::{SystemTime, UNIX_EPOCH};
use vstd::prelude::*;

verus! {

/// A point in time: whole seconds since the start of 1970, negative before it, and
/// the nanoseconds past that second.
#[derive(Debug, Clone, Copy, PartialEq, Eq, Structural, PartialOrd, Ord)]
pub struct Moment {
    pub secs: i64,
    pub nanos: u32,
}

impl Moment {
    /// Whether the nanoseconds stay below a whole second.
    pub open spec fn valid(self) -> bool {
        self.nanos < 1_000_000_000
    }

    /// Whether `self` is earlier than `other` or the same moment.
    pub open spec fn at_most(self, other: Moment) -> bool {
        self.secs < other.secs || (self.secs == other.secs && self.nanos <= other.nanos)
    }

    /// Whether `self` is earlier than `other` or the same moment.
    pub fn not_after(self, other: Moment) -> (r: bool)
        ensures
            r == self.at_most(other),
            self.valid() && other.valid() ==> (r <==> self.secs * 1_000_000_000 + self.nanos
                <= other.secs * 1_000_000_000 + other.nanos),
    {
        self.secs < other.secs || (self.secs == other.secs && self.nanos <= other.nanos)
    }

    /// Moments are ordered by how many nanoseconds lie between them and the start of 1970, and a
    /// moment is valid where it has less than a second of them besides its seconds.
    pub proof fn moments_are_ordered_by_nanoseconds(self, other: Moment)
        ensures
            self.valid() <==> self.nanos < 1_000_000_000,
            self.valid() && other.valid() ==> (self.at_most(other) <==> self.secs * 1_000_000_000
                + self.nanos <= other.secs * 1_000_000_000 + other.nanos),
    {
    }

    /// The moment that lies this far past the start of 1970, or the start of 1970 where the
    /// clock stood before it. Seconds beyond the range of `i64` are counted as the last one.
    pub fn since_epoch(reading: Option<(u64, u32)>) -> (m: Moment)
        requires
            reading matches Some(r) ==> r.1 < 1_000_000_000,
        ensures
            m.valid(),
            reading is None ==> m == (Moment { secs: 0, nanos: 0 }),
            reading matches Some(r) ==> m.nanos == r.1 && m.secs == (if r.0 <= i64::MAX {
                r.0 as int
            } else {
                i64::MAX as int
            }),
    {
        match reading {
            Some(r) => Moment {
                secs: if r.0 <= i64::MAX as u64 {
                    r.0 as i64
                } else {
                    i64::MAX
                },
                nanos: r.1,
            },
            None => Moment { secs: 0, nanos: 0 },
        }
    }

    /// The moment of the call, by the clock of the machine.
    pub fn now() -> (m: Moment)
        ensures
            m.valid(),
            m.secs >= 0,
    {
        Moment::since_epoch(clock_reading())
    }
}

/// Calls `SystemTime::now` and tells it in whole seconds and nanoseconds since the start of
/// 1970, or nothing where the clock stands before that. What the clock shows is open; the
/// nanoseconds stay below a whole second.
#[verifier::external_body]
fn clock_reading() -> (r: Option<(u64, u32)>)
    ensures
        r matches Some(p) ==> p.1 < 1_000_000_000,
{
    match SystemTime::now().duration_since(UNIX_EPOCH) {
        Ok(d) => Some((d.as_secs(), d.subsec_nanos())),
        Err(_) => None,
    }
}

} // verus!

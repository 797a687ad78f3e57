//! When to try again, how long to wait before it, and when to stop trying.
//!
//! The wait grows as `base * 2^attempt` up to a ceiling and is then spread by a random
//! share in both directions. Times are counted in nanoseconds and shares in millionths.

use rand::Rng;
use vstd::arithmetic::div_mod::{lemma_div_is_ordered, lemma_div_multiples_vanish};
use vstd::arithmetic::power2::{lemma_pow2_adds, lemma_pow2_pos, lemma_pow2_unfold, pow2};
use vstd::prelude::*;
use crate::text::same_text;

verus! {

/// The longest time that `std::time::Duration` can hold, in nanoseconds.
pub const MAX_NANOS: u128 = 18_446_744_073_709_551_615_999_999_999;

/// One whole, in millionths.
pub const MILLION: u32 = 1_000_000;

/// How failed attempts are repeated. The owner of the attempts counts them.
#[derive(Debug, Clone, Copy, PartialEq, Eq, Structural)]
pub struct RetryPolicy {
    /// The wait after the first failed attempt.
    pub base_nanos: u128,
    /// The ceiling of the wait before it is spread.
    pub max_delay_nanos: u128,
    /// How many attempts are made in all, the first one among them.
    pub max_attempts: u32,
    /// The share by which a wait is spread in both directions, in millionths; zero
    /// switches the spread off.
    pub jitter_ppm: u32,
}

/// What to do after a failed attempt.
#[derive(Debug, Clone, Copy, PartialEq, Eq, Structural)]
pub enum RetryDecision {
    /// Wait for this many nanoseconds and try again.
    Retry(u128),
    /// Make no further attempt.
    GiveUp,
}

/// `base * 2^attempt`, at most `ceiling`.
pub open spec fn capped_delay(base: int, ceiling: int, attempt: nat) -> int {
    if base * pow2(attempt) < ceiling {
        base * pow2(attempt)
    } else {
        ceiling
    }
}

/// `nanos` times `factor` millionths, rounded down.
pub open spec fn spread(nanos: int, factor: int) -> int {
    nanos * factor / 1_000_000
}

/// Calls `gen_range` of `rand` on the generator of the thread. The number is random and
/// lies in the range that was asked for.
#[verifier::external_body]
fn random_in(lo: u32, hi: u32) -> (r: u32)
    requires
        lo <= hi,
    ensures
        lo <= r <= hi,
{
    rand::thread_rng().gen_range(lo..=hi)
}

/// `nanos` times `factor` millionths, rounded down.
pub fn spread_delay(nanos: u128, factor: u32) -> (r: u128)
    requires
        nanos <= MAX_NANOS,
        factor <= 2 * MILLION,
    ensures
        r == spread(nanos as int, factor as int),
        r * 1_000_000 <= nanos * factor < (r + 1) * 1_000_000,
{
    assert(0 <= nanos * factor <= MAX_NANOS * (2 * MILLION)) by (nonlinear_arith)
        requires
            0 <= nanos <= MAX_NANOS,
            0 <= factor <= 2 * MILLION,
    ;
    nanos * (factor as u128) / 1_000_000
}

impl Default for RetryPolicy {
    fn default() -> (p: RetryPolicy)
        ensures
            p == (RetryPolicy {
                base_nanos: 1_000_000_000,
                max_delay_nanos: 60_000_000_000,
                max_attempts: 10,
                jitter_ppm: 200_000,
            }),
    {
        RetryPolicy {
            base_nanos: 1_000_000_000,
            max_delay_nanos: 60_000_000_000,
            max_attempts: 10,
            jitter_ppm: 200_000,
        }
    }
}

impl RetryPolicy {
    /// Whether the times fit into a `Duration` and the spread is at most the whole.
    pub open spec fn valid(self) -> bool {
        &&& self.base_nanos <= MAX_NANOS
        &&& self.max_delay_nanos <= MAX_NANOS
        &&& self.jitter_ppm <= MILLION
    }

    /// The wait after attempt `attempt`, before it is spread.
    pub open spec fn delay_before_spread(self, attempt: u32) -> int {
        capped_delay(self.base_nanos as int, self.max_delay_nanos as int, attempt as nat)
    }

    /// Whether `d` can be the wait after attempt `attempt`: the wait before the spread,
    /// times some factor within the spread.
    pub open spec fn is_delay(self, attempt: u32, d: u128) -> bool {
        exists|factor: int|
            MILLION - self.jitter_ppm <= factor <= MILLION + self.jitter_ppm && d == #[trigger] spread(
                self.delay_before_spread(attempt),
                factor,
            )
    }

    /// Whether another attempt follows attempt `attempt`.
    pub open spec fn goes_on(self, attempt: u32, transient: bool) -> bool {
        transient && attempt + 1 < self.max_attempts
    }

    /// Whether `d` can be the decision after attempt `attempt` failed.
    pub open spec fn allows(self, attempt: u32, transient: bool, d: RetryDecision) -> bool {
        match d {
            RetryDecision::Retry(nanos) => self.goes_on(attempt, transient) && self.is_delay(
                attempt,
                nanos,
            ),
            RetryDecision::GiveUp => !self.goes_on(attempt, transient),
        }
    }

    /// The wait after attempt `attempt`, before it is spread.
    pub fn capped(&self, attempt: u32) -> (d: u128)
        requires
            self.valid(),
        ensures
            d == self.delay_before_spread(attempt),
    {
        if self.base_nanos == 0 {
            assert(0 * pow2(attempt as nat) == 0) by (nonlinear_arith);
            return 0;
        }
        let mut d: u128 = self.base_nanos;
        let mut i: u32 = 0;
        proof {
            vstd::arithmetic::power2::lemma2_to64();
        }
        while i < attempt && d < self.max_delay_nanos
            invariant
                self.valid(),
                0 < self.base_nanos,
                i <= attempt,
                d == self.base_nanos * pow2(i as nat),
                d > 0,
            decreases attempt - i,
        {
            proof {
                lemma_pow2_unfold((i + 1) as nat);
                assert(self.base_nanos * (2 * pow2(i as nat)) == 2 * (self.base_nanos * pow2(
                    i as nat,
                ))) by (nonlinear_arith);
            }
            d = d * 2;
            i = i + 1;
        }
        if d < self.max_delay_nanos {
            d
        } else {
            proof {
                lemma_pow2_adds(i as nat, (attempt - i) as nat);
                lemma_pow2_pos((attempt - i) as nat);
                let p = pow2(i as nat);
                let q = pow2((attempt - i) as nat);
                assert(self.base_nanos * (p * q) >= self.base_nanos * p) by (nonlinear_arith)
                    requires
                        q >= 1,
                        p >= 0,
                        self.base_nanos >= 0,
                ;
            }
            self.max_delay_nanos
        }
    }

    /// The wait after attempt `attempt`: `min(base * 2^attempt, max_delay)`, spread by a
    /// random factor. The ceiling holds before the spread.
    pub fn delay_for(&self, attempt: u32) -> (d: u128)
        requires
            self.valid(),
        ensures
            self.is_delay(attempt, d),
    {
        let capped: u128 = self.capped(attempt);
        let factor: u32 = if self.jitter_ppm > 0 {
            random_in(MILLION - self.jitter_ppm, MILLION + self.jitter_ppm)
        } else {
            MILLION
        };
        spread_delay(capped, factor)
    }

    /// Whether to try again after attempt `attempt`, counted from zero, has failed, and
    /// how long to wait before it. Only trouble that may pass is tried again, and no more
    /// than `max_attempts` attempts are made.
    pub fn classify(&self, attempt: u32, transient: bool) -> (d: RetryDecision)
        requires
            self.valid(),
            transient ==> attempt < u32::MAX,
        ensures
            self.allows(attempt, transient, d),
            d is Retry <==> transient && attempt + 1 < self.max_attempts,
            d matches RetryDecision::Retry(nanos) ==> self.is_delay(attempt, nanos),
    {
        if !transient || attempt + 1 >= self.max_attempts {
            return RetryDecision::GiveUp;
        }
        RetryDecision::Retry(self.delay_for(attempt))
    }

    /// Without a spread the wait is exactly `min(base * 2^attempt, max_delay)`.
    pub proof fn delay_without_spread_is_exact(self, attempt: u32, d: u128)
        requires
            self.jitter_ppm == 0,
            self.is_delay(attempt, d),
        ensures
            d == self.delay_before_spread(attempt),
    {
        let capped = self.delay_before_spread(attempt);
        assert(d == spread(capped, 1_000_000));
        lemma_div_multiples_vanish(capped, 1_000_000);
        assert(capped * 1_000_000 == 1_000_000 * capped);
    }

    /// A wait stays within the spread around `min(base * 2^attempt, max_delay)`, and so
    /// within the spread around the ceiling.
    pub proof fn delay_stays_within_spread(self, attempt: u32, d: u128)
        requires
            self.valid(),
            self.is_delay(attempt, d),
        ensures
            spread(self.delay_before_spread(attempt), MILLION - self.jitter_ppm) <= d,
            d <= spread(self.delay_before_spread(attempt), MILLION + self.jitter_ppm),
            d <= spread(self.max_delay_nanos as int, MILLION + self.jitter_ppm),
    {
        let capped = self.delay_before_spread(attempt);
        let lo = MILLION - self.jitter_ppm;
        let hi = MILLION + self.jitter_ppm;
        let factor = choose|factor: int|
            lo <= factor <= hi && d == #[trigger] spread(capped, factor);
        assert(0 <= capped <= self.max_delay_nanos) by {
            lemma_pow2_pos(attempt as nat);
            assert(0 <= self.base_nanos * pow2(attempt as nat)) by (nonlinear_arith)
                requires
                    self.base_nanos >= 0,
                    pow2(attempt as nat) >= 0,
            ;
        }
        assert(capped * lo <= capped * factor <= capped * hi <= self.max_delay_nanos * hi)
            by (nonlinear_arith)
            requires
                0 <= capped <= self.max_delay_nanos,
                0 <= lo <= factor <= hi,
        ;
        lemma_div_is_ordered(capped * lo, capped * factor, 1_000_000);
        lemma_div_is_ordered(capped * factor, capped * hi, 1_000_000);
        lemma_div_is_ordered(capped * hi, self.max_delay_nanos * hi, 1_000_000);
    }

    /// The first wait is the base, and each wait is twice the one before it, up to the ceiling.
    pub proof fn wait_doubles_up_to_the_ceiling(self, attempt: u32)
        requires
            attempt < u32::MAX,
        ensures
            self.delay_before_spread(0) == vstd::math::min(
                self.base_nanos as int,
                self.max_delay_nanos as int,
            ),
            self.delay_before_spread((attempt + 1) as u32) == vstd::math::min(
                2 * self.delay_before_spread(attempt),
                self.max_delay_nanos as int,
            ),
    {
        vstd::arithmetic::power2::lemma2_to64();
        lemma_pow2_unfold((attempt + 1) as nat);
        let base = self.base_nanos as int;
        let power = pow2(attempt as nat) as int;
        assert(base * 1 == base);
        assert(base * (2 * power) == 2 * (base * power)) by (nonlinear_arith);
        assert(0 <= base * power) by (nonlinear_arith)
            requires
                0 <= base,
                0 <= power,
        ;
    }

    /// A wait differs from the wait before the spread by at most the share that is set, and by
    /// less than a nanosecond that rounding takes away.
    pub proof fn wait_is_spread_by_the_share(self, attempt: u32, d: u128)
        requires
            self.valid(),
            self.is_delay(attempt, d),
        ensures
            d * 1_000_000 <= self.delay_before_spread(attempt) * (1_000_000 + self.jitter_ppm),
            self.delay_before_spread(attempt) * (1_000_000 - self.jitter_ppm) < (d + 1) * 1_000_000,
    {
        let before = self.delay_before_spread(attempt);
        let lo = 1_000_000 - self.jitter_ppm;
        let hi = 1_000_000 + self.jitter_ppm;
        let factor = choose|factor: int|
            MILLION - self.jitter_ppm <= factor <= MILLION + self.jitter_ppm && d
                == #[trigger] spread(before, factor);
        assert(0 <= before) by {
            lemma_pow2_pos(attempt as nat);
            assert(0 <= self.base_nanos * pow2(attempt as nat)) by (nonlinear_arith)
                requires
                    self.base_nanos >= 0,
                    pow2(attempt as nat) >= 0,
            ;
        }
        assert(before * lo <= before * factor <= before * hi) by (nonlinear_arith)
            requires
                0 <= before,
                lo <= factor <= hi,
        ;
        vstd::arithmetic::div_mod::lemma_fundamental_div_mod(before * factor, 1_000_000);
    }

    /// A failed attempt is followed by another one exactly where the trouble may pass and fewer
    /// attempts than the limit have been made; the wait before it is one that the policy sets.
    pub proof fn attempts_are_limited(self, attempt: u32, transient: bool, d: RetryDecision)
        requires
            self.allows(attempt, transient, d),
        ensures
            d is Retry <==> transient && attempt + 1 < self.max_attempts,
            self.goes_on(attempt, transient) <==> transient && attempt + 1 < self.max_attempts,
            d matches RetryDecision::Retry(nanos) ==> self.is_delay(attempt, nanos),
    {
    }

    /// A policy is valid where its times fit into a `Duration` and its spread is at most one
    /// whole.
    pub proof fn every_duration_is_valid(self)
        ensures
            self.valid() <==> self.base_nanos <= 18_446_744_073_709_551_615_999_999_999u128
                && self.max_delay_nanos <= 18_446_744_073_709_551_615_999_999_999u128
                && self.jitter_ppm <= 1_000_000,
    {
    }
}

/// Whether the same error has come too often in a row.
#[derive(Debug, Clone, Copy, PartialEq, Eq, Structural)]
pub enum CrashLoopState {
    /// Trying again is still in order.
    Clear,
    /// The download is to be given up.
    Triggered,
}

/// Counts errors with the same key that follow each other.
#[derive(Debug, Clone)]
pub struct CrashLoopGuard {
    limit: u32,
    last: Option<String>,
    streak: u32,
}

/// What a guard has seen: its limit, the key of the last error, and how many errors
/// with that key came last, as far as `u32` counts.
pub struct CrashLoopModel {
    pub limit: u32,
    pub last: Option<Seq<char>>,
    pub streak: u32,
}

impl CrashLoopModel {
    /// The model after one more error with the key `key`.
    pub open spec fn after(self, key: Seq<char>) -> CrashLoopModel {
        CrashLoopModel {
            limit: self.limit,
            last: Some(key),
            streak: if self.last != Some(key) {
                1
            } else if self.streak < u32::MAX {
                (self.streak + 1) as u32
            } else {
                u32::MAX
            },
        }
    }

    /// The model after `n` more errors with the key `key`.
    pub open spec fn after_many(self, key: Seq<char>, n: nat) -> CrashLoopModel
        decreases n,
    {
        if n == 0 {
            self
        } else {
            self.after_many(key, (n - 1) as nat).after(key)
        }
    }

    /// Whether the limit has been reached.
    pub open spec fn triggered(self) -> bool {
        self.streak >= self.limit
    }

    /// After `n` errors with one key that came behind an error with another key, or behind
    /// none, the guard is triggered exactly where `n` has reached the limit.
    pub proof fn triggers_at_limit(self, key: Seq<char>, n: nat)
        requires
            self.last != Some(key),
            n > 0,
        ensures
            self.after_many(key, n).triggered() <==> n >= self.limit,
            self.after_many(key, n).streak == (if n < u32::MAX {
                n as int
            } else {
                u32::MAX as int
            }),
            self.after_many(key, n).last == Some(key),
            self.after_many(key, n).limit == self.limit,
        decreases n,
    {
        reveal_with_fuel(CrashLoopModel::after_many, 2);
        if n > 1 {
            self.triggers_at_limit(key, (n - 1) as nat);
        }
    }
}

impl CrashLoopGuard {
    /// What the guard has seen.
    pub closed spec fn view(&self) -> CrashLoopModel {
        CrashLoopModel {
            limit: self.limit,
            last: match self.last {
                Some(s) => Some(s@),
                None => None,
            },
            streak: self.streak,
        }
    }

    /// A guard that is triggered by `limit` equal errors in a row.
    pub fn new(limit: u32) -> (g: CrashLoopGuard)
        ensures
            g@ == (CrashLoopModel { limit, last: None, streak: 0 }),
    {
        CrashLoopGuard { limit, last: None, streak: 0 }
    }

    /// Counts one more error and says where the guard then stands.
    pub fn observe(&mut self, err_key: &str) -> (r: CrashLoopState)
        ensures
            final(self)@ == old(self)@.after(err_key@),
            r == (if final(self)@.triggered() {
                CrashLoopState::Triggered
            } else {
                CrashLoopState::Clear
            }),
    {
        let same: bool = match &self.last {
            Some(prev) => same_text(prev.as_str(), err_key),
            None => false,
        };
        if same {
            if self.streak < u32::MAX {
                self.streak = self.streak + 1;
            }
        } else {
            self.last = Some(err_key.to_owned());
            self.streak = 1;
        }
        if self.streak >= self.limit {
            CrashLoopState::Triggered
        } else {
            CrashLoopState::Clear
        }
    }

    /// Forgets what came before, after a success or by hand.
    pub fn reset(&mut self)
        ensures
            final(self)@ == (CrashLoopModel { limit: old(self)@.limit, last: None, streak: 0 }),
    {
        self.last = None;
        self.streak = 0;
    }
}

impl Default for CrashLoopGuard {
    /// A guard with a limit of five.
    fn default() -> (g: CrashLoopGuard)
        ensures
            g@ == (CrashLoopModel { limit: 5, last: None, streak: 0 }),
    {
        CrashLoopGuard::new(5)
    }
}

} // verus!

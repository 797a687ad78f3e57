//! What to download, and where to put it.

use std::path::PathBuf;
use vstd::arithmetic::power2::{lemma_pow2_unfold, pow2};
use vstd::prelude::*;
use crate::text::clone_text;

verus! {

/// `std::path::PathBuf`, carried through as it is: paths need not be Unicode.
#[verifier::external_type_specification]
#[verifier::external_body]
pub struct ExPathBuf(PathBuf);

/// `PathBuf::clone` gives the same path again.
pub assume_specification[ <PathBuf as Clone>::clone ](p: &PathBuf) -> (r: PathBuf)
    ensures
        r == *p,
;

/// The description of one file that a client sends. It does not change once
/// the file is queued.
#[derive(Debug, PartialEq, Eq)]
pub struct FileSpec {
    /// Where to download from.
    pub url: String,
    /// The directory that the file goes to.
    pub target_dir: PathBuf,
    /// The file's name, where the client chose one.
    pub filename: Option<String>,
    /// Fetch the pieces from left to right.
    pub linear: bool,
}

impl Clone for FileSpec {
    fn clone(&self) -> (r: FileSpec)
        ensures
            r == *self,
    {
        FileSpec {
            url: self.url.clone(),
            target_dir: self.target_dir.clone(),
            filename: clone_text(&self.filename),
            linear: self.linear,
        }
    }
}

impl FileSpec {
    /// The description with everything but the address and the directory left open.
    pub fn new(url: &str, target_dir: PathBuf) -> (spec: FileSpec)
        ensures
            spec.url@ == url@,
            spec.target_dir == target_dir,
            spec.filename is None,
            !spec.linear,
    {
        FileSpec { url: url.to_owned(), target_dir, filename: None, linear: false }
    }
}

/// The largest number of workers that one file gets.
pub const MAX_WORKERS: u32 = 12;

/// `a / b`, rounded up.
pub open spec fn ceil_div(a: int, b: int) -> int {
    (a + b - 1) / b
}

/// The size of a file of `total_size` bytes in units of ten mebibytes, rounded up twice.
pub open spec fn ten_mib_units(total_size: int) -> int {
    ceil_div(ceil_div(total_size, 1_048_576), 10)
}

/// Whether `w` is `ceil(log2(units))`, brought into the range from 1 to `MAX_WORKERS`:
/// the smallest number in that range with `units <= 2^w`, or the largest number in it.
pub open spec fn is_worker_count(w: int, units: int) -> bool {
    &&& 1 <= w <= MAX_WORKERS
    &&& w < MAX_WORKERS ==> units <= pow2(w as nat)
    &&& w > 1 ==> pow2((w - 1) as nat) < units
}

/// The number of workers for a file of `total_size` bytes.
pub open spec fn worker_count(total_size: int) -> int {
    choose|w: int| is_worker_count(w, ten_mib_units(total_size))
}

/// A larger file never gets fewer workers; a file of a given size gets one number of them.
pub proof fn worker_count_grows_with_size(small: int, large: int, few: int, many: int)
    requires
        0 <= small <= large,
        is_worker_count(few, ten_mib_units(small)),
        is_worker_count(many, ten_mib_units(large)),
    ensures
        few <= many,
        small == large ==> few == many,
{
    vstd::arithmetic::div_mod::lemma_div_is_ordered(small + 1_048_576 - 1, large + 1_048_576 - 1, 1_048_576);
    let a = ceil_div(small, 1_048_576);
    let b = ceil_div(large, 1_048_576);
    vstd::arithmetic::div_mod::lemma_div_is_ordered(a + 10 - 1, b + 10 - 1, 10);
    if many < few {
        if many < few - 1 {
            vstd::arithmetic::power2::lemma_pow2_strictly_increases(many as nat, (few - 1) as nat);
        }
        assert(false);
    }
    if small == large && few < many {
        if few < many - 1 {
            vstd::arithmetic::power2::lemma_pow2_strictly_increases(few as nat, (many - 1) as nat);
        }
        assert(false);
    }
}

/// `a / b`, rounded up, is the smallest number of parts of `b` that hold `a`.
pub proof fn rounding_up_is_exact(a: int, b: int)
    requires
        0 <= a,
        0 < b,
    ensures
        a <= b * ceil_div(a, b),
        b * (ceil_div(a, b) - 1) < a,
{
    let q = ceil_div(a, b);
    vstd::arithmetic::div_mod::lemma_fundamental_div_mod(a + b - 1, b);
    assert(b * (q - 1) == b * q - b) by (nonlinear_arith);
}

/// A file gets the smallest number of workers, from one to twelve, for which it has at most
/// ten mebibytes times two to the power of that number; one that is too large even for twelve
/// gets twelve.
pub proof fn workers_follow_the_bytes(total_size: int, w: int)
    requires
        0 <= total_size,
        is_worker_count(w, ten_mib_units(total_size)),
    ensures
        1 <= w <= 12,
        w < 12 ==> total_size <= 10_485_760 * pow2(w as nat),
        w > 1 ==> total_size > 10_485_760 * pow2((w - 1) as nat),
{
    let mebibytes = ceil_div(total_size, 1_048_576);
    rounding_up_is_exact(total_size, 1_048_576);
    rounding_up_is_exact(mebibytes, 10);
}

/// Every size leads to a number of workers.
pub proof fn every_size_has_workers(total_size: int)
    requires
        0 <= total_size,
    ensures
        is_worker_count(worker_count(total_size), ten_mib_units(total_size)),
{
    least_power(ten_mib_units(total_size), 1);
}

proof fn least_power(units: int, from: int)
    requires
        1 <= from <= 12,
        from > 1 ==> pow2((from - 1) as nat) < units,
    ensures
        exists|w: int| is_worker_count(w, units),
    decreases 12 - from,
{
    if from == 12 || units <= pow2(from as nat) {
        assert(is_worker_count(from, units));
    } else {
        least_power(units, from + 1);
    }
}

/// `a / b`, rounded up.
pub(crate) fn div_up(a: u64, b: u64) -> (r: u64)
    requires
        b > 0,
    ensures
        r == ceil_div(a as int, b as int),
        r <= a,
{
    let q: u64 = a / b;
    let m: u64 = a % b;
    proof {
        vstd::arithmetic::div_mod::lemma_fundamental_div_mod(a as int, b as int);
        assert(q * b == b * q) by (nonlinear_arith);
        if m == 0 {
            assert(a + b - 1 == b * q + (b - 1));
            vstd::arithmetic::div_mod::lemma_fundamental_div_mod_converse(a + b - 1, b as int, q as int, b - 1);
            assert(q <= a) by (nonlinear_arith)
                requires
                    a == b * q,
                    b > 0,
            ;
        } else {
            assert(a + b - 1 == b * (q + 1) + (m - 1)) by (nonlinear_arith)
                requires
                    a == b * q + m,
            ;
            vstd::arithmetic::div_mod::lemma_fundamental_div_mod_converse(a + b - 1, b as int, q + 1, m - 1);
            assert(q < a) by (nonlinear_arith)
                requires
                    a == b * q + m,
                    b > 0,
                    m > 0,
            ;
        }
    }
    if m == 0 {
        q
    } else {
        q + 1
    }
}

/// How many workers a file of `total_size` bytes gets: the binary logarithm of its
/// size in units of ten mebibytes, between one and `MAX_WORKERS`.
pub fn compute_workers(total_size: u64) -> (w: u32)
    ensures
        is_worker_count(w as int, ten_mib_units(total_size as int)),
        w == worker_count(total_size as int),
        1 <= w <= 12,
        w < 12 ==> total_size <= 10_485_760 * pow2(w as nat),
        w > 1 ==> total_size > 10_485_760 * pow2((w - 1) as nat),
{
    let size_mb: u64 = div_up(total_size, 1024 * 1024);
    let units: u64 = div_up(size_mb, 10);
    let mut w: u32 = 1;
    let mut reach: u64 = 2;
    proof {
        lemma_pow2_unfold(1);
        vstd::arithmetic::power2::lemma2_to64();
    }
    while w < MAX_WORKERS && reach < units
        invariant
            1 <= w <= MAX_WORKERS,
            reach == pow2(w as nat),
            reach <= 4096,
            w > 1 ==> pow2((w - 1) as nat) < units,
            w < MAX_WORKERS ==> reach <= 2048,
        decreases MAX_WORKERS - w,
    {
        proof {
            lemma_pow2_unfold((w + 1) as nat);
            vstd::arithmetic::power2::lemma2_to64();
            if w + 1 < MAX_WORKERS {
                vstd::arithmetic::power2::lemma_pow2_strictly_increases((w + 1) as nat, 12);
                assert(pow2((w + 1) as nat) <= 2048) by {
                    if w + 1 < 11 {
                        vstd::arithmetic::power2::lemma_pow2_strictly_increases((w + 1) as nat, 11);
                    }
                }
            }
        }
        w = w + 1;
        reach = reach * 2;
    }
    proof {
        worker_count_grows_with_size(
            total_size as int,
            total_size as int,
            w as int,
            worker_count(total_size as int),
        );
        workers_follow_the_bytes(total_size as int, w as int);
    }
    w
}

} // verus!

//! The source of randomness behind the simulation.
//!
//! Every random draw the game makes is a uniform integer from a
//! half-open range, so the whole dependency is one method.  It sits
//! behind a trait so a recorded sequence can stand in for the real
//! generator, which makes runs reproducible in tests.

use rand::Rng;
use vstd::prelude::*;

verus! {

/// A supplier of uniform integer draws.
pub trait RandomSource {
    /// An integer in `[lo, hi)`.
    fn next_in_range(&mut self, lo: i64, hi: i64) -> (r: i64)
        requires
            lo < hi,
        ensures
            lo <= r < hi,
    ;
}

/// The operating system's generator, via the `rand` crate.
pub struct ThreadRandom {}

impl ThreadRandom {
    pub fn new() -> ThreadRandom {
        ThreadRandom {}
    }
}

/// Relies on rand::Rng::gen_range (rand 0.7): a uniform value in
/// `[lo, hi)`; it panics when `lo >= hi`, which the contract rules out.
#[verifier::external_body]
fn draw_in_range(lo: i64, hi: i64) -> (r: i64)
    requires
        lo < hi,
    ensures
        lo <= r < hi,
{
    rand::thread_rng().gen_range(lo, hi)
}

impl RandomSource for ThreadRandom {
    fn next_in_range(&mut self, lo: i64, hi: i64) -> (r: i64) {
        draw_in_range(lo, hi)
    }
}

/// A recorded sequence of draws, folded into each requested range.
/// Once the sequence is exhausted it hands out the low bound.
pub struct FixedRandom {
    pub values: Vec<i64>,
    pub next: usize,
}

impl FixedRandom {
    pub fn new(values: Vec<i64>) -> (r: FixedRandom)
        ensures
            r.values == values,
            r.next == 0,
    {
        FixedRandom { values, next: 0 }
    }
}

impl RandomSource for FixedRandom {
    fn next_in_range(&mut self, lo: i64, hi: i64) -> (r: i64) {
        if self.next >= self.values.len() {
            return lo;
        }
        let raw = self.values[self.next];
        self.next = self.next + 1;
        let span: i128 = hi as i128 - lo as i128;
        let rem: i128 = raw as i128 % span;
        let offset: i128 = if rem < 0 {
            rem + span
        } else {
            rem
        };
        let r = (lo as i128 + offset) as i64;
        proof {
            assert(lo <= lo as i128 + offset < hi) by (nonlinear_arith)
                requires
                    lo < hi,
                    span == hi as i128 - lo as i128,
                    rem == tdiv_i128(raw as int, span as int),
                    offset == if rem < 0 { rem + span as int } else { rem as int },
            ;
        }
        r
    }
}

/// Truncating division remainder helper for the proof above.
pub open spec fn tdiv_i128(a: int, b: int) -> int {
    if a >= 0 {
        a % b
    } else {
        -((-a) % b)
    }
}

} // verus!

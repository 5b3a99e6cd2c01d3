//! The click rate: a whole number of clicks per second within fixed bounds,
//! and the interval from click to click that it stands for.

use vstd::prelude::*;
use vstd::arithmetic::div_mod::{
    lemma_div_is_ordered_by_denominator, lemma_fundamental_div_mod, lemma_mod_bound,
};

verus! {

/// Lowest rate the rate control accepts, in clicks per second.
pub const MIN_RATE: u32 = 1;

/// Highest rate the rate control accepts, in clicks per second.
pub const MAX_RATE: u32 = 100;

/// Rate in force before the user has touched the rate control.
pub const DEFAULT_RATE: u32 = 10;

/// Nanoseconds in one second.
pub const NANOS_PER_SECOND: u64 = 1_000_000_000;

/// Whether `rate` lies within the accepted bounds.
pub open spec fn in_range(rate: int) -> bool {
    MIN_RATE <= rate <= MAX_RATE
}

/// The accepted rate nearest to `raw`.
pub open spec fn clamped(raw: int) -> int {
    if raw < MIN_RATE {
        MIN_RATE as int
    } else if raw > MAX_RATE {
        MAX_RATE as int
    } else {
        raw
    }
}

/// The distance between two integers.
pub open spec fn dist(a: int, b: int) -> nat {
    if a <= b {
        (b - a) as nat
    } else {
        (a - b) as nat
    }
}

/// The time from one click to the next at `rate`, in whole nanoseconds: one
/// second divided by the rate, rounded down.
pub open spec fn interval_of(rate: int) -> int {
    NANOS_PER_SECOND as int / rate
}

/// A click rate within the accepted bounds.
#[derive(Clone, Copy, Debug, PartialEq, Eq, Structural)]
pub struct ClickRate {
    per_second: u32,
}

impl View for ClickRate {
    type V = int;

    closed spec fn view(&self) -> int {
        self.per_second as int
    }
}

impl ClickRate {
    #[verifier::type_invariant]
    spec fn within_bounds(self) -> bool {
        MIN_RATE <= self.per_second <= MAX_RATE
    }

    /// The rate for a raw input of the rate control. An input outside the
    /// accepted bounds becomes the nearer bound.
    pub fn new(raw: i64) -> (rate: Self)
        ensures
            rate@ == clamped(raw as int),
    {
        if raw < MIN_RATE as i64 {
            ClickRate { per_second: MIN_RATE }
        } else if raw > MAX_RATE as i64 {
            ClickRate { per_second: MAX_RATE }
        } else {
            ClickRate { per_second: raw as u32 }
        }
    }

    /// The rate in clicks per second.
    pub fn per_second(&self) -> (n: u32)
        ensures
            n == self@,
            in_range(self@),
    {
        proof {
            use_type_invariant(self);
        }
        self.per_second
    }

    /// The time from one click to the next at this rate, in nanoseconds.
    pub fn interval_nanos(&self) -> (nanos: u64)
        ensures
            nanos == interval_of(self@),
            in_range(self@),
    {
        proof {
            use_type_invariant(self);
        }
        NANOS_PER_SECOND / (self.per_second as u64)
    }
}

impl Default for ClickRate {
    fn default() -> (rate: Self)
        ensures
            rate@ == DEFAULT_RATE,
    {
        ClickRate { per_second: DEFAULT_RATE }
    }
}

/// Clamping always lands within the bounds, leaves a rate within them as it
/// is, and sends any other input to the bound on its side: no rate within
/// the bounds is nearer to the input than the clamped one.
pub proof fn lemma_clamped_nearest(raw: int)
    ensures
        in_range(clamped(raw)),
        in_range(raw) ==> clamped(raw) == raw,
        raw < MIN_RATE ==> clamped(raw) == MIN_RATE,
        raw > MAX_RATE ==> clamped(raw) == MAX_RATE,
        forall|other: int|
            in_range(other) ==> dist(raw, clamped(raw)) <= #[trigger] dist(raw, other),
{
}

/// Clamping a clamped value changes nothing.
pub proof fn lemma_clamped_idempotent(raw: int)
    ensures
        clamped(clamped(raw)) == clamped(raw),
{
}

/// The interval of a rate within the bounds is the largest whole number of
/// nanoseconds of which `rate` many fit into one second. It is never shorter
/// than ten milliseconds nor longer than one second.
pub proof fn lemma_interval_exact(rate: int)
    requires
        in_range(rate),
    ensures
        rate * interval_of(rate) <= NANOS_PER_SECOND < rate * (interval_of(rate) + 1),
        10_000_000 <= interval_of(rate) <= NANOS_PER_SECOND,
{
    let n: int = NANOS_PER_SECOND as int;
    let q: int = n / rate;
    lemma_fundamental_div_mod(n, rate);
    lemma_mod_bound(n, rate);
    assert(rate * (q + 1) == rate * q + rate) by (nonlinear_arith);
    assert(q <= n) by (nonlinear_arith)
        requires
            rate * q <= n,
            rate >= 1,
            n >= 0,
    ;
    assert(q >= 10_000_000) by (nonlinear_arith)
        requires
            n < rate * (q + 1),
            1 <= rate <= 100,
            n == 1_000_000_000,
    ;
}

/// A higher rate never has a longer interval.
pub proof fn lemma_interval_antitone(slow: int, fast: int)
    requires
        in_range(slow),
        in_range(fast),
        slow <= fast,
    ensures
        interval_of(fast) <= interval_of(slow),
{
    lemma_div_is_ordered_by_denominator(NANOS_PER_SECOND as int, slow, fast);
}

} // verus!

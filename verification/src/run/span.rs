//! Lengths of time as plain numbers.

use vstd::prelude::*;

verus! {

pub const NANOS_PER_SEC: u128 = 1_000_000_000;

pub const NANOS_PER_MILLI: u128 = 1_000_000;

/// A length of time, counted in nanoseconds.
#[derive(Clone, Copy, Debug, PartialEq, Eq, Structural)]
pub struct TimeSpan {
    pub nanos: u128,
}

impl View for TimeSpan {
    type V = nat;

    /// The length in nanoseconds.
    open spec fn view(&self) -> nat {
        self.nanos as nat
    }
}

impl TimeSpan {
    /// Whole milliseconds in this span.
    pub open spec fn millis(self) -> nat {
        self@ / (NANOS_PER_MILLI as nat)
    }

    /// Whole seconds in this span.
    pub open spec fn secs(self) -> nat {
        self@ / (NANOS_PER_SEC as nat)
    }

    /// The sum of two spans, held at the longest span that can be written.
    pub open spec fn plus(self, other: TimeSpan) -> TimeSpan {
        if self.nanos + other.nanos > u128::MAX {
            TimeSpan { nanos: u128::MAX }
        } else {
            TimeSpan { nanos: (self.nanos + other.nanos) as u128 }
        }
    }

    /// The span of `nanos` nanoseconds, or the longest span that can be
    /// written where that is shorter.
    pub open spec fn saturated(nanos: nat) -> TimeSpan {
        if nanos > u128::MAX {
            TimeSpan { nanos: u128::MAX }
        } else {
            TimeSpan { nanos: nanos as u128 }
        }
    }

    /// The empty span.
    pub fn zero() -> (span: Self)
        ensures
            span@ == 0,
    {
        TimeSpan { nanos: 0 }
    }

    /// The span of `secs` seconds and `nanos` nanoseconds.
    pub fn new(secs: u64, nanos: u32) -> (span: Self)
        ensures
            span@ == secs * NANOS_PER_SEC + nanos,
    {
        let whole: u128 = secs as u128;
        TimeSpan { nanos: whole * NANOS_PER_SEC + nanos as u128 }
    }

    /// The span of `millis` milliseconds.
    pub fn from_millis(millis: u64) -> (span: Self)
        ensures
            span@ == millis * NANOS_PER_MILLI,
            span.millis() == millis,
    {
        let whole: u128 = millis as u128;
        TimeSpan { nanos: whole * NANOS_PER_MILLI }
    }

    /// The span of `secs` seconds.
    pub fn from_secs(secs: u64) -> (span: Self)
        ensures
            span@ == secs * NANOS_PER_SEC,
            span.secs() == secs,
    {
        let whole: u128 = secs as u128;
        TimeSpan { nanos: whole * NANOS_PER_SEC }
    }

    /// The length in nanoseconds.
    pub fn as_nanos(&self) -> (n: u128)
        ensures
            n == self@,
    {
        self.nanos
    }

    /// Whole milliseconds in this span; what is left of a millisecond is dropped.
    pub fn as_millis(&self) -> (n: u128)
        ensures
            n == self.millis(),
    {
        self.nanos / NANOS_PER_MILLI
    }

    /// Whole seconds in this span; what is left of a second is dropped.
    pub fn as_secs(&self) -> (n: u128)
        ensures
            n == self.secs(),
    {
        self.nanos / NANOS_PER_SEC
    }

    /// The nanoseconds beyond the whole seconds.
    pub fn subsec_nanos(&self) -> (n: u32)
        ensures
            n == self@ % (NANOS_PER_SEC as nat),
    {
        (self.nanos % NANOS_PER_SEC) as u32
    }

    /// Adds `other`, stopping at the longest span that can be written.
    pub fn saturating_add(self, other: TimeSpan) -> (sum: TimeSpan)
        ensures
            sum == self.plus(other),
            sum == Self::saturated(self@ + other@),
            sum@ >= self@,
            sum@ >= other@,
    {
        if other.nanos > u128::MAX - self.nanos {
            TimeSpan { nanos: u128::MAX }
        } else {
            TimeSpan { nanos: self.nanos + other.nanos }
        }
    }
}

impl Default for TimeSpan {
    fn default() -> (span: Self)
        ensures
            span@ == 0,
    {
        TimeSpan { nanos: 0 }
    }
}

/// The whole seconds of a span are its whole milliseconds, counted by the
/// thousand.
pub proof fn law_secs_of_millis(span: TimeSpan)
    ensures
        span.secs() == span.millis() / 1000,
{
    let n = span@ as int;
    assert(n / 1_000_000_000 == (n / 1_000_000) / 1000) by (nonlinear_arith)
        requires
            n >= 0,
    ;
}

} // verus!

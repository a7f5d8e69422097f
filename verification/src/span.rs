//! Lengths of time, counted in whole nanoseconds.

use vstd::prelude::*;

verus! {

/// Nanoseconds in one millisecond.
pub const NANOS_PER_MILLI: u128 = 1_000_000;

/// A non-negative length of time, held as a whole number of nanoseconds.
///
/// Its view is that number.
#[derive(Clone, Copy, Debug, PartialEq, Eq, Structural)]
pub struct Span {
    pub nanos: u128,
}

impl View for Span {
    type V = nat;

    open spec fn view(&self) -> nat {
        self.nanos as nat
    }
}

impl Span {
    /// The whole milliseconds in this span, the rest dropped.
    pub open spec fn millis(self) -> nat {
        self@ / 1_000_000
    }

    /// The empty span.
    pub fn zero() -> (span: Span)
        ensures
            span@ == 0,
    {
        Span { nanos: 0 }
    }

    /// The span of `nanos` nanoseconds.
    pub fn from_nanos(nanos: u128) -> (span: Span)
        ensures
            span@ == nanos,
    {
        Span { nanos }
    }

    /// The span of `millis` milliseconds.
    pub fn from_millis(millis: u64) -> (span: Span)
        ensures
            span@ == millis * 1_000_000,
            span.millis() == millis,
    {
        let wide: u128 = millis as u128;
        Span { nanos: wide * NANOS_PER_MILLI }
    }

    /// The length in nanoseconds.
    pub fn as_nanos(self) -> (nanos: u128)
        ensures
            nanos == self@,
    {
        self.nanos
    }

    /// The length in whole milliseconds, rounded down.
    pub fn as_millis(self) -> (millis: u128)
        ensures
            millis == self.millis(),
    {
        self.nanos / NANOS_PER_MILLI
    }

    /// The sum of two spans, or `None` exactly when it does not fit.
    pub fn checked_add(self, other: Span) -> (sum: Option<Span>)
        ensures
            match sum {
                Some(total) => total@ == self@ + other@,
                None => self@ + other@ > u128::MAX,
            },
    {
        if other.nanos <= u128::MAX - self.nanos {
            Some(Span { nanos: self.nanos + other.nanos })
        } else {
            None
        }
    }

    /// The time from `earlier` to `self`, or nothing where `earlier` is the
    /// later of the two.
    pub fn saturating_since(self, earlier: Span) -> (gap: Span)
        ensures
            gap@ == gap_between(earlier@, self@),
    {
        if self.nanos >= earlier.nanos {
            Span { nanos: self.nanos - earlier.nanos }
        } else {
            Span { nanos: 0 }
        }
    }
}

/// The time from `earlier` to `later`, zero where they are out of order.
pub open spec fn gap_between(earlier: nat, later: nat) -> nat {
    if later >= earlier {
        (later - earlier) as nat
    } else {
        0
    }
}

} // verus!

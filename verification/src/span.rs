//! A plain-value model of a length of time.
//!
//! Every timeout in this crate is configured as a [`Span`], and the poll loop
//! measures elapsed time in the same unit, so the deadline comparison is an
//! ordinary integer comparison with an exact contract.

use vstd::prelude::*;

verus! {

/// Nanoseconds in one second.
pub const NANOS_PER_SEC: u64 = 1_000_000_000;

/// Nanoseconds in one millisecond.
pub const NANOS_PER_MILLI: u64 = 1_000_000;

/// A non-negative length of time, held as a whole number of nanoseconds.
#[derive(Clone, Copy, Debug, PartialEq, Eq, Structural)]
pub struct Span {
    nanos: u128,
}

impl View for Span {
    type V = int;

    closed spec fn view(&self) -> int {
        self.nanos as int
    }
}

impl Span {
    /// A span of `secs` whole seconds.
    pub fn from_secs(secs: u64) -> (s: Span)
        ensures
            s@ == secs * NANOS_PER_SEC,
    {
        proof {
            assert((secs as int) * (NANOS_PER_SEC as int) <= u64::MAX * NANOS_PER_SEC)
                by (nonlinear_arith)
                requires
                    secs <= u64::MAX,
            ;
        }
        Span { nanos: (secs as u128) * (NANOS_PER_SEC as u128) }
    }

    /// A span of `millis` whole milliseconds.
    pub fn from_millis(millis: u64) -> (s: Span)
        ensures
            s@ == millis * NANOS_PER_MILLI,
    {
        proof {
            assert((millis as int) * (NANOS_PER_MILLI as int) <= u64::MAX * NANOS_PER_MILLI)
                by (nonlinear_arith)
                requires
                    millis <= u64::MAX,
            ;
        }
        Span { nanos: (millis as u128) * (NANOS_PER_MILLI as u128) }
    }

    /// A span of `nanos` nanoseconds.
    pub fn from_nanos(nanos: u128) -> (s: Span)
        ensures
            s@ == nanos,
    {
        Span { nanos }
    }

    /// The span as a whole number of nanoseconds.
    pub fn nanos(&self) -> (n: u128)
        ensures
            n == self@,
    {
        self.nanos
    }

    /// Whether this span is strictly longer than `other`.
    pub fn exceeds(&self, other: &Span) -> (r: bool)
        ensures
            r == (self@ > other@),
    {
        self.nanos > other.nanos
    }
}

} // verus!

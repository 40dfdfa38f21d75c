//! Readings of the process's monotonic clock, taken against a deadline.
//!
//! A [`PollClock`] is started when a poll loop begins and read once per
//! round.  What a reading returns depends on the machine and on when the
//! call happens, so nothing is promised of its value; the one assumption
//! this module makes of the clock is that it advances, so that any fixed
//! deadline is overrun after finitely many readings.  A ghost fuel stands
//! for how many at-or-below-deadline readings remain, which is what lets
//! the poll loops prove they terminate.

use vstd::prelude::*;

verus! {

#[verifier::external_type_specification]
#[verifier::external_body]
pub struct ExInstant(std::time::Instant);

/// Relies on `std::time::Instant::now`: a fresh reading of the monotonic
/// clock, taken as the starting point of a poll loop.
#[verifier::external_body]
fn instant_now() -> std::time::Instant {
    std::time::Instant::now()
}

/// A start reading of the monotonic clock, paired with the deadline (in
/// nanoseconds) that the poll loop using it measures against.
pub struct PollClock {
    start: std::time::Instant,
    deadline: u128,
    fuel: Ghost<nat>,
}

impl PollClock {
    /// The deadline, in nanoseconds, that readings are measured against.
    pub closed spec fn deadline_nanos(&self) -> int {
        self.deadline as int
    }

    /// How many more readings may come in at or below the deadline.
    pub closed spec fn fuel(&self) -> nat {
        self.fuel@
    }

    /// A fresh poll clock: a reading of the monotonic clock taken now, the
    /// given deadline, and an arbitrary (finite) amount of fuel.
    pub(crate) fn start(deadline_nanos: u128) -> (c: PollClock)
        ensures
            c.deadline_nanos() == deadline_nanos,
    {
        PollClock { start: instant_now(), deadline: deadline_nanos, fuel: Ghost(arbitrary()) }
    }

    /// Relies on `std::time::Instant::elapsed`: the nanoseconds since the
    /// start reading, on the monotonic clock.  The value depends on when the
    /// call happens, so nothing is promised of it beyond the one liveness
    /// fact that the clock advances: a reading either comes in strictly past
    /// the deadline or spends one unit of the finite fuel, so at-or-below-
    /// deadline readings cannot go on forever.
    #[verifier::external_body]
    pub(crate) fn tick(&mut self) -> (elapsed: u128)
        ensures
            final(self).deadline_nanos() == old(self).deadline_nanos(),
            elapsed > old(self).deadline_nanos() || final(self).fuel() < old(self).fuel(),
    {
        self.start.elapsed().as_nanos()
    }
}

} // verus!

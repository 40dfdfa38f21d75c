//! The decision a poll loop takes after each try-acquire.
//!
//! All timed acquisitions in this crate share one algorithm: record a start
//! reading, then repeatedly try a non-blocking acquire; a success returns the
//! guard, a failure strictly past the timeout gives up, and any other failure
//! retries at once (no backoff, no sleep — a deliberate simplicity/CPU
//! tradeoff).  The decision itself is pure and fully specified here; the
//! loops in [`crate::blocking`] and [`crate::suspending`] only feed it what
//! the lock and the clock returned.

use vstd::prelude::*;

use crate::span::Span;

verus! {

/// What one round of the poll loop does next, `G` being the guard type of
/// the wrapped lock.
pub enum PollStep<G> {
    /// The try-acquire succeeded: hand this guard out.
    Acquired(G),
    /// The try-acquire failed and the deadline has not passed: poll again.
    Retry,
    /// The try-acquire failed strictly after the deadline: stop polling.
    GiveUp,
}

/// The poll-loop decision: a successful attempt is accepted whatever the
/// clock reads, and a failed attempt gives up exactly when the elapsed time
/// strictly exceeds the timeout (elapsed time equal to the timeout retries).
pub open spec fn step_spec<G>(attempt: Option<G>, elapsed: int, timeout: int) -> PollStep<G> {
    match attempt {
        Some(g) => PollStep::Acquired(g),
        None => if elapsed > timeout {
            PollStep::GiveUp
        } else {
            PollStep::Retry
        },
    }
}

/// One round of the shared poll loop, deciding from the attempt's outcome and
/// the elapsed time measured after it.
pub fn poll_step<G>(attempt: Option<G>, elapsed: &Span, timeout: &Span) -> (step: PollStep<G>)
    ensures
        step == step_spec(attempt, elapsed@, timeout@),
{
    match attempt {
        Some(g) => PollStep::Acquired(g),
        None => {
            if elapsed.exceeds(timeout) {
                PollStep::GiveUp
            } else {
                PollStep::Retry
            }
        },
    }
}

/// A successful try-acquire is accepted however much time has elapsed — even
/// with a timeout of zero, or with the deadline already passed, the loop's
/// first succeeding attempt yields the guard.  The elapsed-time check never
/// discards an acquired guard.
pub proof fn lemma_success_always_accepted<G>(g: G, elapsed: int, timeout: int)
    ensures
        step_spec(Some(g), elapsed, timeout) == PollStep::<G>::Acquired(g),
{
}

/// The deadline comparison is strict, and it alone separates retrying from
/// giving up: a failed attempt retries as long as the elapsed time is at most
/// the timeout (so elapsed time exactly equal to the timeout still earns at
/// least one more attempt), and gives up as soon as it strictly exceeds it.
pub proof fn lemma_deadline_strict<G>(elapsed: int, timeout: int)
    ensures
        elapsed <= timeout ==> step_spec::<G>(Option::None, elapsed, timeout) == PollStep::<G>::Retry,
        elapsed > timeout ==> step_spec::<G>(Option::None, elapsed, timeout) == PollStep::<G>::GiveUp,
{
}

} // verus!

//! A timeout-bounded wrapper around `std::sync::Mutex`, for thread-parallel
//! callers.

use vstd::prelude::*;

use std::sync::Mutex;
use std::sync::MutexGuard;

use crate::DEFAULT_TIMEOUT_SECS;
use crate::clock::PollClock;
use crate::poll::PollStep;
use crate::poll::poll_step;
use crate::span::NANOS_PER_SEC;
use crate::span::Span;

verus! {

#[verifier::external_type_specification]
#[verifier::external_body]
#[verifier::reject_recursive_types(T)]
pub struct ExMutex<T: ?Sized>(Mutex<T>);

#[verifier::external_type_specification]
#[verifier::external_body]
#[verifier::reject_recursive_types(T)]
pub struct ExMutexGuard<'a, T: ?Sized + 'a>(MutexGuard<'a, T>);

/// Relies on `std::sync::Mutex::new`: wraps `value` in a fresh, unlocked
/// exclusion lock.
#[verifier::external_body]
fn mutex_new<T>(value: T) -> Mutex<T> {
    Mutex::new(value)
}

/// Relies on `std::sync::Mutex::try_lock`: one non-blocking attempt, which
/// returns a guard exactly when the lock was free (and not poisoned) at that
/// instant.  Whether it succeeds depends on concurrent holders, so nothing is
/// promised of the outcome.
#[verifier::external_body]
fn mutex_try_lock<'a, T>(mutex: &'a Mutex<T>) -> Option<MutexGuard<'a, T>> {
    mutex.try_lock().ok()
}

/// A wrapper around `std::sync::Mutex` whose acquisition gives up after a
/// timeout fixed at construction.
#[verifier::reject_recursive_types(T)]
pub struct MutexWithTimeout<T> {
    inner: Mutex<T>,
    timeout: Span,
}

impl<T> MutexWithTimeout<T> {
    /// The configured timeout, in nanoseconds, fixed at construction.
    pub closed spec fn timeout_nanos(&self) -> int {
        self.timeout@
    }

    /// Creates a new `MutexWithTimeout` with the default timeout.
    pub fn new(value: T) -> (m: Self)
        ensures
            m.timeout_nanos() == DEFAULT_TIMEOUT_SECS * NANOS_PER_SEC,
    {
        Self { inner: mutex_new(value), timeout: Span::from_secs(DEFAULT_TIMEOUT_SECS) }
    }

    /// Creates a new `MutexWithTimeout` with the given timeout.
    pub fn new_with_timeout(value: T, timeout: Span) -> (m: Self)
        ensures
            m.timeout_nanos() == timeout@,
    {
        Self { inner: mutex_new(value), timeout }
    }

    /// The timeout this lock was constructed with.
    pub fn timeout(&self) -> (t: Span)
        ensures
            t@ == self.timeout_nanos(),
    {
        self.timeout
    }

    /// Polls the wrapped lock's try-acquire until it succeeds or the timeout
    /// elapses: a guard on success, nothing once the elapsed time strictly
    /// exceeds the timeout.  Each round decides by [`poll_step`], so at least
    /// one attempt is made however short the timeout, and whether a guard
    /// comes back depends only on concurrent holders and the clock.
    /// Termination rests on the clock advancing: the loop spends one unit of
    /// the poll clock's fuel on every round that stays within the timeout.
    pub fn lock(&self) -> Option<MutexGuard<'_, T>> {
        let mut clock = PollClock::start(self.timeout.nanos());
        loop
            invariant
                clock.deadline_nanos() == self.timeout_nanos(),
            decreases clock.fuel(),
        {
            let attempt = mutex_try_lock(&self.inner);
            let elapsed = Span::from_nanos(clock.tick());
            match poll_step(attempt, &elapsed, &self.timeout) {
                PollStep::Acquired(guard) => {
                    return Some(guard);
                },
                PollStep::GiveUp => {
                    return None;
                },
                PollStep::Retry => {},
            }
        }
    }

    /// One non-blocking attempt on the wrapped lock, with no polling and no
    /// regard for the timeout: a guard exactly when the attempt succeeded.
    pub fn try_lock(&self) -> Option<MutexGuard<'_, T>> {
        mutex_try_lock(&self.inner)
    }
}

} // verus!

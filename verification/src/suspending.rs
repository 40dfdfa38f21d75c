//! Timeout-bounded wrappers around `tokio::sync::Mutex`, for cooperatively
//! scheduled callers.
//!
//! The acquisition logic here is the same poll loop as in
//! [`crate::blocking`]; only the wrapped exclusion primitive differs.  The
//! loop itself never suspends, so a host runtime that exposes these
//! operations as suspension points yields only at the call boundary — that
//! plumbing is ordinary unverified code around this crate.

use vstd::prelude::*;

use tokio::sync::Mutex;
use tokio::sync::MutexGuard;

use crate::DEFAULT_TIMEOUT_SECS;
use crate::clock::PollClock;
use crate::poll::PollStep;
use crate::poll::poll_step;
use crate::span::NANOS_PER_SEC;
use crate::span::Span;

verus! {

#[verifier::external_type_specification]
#[verifier::external_body]
#[verifier::reject_recursive_types(T)]
pub struct ExMutex<T: ?Sized>(Mutex<T>);

#[verifier::external_type_specification]
#[verifier::external_body]
#[verifier::reject_recursive_types(T)]
pub struct ExMutexGuard<'a, T: ?Sized>(MutexGuard<'a, T>);

/// Relies on `tokio::sync::Mutex::new`: wraps `value` in a fresh, unlocked
/// exclusion lock.
#[verifier::external_body]
fn mutex_new<T>(value: T) -> Mutex<T> {
    Mutex::new(value)
}

/// Relies on `tokio::sync::Mutex::try_lock`: one non-blocking attempt, which
/// returns a guard exactly when the lock was free at that instant.  Whether
/// it succeeds depends on concurrent holders, so nothing is promised of the
/// outcome.
#[verifier::external_body]
fn mutex_try_lock<'a, T>(mutex: &'a Mutex<T>) -> Option<MutexGuard<'a, T>> {
    mutex.try_lock().ok()
}

/// Relies on `Option::expect`: called on an empty option it panics with the
/// given message, so this call never returns.  It is the process-fatal exit
/// of [`MutexWithTimeoutAuto::lock`], whose diagnostic carries the
/// configured timeout.
#[verifier::external_body]
fn timeout_abort<'a, T>(timeout_nanos: u128) -> MutexGuard<'a, T> {
    let message = format!("MutexWithTimeoutAuto lock timed out after {} ns", timeout_nanos);
    None.expect(&message)
}

/// A wrapper around `tokio::sync::Mutex` whose acquisition gives up after a
/// timeout fixed at construction.
#[verifier::reject_recursive_types(T)]
pub struct MutexWithTimeout<T> {
    inner: Mutex<T>,
    timeout: Span,
}

impl<T> MutexWithTimeout<T> {
    /// The configured timeout, in nanoseconds, fixed at construction.
    pub closed spec fn timeout_nanos(&self) -> int {
        self.timeout@
    }

    /// Creates a new `MutexWithTimeout` with the default timeout.
    pub fn new(value: T) -> (m: Self)
        ensures
            m.timeout_nanos() == DEFAULT_TIMEOUT_SECS * NANOS_PER_SEC,
    {
        Self { inner: mutex_new(value), timeout: Span::from_secs(DEFAULT_TIMEOUT_SECS) }
    }

    /// Creates a new `MutexWithTimeout` with the given timeout.
    pub fn new_with_timeout(value: T, timeout: Span) -> (m: Self)
        ensures
            m.timeout_nanos() == timeout@,
    {
        Self { inner: mutex_new(value), timeout }
    }

    /// The timeout this lock was constructed with.
    pub fn timeout(&self) -> (t: Span)
        ensures
            t@ == self.timeout_nanos(),
    {
        self.timeout
    }

    /// Polls the wrapped lock's try-acquire until it succeeds or the timeout
    /// elapses: a guard on success, nothing once the elapsed time strictly
    /// exceeds the timeout.  Each round decides by [`poll_step`], so at least
    /// one attempt is made however short the timeout, and whether a guard
    /// comes back depends only on concurrent holders and the clock.
    /// Termination rests on the clock advancing: the loop spends one unit of
    /// the poll clock's fuel on every round that stays within the timeout.
    pub fn lock(&self) -> Option<MutexGuard<'_, T>> {
        let mut clock = PollClock::start(self.timeout.nanos());
        loop
            invariant
                clock.deadline_nanos() == self.timeout_nanos(),
            decreases clock.fuel(),
        {
            let attempt = mutex_try_lock(&self.inner);
            let elapsed = Span::from_nanos(clock.tick());
            match poll_step(attempt, &elapsed, &self.timeout) {
                PollStep::Acquired(guard) => {
                    return Some(guard);
                },
                PollStep::GiveUp => {
                    return None;
                },
                PollStep::Retry => {},
            }
        }
    }

    /// One non-blocking attempt on the wrapped lock, with no polling and no
    /// regard for the timeout: a guard exactly when the attempt succeeded.
    pub fn try_lock(&self) -> Option<MutexGuard<'_, T>> {
        mutex_try_lock(&self.inner)
    }
}

/// A [`MutexWithTimeout`] that aborts the acquiring thread instead of
/// returning emptily when the timeout elapses.  It stands in for a plain,
/// infallible exclusion lock where a caller wants timeout protection purely
/// as a hang detector, not as a recoverable condition.
#[verifier::reject_recursive_types(T)]
pub struct MutexWithTimeoutAuto<T> {
    inner: Mutex<T>,
    timeout: Span,
}

impl<T> MutexWithTimeoutAuto<T> {
    /// The configured timeout, in nanoseconds, fixed at construction.
    pub closed spec fn timeout_nanos(&self) -> int {
        self.timeout@
    }

    /// Creates a new `MutexWithTimeoutAuto` with the default timeout.
    pub fn new(value: T) -> (m: Self)
        ensures
            m.timeout_nanos() == DEFAULT_TIMEOUT_SECS * NANOS_PER_SEC,
    {
        Self { inner: mutex_new(value), timeout: Span::from_secs(DEFAULT_TIMEOUT_SECS) }
    }

    /// Creates a new `MutexWithTimeoutAuto` with the given timeout.
    pub fn new_with_timeout(value: T, timeout: Span) -> (m: Self)
        ensures
            m.timeout_nanos() == timeout@,
    {
        Self { inner: mutex_new(value), timeout }
    }

    /// The timeout this lock was constructed with.
    pub fn timeout(&self) -> (t: Span)
        ensures
            t@ == self.timeout_nanos(),
    {
        self.timeout
    }

    /// The same poll loop as [`MutexWithTimeout::lock`], but the guard is
    /// returned directly: when the timeout elapses before any attempt
    /// succeeds, the acquiring thread is aborted through [`timeout_abort`]
    /// with a diagnostic carrying the configured timeout, the one abnormal
    /// exit in this crate.
    pub fn lock(&self) -> MutexGuard<'_, T> {
        let mut clock = PollClock::start(self.timeout.nanos());
        loop
            invariant
                clock.deadline_nanos() == self.timeout_nanos(),
            decreases clock.fuel(),
        {
            let attempt = mutex_try_lock(&self.inner);
            let elapsed = Span::from_nanos(clock.tick());
            match poll_step(attempt, &elapsed, &self.timeout) {
                PollStep::Acquired(guard) => {
                    return guard;
                },
                PollStep::GiveUp => {
                    return timeout_abort(self.timeout.nanos());
                },
                PollStep::Retry => {},
            }
        }
    }

    /// One non-blocking attempt on the wrapped lock, with no polling and no
    /// regard for the timeout: a guard exactly when the attempt succeeded.
    pub fn try_lock(&self) -> Option<MutexGuard<'_, T>> {
        mutex_try_lock(&self.inner)
    }
}

} // verus!

//! Mutual-exclusion locks whose acquisition waits a bounded amount of time.
//!
//! Each lock wraps an already-correct exclusion primitive and drives a poll
//! loop against its non-blocking try-acquire until the acquire succeeds or a
//! configured timeout elapses.  The [`blocking`] flavor wraps
//! `std::sync::Mutex`; the [`suspending`] flavor wraps `tokio::sync::Mutex`.

use vstd::prelude::*;

pub mod blocking;
pub mod clock;
pub mod poll;
pub mod span;
pub mod suspending;

verus! {

/// Seconds a lock created without an explicit timeout waits before giving up.
pub const DEFAULT_TIMEOUT_SECS: u64 = 5;

} // verus!

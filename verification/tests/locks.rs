use std::time::Duration;
use std::time::Instant;

use mutex_timeouts::blocking;
use mutex_timeouts::span::Span;
use mutex_timeouts::suspending;

#[test]
fn test_lock() {
    let mutex = blocking::MutexWithTimeout::new_with_timeout((), Span::from_secs(1));
    let _guard = mutex.lock().unwrap();
}

#[test]
fn zero_timeout_uncontended_lock_succeeds() {
    let mutex = blocking::MutexWithTimeout::new_with_timeout(1, Span::from_secs(0));
    assert!(mutex.lock().is_some());
}

#[test]
fn zero_timeout_uncontended_lock_succeeds_suspending() {
    let mutex = suspending::MutexWithTimeout::new_with_timeout(1, Span::from_secs(0));
    assert!(mutex.lock().is_some());
}

#[test]
fn zero_timeout_uncontended_lock_succeeds_auto() {
    let mutex = suspending::MutexWithTimeoutAuto::new_with_timeout(1, Span::from_secs(0));
    let guard = mutex.lock();
    assert_eq!(*guard, 1);
}

#[test]
fn contended_lock_times_out_after_deadline() {
    let mutex = blocking::MutexWithTimeout::new_with_timeout(0, Span::from_millis(50));
    let _held = mutex.try_lock().unwrap();
    let started = Instant::now();
    assert!(mutex.lock().is_none());
    let waited = started.elapsed();
    assert!(waited >= Duration::from_millis(50));
    assert!(waited < Duration::from_secs(5));
}

#[test]
fn contended_lock_times_out_after_deadline_suspending() {
    let mutex = suspending::MutexWithTimeout::new_with_timeout(0, Span::from_millis(50));
    let _held = mutex.try_lock().unwrap();
    let started = Instant::now();
    assert!(mutex.lock().is_none());
    let waited = started.elapsed();
    assert!(waited >= Duration::from_millis(50));
    assert!(waited < Duration::from_secs(5));
}

#[test]
fn try_lock_does_not_wait_for_the_timeout() {
    let mutex = blocking::MutexWithTimeout::new_with_timeout(0, Span::from_secs(1000));
    let held = mutex.try_lock().unwrap();
    let started = Instant::now();
    assert!(mutex.try_lock().is_none());
    assert!(started.elapsed() < Duration::from_secs(1));
    drop(held);
}

#[test]
fn try_lock_does_not_wait_for_the_timeout_suspending() {
    let mutex = suspending::MutexWithTimeout::new_with_timeout(0, Span::from_secs(1000));
    let held = mutex.try_lock().unwrap();
    let started = Instant::now();
    assert!(mutex.try_lock().is_none());
    assert!(started.elapsed() < Duration::from_secs(1));
    drop(held);
}

#[test]
fn try_lock_does_not_wait_for_the_timeout_auto() {
    let mutex = suspending::MutexWithTimeoutAuto::new_with_timeout(0, Span::from_secs(1000));
    let held = mutex.try_lock().unwrap();
    let started = Instant::now();
    assert!(mutex.try_lock().is_none());
    assert!(started.elapsed() < Duration::from_secs(1));
    drop(held);
}

#[test]
fn default_constructor_uses_five_second_timeout() {
    assert_eq!(blocking::MutexWithTimeout::new(0).timeout(), Span::from_secs(5));
    assert_eq!(suspending::MutexWithTimeout::new(0).timeout(), Span::from_secs(5));
    assert_eq!(suspending::MutexWithTimeoutAuto::new(0).timeout(), Span::from_secs(5));
}

#[test]
fn explicit_timeout_is_kept_as_given() {
    let timeout = Span::from_millis(200);
    assert_eq!(blocking::MutexWithTimeout::new_with_timeout(0, timeout).timeout(), timeout);
    assert_eq!(suspending::MutexWithTimeout::new_with_timeout(0, timeout).timeout(), timeout);
    assert_eq!(suspending::MutexWithTimeoutAuto::new_with_timeout(0, timeout).timeout(), timeout);
}

#[test]
fn dropped_guard_releases_the_lock() {
    let mutex = blocking::MutexWithTimeout::new_with_timeout(0, Span::from_millis(50));
    let guard = mutex.lock().unwrap();
    drop(guard);
    let guard = mutex.try_lock().unwrap();
    drop(guard);
    assert!(mutex.lock().is_some());
}

#[test]
fn dropped_guard_releases_the_lock_suspending() {
    let mutex = suspending::MutexWithTimeout::new_with_timeout(0, Span::from_millis(50));
    let guard = mutex.lock().unwrap();
    drop(guard);
    let guard = mutex.try_lock().unwrap();
    drop(guard);
    assert!(mutex.lock().is_some());
}

#[test]
fn dropped_guard_releases_the_lock_auto() {
    let mutex = suspending::MutexWithTimeoutAuto::new_with_timeout(0, Span::from_millis(50));
    let guard = mutex.lock();
    drop(guard);
    let guard = mutex.try_lock().unwrap();
    drop(guard);
    let _guard = mutex.lock();
}

#[test]
fn guard_gives_exclusive_access_to_the_value() {
    let mutex = blocking::MutexWithTimeout::new_with_timeout(10, Span::from_secs(1));
    {
        let mut guard = mutex.lock().unwrap();
        *guard += 32;
    }
    assert_eq!(*mutex.lock().unwrap(), 42);
}

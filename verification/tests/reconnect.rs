//! Capped exponential reconnection delays.

use portunus::time::Span;
use portunus::transport::reconnect::{ReconnectConfigError, ReconnectPolicy};

// Each contradictory or degenerate policy is refused with its own error.
#[test]
fn validates_reconnection_policy_boundaries() {
    assert_eq!(
        ReconnectPolicy::new(0, Span::from_secs(1), Span::from_secs(2)),
        Err(ReconnectConfigError::ZeroAttempts)
    );
    assert_eq!(
        ReconnectPolicy::new(1, Span::zero(), Span::from_secs(2)),
        Err(ReconnectConfigError::ZeroInitialDelay)
    );
    assert_eq!(
        ReconnectPolicy::new(1, Span::from_secs(1), Span::zero()),
        Err(ReconnectConfigError::ZeroMaximumDelay)
    );
    assert_eq!(
        ReconnectPolicy::new(1, Span::from_secs(3), Span::from_secs(2)),
        Err(ReconnectConfigError::InitialExceedsMaximum {
            initial: Span::from_secs(3),
            maximum: Span::from_secs(2),
        })
    );
}

// Delays double from the initial delay, stop at the cap, and end after the last attempt.
#[test]
fn computes_capped_exponential_reconnection_delays() {
    let policy = ReconnectPolicy::new(5, Span::from_secs(1), Span::from_secs(5)).unwrap();

    assert_eq!(policy.delay_for(0), None);
    assert_eq!(policy.delay_for(1), Some(Span::from_secs(1)));
    assert_eq!(policy.delay_for(2), Some(Span::from_secs(2)));
    assert_eq!(policy.delay_for(3), Some(Span::from_secs(4)));
    assert_eq!(policy.delay_for(4), Some(Span::from_secs(5)));
    assert_eq!(policy.delay_for(5), Some(Span::from_secs(5)));
    assert_eq!(policy.delay_for(6), None);
}

// The largest attempt number is answered with the cap.
#[test]
fn caps_large_attempt_numbers_in_constant_work() {
    let policy =
        ReconnectPolicy::new(u32::MAX, Span::from_nanos(1), Span::from_nanos(3)).unwrap();

    assert_eq!(policy.delay_for(u32::MAX), Some(Span::from_nanos(3)));
}

// An initial delay equal to the cap is valid and every attempt uses it.
#[test]
fn accepts_an_initial_delay_equal_to_the_cap() {
    let policy = ReconnectPolicy::new(3, Span::from_millis(250), Span::from_millis(250)).unwrap();
    assert_eq!(policy.max_attempts(), 3);
    assert_eq!(policy.delay_for(1), Some(Span::from_millis(250)));
    assert_eq!(policy.delay_for(3), Some(Span::from_millis(250)));
    assert_eq!(policy.delay_for(4), None);
}

// Doubling continues past 32 attempts until the cap is reached.
#[test]
fn keeps_doubling_past_thirty_two_attempts() {
    let policy =
        ReconnectPolicy::new(100, Span::from_nanos(1), Span::from_secs(10_000)).unwrap();
    assert_eq!(policy.delay_for(11), Some(Span::from_nanos(1024)));
    assert_eq!(policy.delay_for(40), Some(Span::from_nanos(1 << 39)));
    assert_eq!(policy.delay_for(60), Some(Span::from_secs(10_000)));
    let capped = ReconnectPolicy::new(40, Span::from_nanos(1), Span::from_secs(10)).unwrap();
    assert_eq!(capped.delay_for(40), Some(Span::from_secs(10)));
}

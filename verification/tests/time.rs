//! Monotonic instants and saturating spans.

use portunus::time::{Moment, Span};

// Unit constructors agree, and scaling saturates instead of overflowing.
#[test]
fn converts_units_and_saturates_scaling() {
    assert_eq!(Span::from_secs(2), Span::from_millis(2_000));
    assert_eq!(Span::from_millis(3).as_nanos(), 3_000_000);
    assert!(Span::zero().is_zero());
    assert_eq!(Span::from_secs(1).saturating_mul(3), Span::from_secs(3));
    assert_eq!(Span::max_value().saturating_mul(2), Span::max_value());
    assert_eq!(Span::from_secs(5).min(Span::from_secs(2)), Span::from_secs(2));
    assert!(Span::from_nanos(1).le(Span::from_nanos(1)));
}

// Instant arithmetic is checked and elapsed time never goes negative.
#[test]
fn checks_instant_arithmetic() {
    let start = Moment::from_nanos(10);
    assert_eq!(start.checked_sub(Span::from_nanos(10)), Some(Moment::from_nanos(0)));
    assert_eq!(start.checked_sub(Span::from_nanos(11)), None);
    assert_eq!(Moment::from_nanos(u64::MAX).checked_add(Span::from_nanos(1)), None);
    assert_eq!(start.checked_add(Span::from_nanos(5)).unwrap().as_nanos(), 15);
    assert_eq!(start.saturating_duration_since(Moment::from_nanos(20)), Span::zero());
    assert_eq!(
        Moment::from_nanos(20).saturating_duration_since(start),
        Span::from_nanos(10)
    );
    assert_eq!(start.max(Moment::from_nanos(3)), start);
}

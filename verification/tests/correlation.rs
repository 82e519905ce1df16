//! Bounded request/response correlation with inclusive deadlines.

use portunus::time::{Moment, Span};
use portunus::transport::correlation::{CorrelationError, CorrelationId, CorrelationTable};

fn origin() -> Moment {
    Moment::from_nanos(1_000_000_000)
}

fn after(moment: Moment, span: Span) -> Moment {
    moment.checked_add(span).unwrap()
}

// One entry fits a one-entry table; the next distinct id is refused and handed back.
#[test]
fn enforces_the_exact_in_flight_boundary() {
    let now = origin();
    let mut table = CorrelationTable::new(1).unwrap();
    table
        .insert(CorrelationId::new(7), after(now, Span::from_secs(1)), "first")
        .unwrap();

    let rejected = table
        .insert(CorrelationId::new(8), after(now, Span::from_secs(1)), "second")
        .unwrap_err();
    assert_eq!(rejected.reason(), CorrelationError::AtCapacity { limit: 1 });
    assert_eq!(rejected.into_value(), "second");
    assert_eq!(table.len(), 1);
}

// Zero capacity is refused; a duplicate id is refused and the first entry is kept.
#[test]
fn rejects_zero_capacity_and_duplicate_ids() {
    assert!(matches!(
        CorrelationTable::<()>::new(0),
        Err(CorrelationError::ZeroCapacity)
    ));
    let now = origin();
    let id = CorrelationId::new(11);
    let mut table = CorrelationTable::new(2).unwrap();
    table.insert(id, now, "original").unwrap();

    let rejected = table.insert(id, now, "replacement").unwrap_err();
    assert_eq!(rejected.reason(), CorrelationError::Duplicate { id });
    assert_eq!(rejected.into_value(), "replacement");
    assert_eq!(table.resolve(id), Some("original"));
}

// Deadlines at or before `now` expire in id order; later ones remain resolvable.
#[test]
fn expires_deadlines_inclusively_and_resolves_remaining_requests() {
    let now = origin();
    let mut table = CorrelationTable::new(3).unwrap();
    table
        .insert(
            CorrelationId::new(3),
            now.checked_sub(Span::from_nanos(1)).unwrap(),
            "past",
        )
        .unwrap();
    table.insert(CorrelationId::new(1), now, "exact").unwrap();
    table
        .insert(CorrelationId::new(2), after(now, Span::from_nanos(1)), "future")
        .unwrap();

    assert_eq!(
        table.expire_at(now),
        vec![
            (CorrelationId::new(1), "exact"),
            (CorrelationId::new(3), "past"),
        ]
    );
    assert_eq!(table.resolve(CorrelationId::new(2)), Some("future"));
    assert!(table.is_empty());
}

// Resolving twice yields the value once; an unknown id resolves to nothing.
#[test]
fn resolves_each_request_at_most_once() {
    let mut table = CorrelationTable::new(2).unwrap();
    table.insert(CorrelationId::new(5), origin(), 50u32).unwrap();
    assert_eq!(table.resolve(CorrelationId::new(6)), None);
    assert_eq!(table.resolve(CorrelationId::new(5)), Some(50));
    assert_eq!(table.resolve(CorrelationId::new(5)), None);
    assert_eq!(CorrelationId::new(5).get(), 5);
    assert!(table.expire_at(origin()).is_empty());
}

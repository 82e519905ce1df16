//! Heartbeat, idle-eviction and connection-deadline decisions.

use portunus::time::{Moment, Span};
use portunus::transport::timing::{ConnectionTimer, TimingAction, TimingConfig, TimingConfigError};

fn origin() -> Moment {
    Moment::from_nanos(5_000_000_000)
}

fn at(offset: Span) -> Moment {
    origin().checked_add(offset).unwrap()
}

// Zero durations and an idle timeout shorter than the heartbeat are refused.
#[test]
fn validates_connection_timing_boundaries() {
    assert_eq!(
        TimingConfig::new(Span::zero(), Span::from_secs(1)),
        Err(TimingConfigError::ZeroHeartbeat)
    );
    assert_eq!(
        TimingConfig::new(Span::from_secs(1), Span::zero()),
        Err(TimingConfigError::ZeroIdle)
    );
    assert_eq!(
        TimingConfig::new(Span::from_secs(2), Span::from_secs(1)),
        Err(TimingConfigError::IdleBeforeHeartbeat {
            heartbeat: Span::from_secs(2),
            idle: Span::from_secs(1),
        })
    );
    assert!(TimingConfig::new(Span::from_secs(1), Span::from_secs(1)).is_ok());
}

// Nothing is due a nanosecond early; heartbeat and idle eviction are inclusive.
#[test]
fn evaluates_heartbeat_and_idle_boundaries_deterministically() {
    let config = TimingConfig::new(Span::from_secs(2), Span::from_secs(5)).unwrap();
    let mut timer = ConnectionTimer::new(config, origin(), at(Span::from_secs(20))).unwrap();

    assert_eq!(
        timer.evaluate(at(Span::from_secs(2)).checked_sub(Span::from_nanos(1)).unwrap()),
        TimingAction::Wait
    );
    assert_eq!(timer.evaluate(at(Span::from_secs(2))), TimingAction::HeartbeatDue);
    timer.record_outbound(at(Span::from_secs(2)));
    assert_eq!(timer.evaluate(at(Span::from_secs(5))), TimingAction::IdleEviction);
}

// Inbound activity postpones eviction; the deadline wins when limits coincide.
#[test]
fn records_activity_and_prioritizes_connection_deadlines() {
    let config = TimingConfig::new(Span::from_secs(2), Span::from_secs(5)).unwrap();
    let deadline = at(Span::from_secs(6));
    let mut timer = ConnectionTimer::new(config, origin(), deadline).unwrap();
    timer.record_inbound(at(Span::from_secs(4)));

    assert_ne!(timer.evaluate(at(Span::from_secs(5))), TimingAction::IdleEviction);
    assert_eq!(timer.evaluate(deadline), TimingAction::DeadlineElapsed);
}

// A deadline equal to the start is refused with both instants.
#[test]
fn rejects_an_elapsed_initial_connection_deadline() {
    let config = TimingConfig::new(Span::from_secs(1), Span::from_secs(2)).unwrap();

    assert_eq!(
        ConnectionTimer::new(config, origin(), origin()),
        Err(TimingConfigError::DeadlineElapsed {
            started_at: origin(),
            deadline: origin(),
        })
    );
}

// The next wakeup is the earliest of heartbeat, idle and deadline instants.
#[test]
fn schedules_the_next_wakeup_at_the_earliest_boundary() {
    let config = TimingConfig::new(Span::from_secs(2), Span::from_secs(5)).unwrap();
    let mut timer = ConnectionTimer::new(config, origin(), at(Span::from_secs(3))).unwrap();
    assert_eq!(timer.next_wakeup(), at(Span::from_secs(2)));
    timer.record_outbound(at(Span::from_secs(2)));
    assert_eq!(timer.next_wakeup(), at(Span::from_secs(3)));
    assert_eq!(timer.terminal_wakeup(), at(Span::from_secs(3)));
    assert_eq!(config.heartbeat(), Span::from_secs(2));
    assert_eq!(config.idle(), Span::from_secs(5));
}

// Activity recorded at an earlier instant than the last never moves time backwards.
#[test]
fn ignores_out_of_order_activity() {
    let config = TimingConfig::new(Span::from_secs(2), Span::from_secs(5)).unwrap();
    let mut timer = ConnectionTimer::new(config, origin(), at(Span::from_secs(60))).unwrap();
    timer.record_inbound(at(Span::from_secs(10)));
    timer.record_outbound(at(Span::from_secs(10)));
    timer.record_inbound(at(Span::from_secs(1)));
    timer.record_outbound(at(Span::from_secs(1)));
    assert_eq!(timer.evaluate(at(Span::from_secs(11))), TimingAction::Wait);
    assert_eq!(timer.evaluate(at(Span::from_secs(12))), TimingAction::HeartbeatDue);
}

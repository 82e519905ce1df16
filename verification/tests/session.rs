//! Session capacities and the connection lifecycle.

use portunus::transport::session::{
    LifecycleEvent, SessionConfig, SessionConfigError, SessionMachine, SessionState,
    TransitionError,
};

// One is the inclusive lower bound of every capacity.
#[test]
fn accepts_exact_minimum_session_capacities() {
    let config = SessionConfig::new(1, 1, 1).unwrap();

    assert_eq!(config.inbound_capacity(), 1);
    assert_eq!(config.outbound_capacity(), 1);
    assert_eq!(config.max_in_flight(), 1);
}

// Each zero capacity is named in its error.
#[test]
fn rejects_each_zero_session_capacity() {
    assert_eq!(
        SessionConfig::new(0, 1, 1),
        Err(SessionConfigError::ZeroCapacity {
            resource: "inbound"
        })
    );
    assert_eq!(
        SessionConfig::new(1, 0, 1),
        Err(SessionConfigError::ZeroCapacity {
            resource: "outbound"
        })
    );
    assert_eq!(
        SessionConfig::new(1, 1, 0),
        Err(SessionConfigError::ZeroCapacity {
            resource: "in_flight"
        })
    );
}

// Connected, drain and close move through every state in order.
#[test]
fn advances_through_the_session_lifecycle() {
    let mut machine = SessionMachine::new();
    assert_eq!(machine.state(), SessionState::Connecting);

    machine.apply(LifecycleEvent::Connected).unwrap();
    assert_eq!(machine.state(), SessionState::Active);
    machine.apply(LifecycleEvent::DrainRequested).unwrap();
    assert_eq!(machine.state(), SessionState::Draining);
    machine.apply(LifecycleEvent::TransportClosed).unwrap();
    assert_eq!(machine.state(), SessionState::Closed);
}

// A drain before connecting is refused and leaves the state alone.
#[test]
fn rejects_invalid_lifecycle_transitions_without_mutation() {
    let mut machine = SessionMachine::new();
    assert_eq!(
        machine.apply(LifecycleEvent::DrainRequested),
        Err(TransitionError {
            state: SessionState::Connecting,
            event: LifecycleEvent::DrainRequested,
        })
    );
    assert_eq!(machine.state(), SessionState::Connecting);
}

// The transport may close from any state; nothing leaves the closed state.
#[test]
fn transport_close_ends_every_state_and_closed_is_terminal() {
    let mut machine = SessionMachine::default();
    assert_eq!(
        machine.apply(LifecycleEvent::TransportClosed),
        Ok(SessionState::Closed)
    );
    for event in [
        LifecycleEvent::Connected,
        LifecycleEvent::DrainRequested,
        LifecycleEvent::TransportClosed,
    ] {
        assert_eq!(
            machine.apply(event),
            Err(TransitionError {
                state: SessionState::Closed,
                event,
            })
        );
        assert_eq!(machine.state(), SessionState::Closed);
    }
}

// Connecting twice is refused once active.
#[test]
fn rejects_a_second_connection_event() {
    let mut machine = SessionMachine::new();
    machine.apply(LifecycleEvent::Connected).unwrap();
    assert_eq!(
        machine.apply(LifecycleEvent::Connected),
        Err(TransitionError {
            state: SessionState::Active,
            event: LifecycleEvent::Connected,
        })
    );
    assert_eq!(machine.state(), SessionState::Active);
}

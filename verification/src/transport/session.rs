//! Protocol-neutral framed-session configuration and lifecycle policy.
//!
//! Queue capacities and correlated in-flight work are independent inclusive
//! budgets. The lifecycle machine accepts only explicit transitions and preserves
//! its state on rejection.
//!
//! ```text
//! Connecting ──connected──> Active ──drain──> Draining ──closed──> Closed
//!      └──────────────── transport closed ────────────────────────>┘
//! ```
//!
//! This module defines policy and state only. It does not perform socket I/O,
//! encode protocol messages, spawn tasks, or reconnect.

use vstd::prelude::*;

verus! {

/// Independent inclusive resource ceilings for one framed session.
#[derive(Debug, Clone, Copy, PartialEq, Eq, Structural)]
pub struct SessionConfig {
    inbound_capacity: usize,
    outbound_capacity: usize,
    max_in_flight: usize,
}

/// Stable session configuration validation failures.
#[derive(Debug, Clone, Copy, PartialEq, Eq)]
pub enum SessionConfigError {
    ZeroCapacity { resource: &'static str },
}

impl SessionConfig {
    #[verifier::type_invariant]
    closed spec fn capacities_positive(self) -> bool {
        self.inbound_capacity > 0 && self.outbound_capacity > 0 && self.max_in_flight > 0
    }

    /// Maximum decoded frames waiting for consumers.
    pub closed spec fn spec_inbound_capacity(self) -> nat {
        self.inbound_capacity as nat
    }

    /// Maximum outbound frames waiting for transport I/O.
    pub closed spec fn spec_outbound_capacity(self) -> nat {
        self.outbound_capacity as nat
    }

    /// Maximum requests awaiting correlated responses.
    pub closed spec fn spec_max_in_flight(self) -> nat {
        self.max_in_flight as nat
    }

    /// Creates validated resource budgets for one connection session.
    ///
    /// Budgets are checked in pipeline order (inbound, outbound, in-flight); the
    /// first zero is reported by name.
    pub fn new(inbound_capacity: usize, outbound_capacity: usize, max_in_flight: usize) -> (config:
        Result<Self, SessionConfigError>)
        ensures
            inbound_capacity == 0 ==> config == Err::<Self, SessionConfigError>(
                SessionConfigError::ZeroCapacity { resource: "inbound" },
            ),
            inbound_capacity != 0 && outbound_capacity == 0 ==> config == Err::<
                Self,
                SessionConfigError,
            >(SessionConfigError::ZeroCapacity { resource: "outbound" }),
            inbound_capacity != 0 && outbound_capacity != 0 && max_in_flight == 0 ==> config
                == Err::<Self, SessionConfigError>(
                SessionConfigError::ZeroCapacity { resource: "in_flight" },
            ),
            inbound_capacity != 0 && outbound_capacity != 0 && max_in_flight != 0 ==> (config matches Ok(
                c,
            ) && c.spec_inbound_capacity() == inbound_capacity && c.spec_outbound_capacity()
                == outbound_capacity && c.spec_max_in_flight() == max_in_flight),
    {
        if inbound_capacity == 0 {
            return Err(SessionConfigError::ZeroCapacity { resource: "inbound" });
        }
        if outbound_capacity == 0 {
            return Err(SessionConfigError::ZeroCapacity { resource: "outbound" });
        }
        if max_in_flight == 0 {
            return Err(SessionConfigError::ZeroCapacity { resource: "in_flight" });
        }
        Ok(SessionConfig { inbound_capacity, outbound_capacity, max_in_flight })
    }

    /// Returns the maximum decoded frames waiting for consumers.
    pub fn inbound_capacity(&self) -> (capacity: usize)
        ensures
            capacity == self.spec_inbound_capacity(),
            capacity > 0,
    {
        proof {
            use_type_invariant(self);
        }
        self.inbound_capacity
    }

    /// Returns the maximum outbound frames waiting for transport I/O.
    pub fn outbound_capacity(&self) -> (capacity: usize)
        ensures
            capacity == self.spec_outbound_capacity(),
            capacity > 0,
    {
        proof {
            use_type_invariant(self);
        }
        self.outbound_capacity
    }

    /// Returns the maximum requests awaiting correlated responses.
    pub fn max_in_flight(&self) -> (limit: usize)
        ensures
            limit == self.spec_max_in_flight(),
            limit > 0,
    {
        proof {
            use_type_invariant(self);
        }
        self.max_in_flight
    }
}

/// Externally observable connection lifecycle state.
#[derive(Debug, Clone, Copy, PartialEq, Eq, Structural)]
pub enum SessionState {
    Connecting,
    Active,
    Draining,
    Closed,
}

/// Events accepted by the protocol-neutral lifecycle machine.
#[derive(Debug, Clone, Copy, PartialEq, Eq, Structural)]
pub enum LifecycleEvent {
    Connected,
    DrainRequested,
    TransportClosed,
}

/// A rejected lifecycle transition with stable typed context.
#[derive(Debug, Clone, Copy, PartialEq, Eq, Structural)]
pub struct TransitionError {
    pub state: SessionState,
    pub event: LifecycleEvent,
}

/// The lifecycle transition table: the state `event` leads to from `state`,
/// or `None` when the pair is not a transition.
pub open spec fn lifecycle_next(state: SessionState, event: LifecycleEvent) -> Option<SessionState> {
    match (state, event) {
        (SessionState::Connecting, LifecycleEvent::Connected) => Some(SessionState::Active),
        (SessionState::Active, LifecycleEvent::DrainRequested) => Some(SessionState::Draining),
        (SessionState::Connecting, LifecycleEvent::TransportClosed) => Some(SessionState::Closed),
        (SessionState::Active, LifecycleEvent::TransportClosed) => Some(SessionState::Closed),
        (SessionState::Draining, LifecycleEvent::TransportClosed) => Some(SessionState::Closed),
        _ => None,
    }
}

/// Position of a state along the lifecycle, from connecting to closed.
pub open spec fn lifecycle_rank(state: SessionState) -> nat {
    match state {
        SessionState::Connecting => 0,
        SessionState::Active => 1,
        SessionState::Draining => 2,
        SessionState::Closed => 3,
    }
}

/// Deterministic lifecycle state owned by one connection task.
#[derive(Debug, Clone, Copy, PartialEq, Eq, Structural)]
pub struct SessionMachine {
    state: SessionState,
}

impl View for SessionMachine {
    type V = SessionState;

    closed spec fn view(&self) -> SessionState {
        self.state
    }
}

impl SessionMachine {
    /// Creates a session awaiting transport establishment.
    pub fn new() -> (machine: Self)
        ensures
            machine@ == SessionState::Connecting,
    {
        SessionMachine { state: SessionState::Connecting }
    }

    /// Returns the current externally observable lifecycle state.
    pub fn state(&self) -> (state: SessionState)
        ensures
            state == self@,
    {
        self.state
    }

    /// Applies one lifecycle event when valid for the current state.
    ///
    /// An accepted event moves to the next state of the transition table and
    /// returns it; any other pair is rejected with its source state and event,
    /// leaving the machine unchanged.
    pub fn apply(&mut self, event: LifecycleEvent) -> (result: Result<SessionState, TransitionError>)
        ensures
            lifecycle_next(old(self)@, event) matches Some(next) ==> {
                &&& result == Ok::<SessionState, TransitionError>(next)
                &&& final(self)@ == next
            },
            lifecycle_next(old(self)@, event) is None ==> {
                &&& result == Err::<SessionState, TransitionError>(
                    TransitionError { state: old(self)@, event },
                )
                &&& final(self)@ == old(self)@
            },
        no_unwind
    {
        let next = match (self.state, event) {
            (SessionState::Connecting, LifecycleEvent::Connected) => SessionState::Active,
            (SessionState::Connecting, LifecycleEvent::TransportClosed) => SessionState::Closed,
            (SessionState::Active, LifecycleEvent::TransportClosed) => SessionState::Closed,
            (SessionState::Draining, LifecycleEvent::TransportClosed) => SessionState::Closed,
            (SessionState::Active, LifecycleEvent::DrainRequested) => SessionState::Draining,
            _ => {
                return Err(TransitionError { state: self.state, event });
            },
        };
        self.state = next;
        Ok(next)
    }
}

impl Default for SessionMachine {
    /// Creates the default pre-connection lifecycle state, equal to [`SessionMachine::new`].
    fn default() -> (machine: Self)
        ensures
            machine@ == SessionState::Connecting,
    {
        Self::new()
    }
}

/// Every accepted lifecycle transition moves strictly forward, so a session
/// passes through at most three transitions before it is closed.
pub proof fn lemma_transitions_advance(state: SessionState, event: LifecycleEvent)
    ensures
        lifecycle_next(state, event) matches Some(next) ==> lifecycle_rank(next) > lifecycle_rank(
            state,
        ),
{
}

/// A closed session accepts no further event.
pub proof fn lemma_closed_is_terminal(event: LifecycleEvent)
    ensures
        lifecycle_next(SessionState::Closed, event) is None,
{
}

/// Transport closure is accepted from every state that is not yet closed, and
/// always leads to the closed state.
pub proof fn lemma_transport_close_always_closes(state: SessionState)
    requires
        state != SessionState::Closed,
    ensures
        lifecycle_next(state, LifecycleEvent::TransportClosed) == Some(SessionState::Closed),
{
}

/// Traffic states are reachable only in lifecycle order: the machine is active
/// only right after connecting, and draining only right after being active.
pub proof fn lemma_ordered_entry(state: SessionState, event: LifecycleEvent)
    ensures
        lifecycle_next(state, event) == Some(SessionState::Active) ==> state
            == SessionState::Connecting && event == LifecycleEvent::Connected,
        lifecycle_next(state, event) == Some(SessionState::Draining) ==> state
            == SessionState::Active && event == LifecycleEvent::DrainRequested,
{
}

} // verus!

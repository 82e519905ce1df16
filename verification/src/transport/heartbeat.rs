//! Heartbeat construction and timed-session startup failures.
//!
//! A timed session asks a [`HeartbeatFactory`] for one protocol heartbeat each
//! time outbound inactivity reaches the heartbeat interval; the factory keeps the
//! heartbeat representation outside the generic runtime policy.

use crate::transport::pool::BufferPoolError;
use crate::transport::timing::TimingConfigError;
use vstd::prelude::*;

verus! {

/// Protocol adapter that constructs one outbound heartbeat message on demand.
pub trait HeartbeatFactory<O>: Send + 'static {
    /// Whether the factory is able to produce a heartbeat in its current state.
    spec fn ready(&self) -> bool;

    /// Whether the factory, in its current state, may produce `heartbeat`.
    spec fn produces(&self, heartbeat: O) -> bool;

    /// Creates a fresh heartbeat without performing I/O; it is one the factory
    /// could produce in the state it was called in.
    fn heartbeat(&mut self) -> (heartbeat: O)
        requires
            old(self).ready(),
        ensures
            old(self).produces(heartbeat),
    ;
}

impl<O, F> HeartbeatFactory<O> for F where F: FnMut() -> O + Send + 'static {
    /// A closure is ready when its own precondition holds for no arguments.
    open spec fn ready(&self) -> bool {
        call_requires(*self, ())
    }

    /// A closure may produce exactly the values its own postcondition admits.
    open spec fn produces(&self, heartbeat: O) -> bool {
        call_ensures(*self, (), heartbeat)
    }

    /// Produces the closure's next value.
    fn heartbeat(&mut self) -> (heartbeat: O) {
        self()
    }
}

/// Stable combined startup failure for timed sessions using a shared pool.
#[derive(Debug, Clone, Copy, PartialEq, Eq, Structural)]
pub enum TimedSessionStartError {
    Timing(TimingConfigError),
    Pool(BufferPoolError),
}

} // verus!

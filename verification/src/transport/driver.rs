//! Decisions of the framed-session event loop.
//!
//! The asynchronous runtime owns the stream, codec, queues, and cancellation and
//! reports each completed step here; [`SessionDriver`] owns the lifecycle machine,
//! the buffer accountant, and the frame counters, and answers with the next
//! decision: how much may be read, whether to continue or close, and which stable
//! error ends the session.
//!
//! ```text
//! start ──> Active ──cancel──> Draining ──close──> report (Closed)
//!             └─────────────── close ───────────────┘
//! ```

use crate::transport::buffer::{
    BufferAccountant, BufferBudget, BufferDirection, BufferLimitError, BufferUsageView,
    usage_after_inbound, usage_after_outbound,
};
use crate::transport::report::{SessionError, SessionReport};
use crate::transport::session::{LifecycleEvent, SessionMachine, SessionState};
use crate::transport::timing::TimingAction;
use vstd::prelude::*;

verus! {

/// Compatibility logical limit for each buffer direction: one mebibyte.
pub const DEFAULT_BUFFER_BYTES: usize = 1048576;

/// Largest inbound allocation made when a session starts.
pub const INITIAL_INBOUND_CAPACITY: usize = 8192;

/// Whether the event loop keeps running or closes the session.
#[derive(Debug, Clone, Copy, PartialEq, Eq, Structural)]
pub enum Flow {
    Continue,
    Close,
}

/// What a draining session does next.
#[derive(Debug, Clone, Copy, PartialEq, Eq, Structural)]
pub enum DrainStep {
    /// Write the frame that was accepted before cancellation.
    WriteAccepted,
    /// Every accepted frame is written: close the session.
    Close,
}

/// Mathematical value of a [`SessionDriver`].
pub struct DriverView {
    pub state: SessionState,
    pub budget: BufferBudget,
    pub usage: BufferUsageView,
    pub inbound_frames: nat,
    pub outbound_frames: nat,
}

/// Lifecycle, accounting, and counters of one running session.
pub struct SessionDriver {
    machine: SessionMachine,
    accountant: BufferAccountant,
    inbound_frames: u64,
    outbound_frames: u64,
}

impl View for SessionDriver {
    type V = DriverView;

    closed spec fn view(&self) -> DriverView {
        DriverView {
            state: self.machine@,
            budget: self.accountant.spec_budget(),
            usage: self.accountant.spec_usage(),
            inbound_frames: self.inbound_frames as nat,
            outbound_frames: self.outbound_frames as nat,
        }
    }
}

/// The modest initial receive allocation: the inbound limit, capped at 8 KiB.
pub fn initial_inbound_capacity(budget: BufferBudget) -> (capacity: usize)
    ensures
        capacity == if budget.inbound_limit() < INITIAL_INBOUND_CAPACITY {
            budget.inbound_limit()
        } else {
            INITIAL_INBOUND_CAPACITY as nat
        },
        0 < capacity <= INITIAL_INBOUND_CAPACITY,
{
    let limit = budget.max_inbound_bytes();
    if limit < INITIAL_INBOUND_CAPACITY {
        limit
    } else {
        INITIAL_INBOUND_CAPACITY
    }
}

/// The compatibility budget of one mebibyte per direction.
pub fn default_buffer_budget() -> (budget: BufferBudget)
    ensures
        budget.inbound_limit() == DEFAULT_BUFFER_BYTES,
        budget.outbound_limit() == DEFAULT_BUFFER_BYTES,
{
    BufferBudget::new(DEFAULT_BUFFER_BYTES, DEFAULT_BUFFER_BYTES).unwrap()
}

/// The terminal failure for a timing action that ends a session: idle eviction
/// is reported as `idle`, and the deadline (or any non-terminal action) as
/// `deadline`.
pub fn terminal_error(action: TimingAction) -> (error: SessionError)
    ensures
        error.spec_operation() == if action == TimingAction::IdleEviction {
            "idle"
        } else {
            "deadline"
        },
        error.spec_kind() == crate::transport::report::ErrorKind::TimedOut,
{
    match action {
        TimingAction::IdleEviction => SessionError::timeout("idle"),
        _ => SessionError::timeout("deadline"),
    }
}

impl SessionDriver {
    #[verifier::type_invariant]
    closed spec fn running(self) -> bool {
        self.machine@ == SessionState::Active || self.machine@ == SessionState::Draining
    }

    /// Starts an established session: the lifecycle is active, counters and
    /// buffer peaks are zero.
    pub fn start(budget: BufferBudget) -> (driver: Self)
        ensures
            driver@ == (DriverView {
                state: SessionState::Active,
                budget,
                usage: crate::transport::buffer::zero_usage(),
                inbound_frames: 0,
                outbound_frames: 0,
            }),
    {
        let mut machine = SessionMachine::new();
        let _ = machine.apply(LifecycleEvent::Connected);
        SessionDriver {
            machine,
            accountant: BufferAccountant::new(budget),
            inbound_frames: 0,
            outbound_frames: 0,
        }
    }

    /// Returns the current lifecycle state.
    pub fn state(&self) -> (state: SessionState)
        ensures
            state == self@.state,
            state == SessionState::Active || state == SessionState::Draining,
    {
        proof {
            use_type_invariant(self);
        }
        self.machine.state()
    }

    /// Returns the number of inbound frames delivered so far.
    pub fn inbound_frames(&self) -> (count: u64)
        ensures
            count == self@.inbound_frames,
    {
        self.inbound_frames
    }

    /// Returns the number of outbound frames written so far.
    pub fn outbound_frames(&self) -> (count: u64)
        ensures
            count == self@.outbound_frames,
    {
        self.outbound_frames
    }

    /// Returns the enforced buffer budget.
    pub fn budget(&self) -> (budget: BufferBudget)
        ensures
            budget == self@.budget,
    {
        self.accountant.budget()
    }

    /// Bytes the next read may add to a receive buffer holding `buffered` bytes.
    ///
    /// A buffer already at the inbound limit holds an incomplete frame that can
    /// never complete, so it is a terminal `inbound_buffer` failure reporting one
    /// byte over the limit.
    pub fn read_allowance(&self, buffered: usize) -> (allowance: Result<usize, SessionError>)
        requires
            buffered <= self@.budget.inbound_limit(),
        ensures
            buffered < self@.budget.inbound_limit() ==> allowance == Ok::<usize, SessionError>(
                (self@.budget.inbound_limit() - buffered) as usize,
            ),
            buffered == self@.budget.inbound_limit() ==> (allowance matches Err(e)
                && e.spec_operation() == "inbound_buffer" && e.spec_kind()
                == crate::transport::report::ErrorKind::InvalidData),
    {
        let limit = self.accountant.budget().max_inbound_bytes();
        if buffered == limit {
            return Err(
                SessionError::buffer(
                    "inbound_buffer",
                    BufferLimitError {
                        direction: BufferDirection::Inbound,
                        attempted: limit.saturating_add(1),
                        limit,
                    },
                ),
            );
        }
        Ok(limit - buffered)
    }

    /// Accounts one completed read that left `buffered` bytes retained in a
    /// buffer of `capacity`; a read of zero bytes is end of stream.
    pub fn on_read(&mut self, read: usize, buffered: usize, capacity: usize) -> (flow: Result<
        Flow,
        SessionError,
    >)
        ensures
            final(self)@.state == old(self)@.state,
            final(self)@.budget == old(self)@.budget,
            final(self)@.inbound_frames == old(self)@.inbound_frames,
            final(self)@.outbound_frames == old(self)@.outbound_frames,
            buffered > old(self)@.budget.inbound_limit() ==> (flow matches Err(e)
                && e.spec_operation() == "inbound_buffer" && e.spec_kind()
                == crate::transport::report::ErrorKind::InvalidData) && final(self)@.usage == old(
                self,
            )@.usage,
            buffered <= old(self)@.budget.inbound_limit() ==> final(self)@.usage
                == usage_after_inbound(old(self)@.usage, buffered as nat, capacity as nat) && flow
                == Ok::<Flow, SessionError>(if read == 0 { Flow::Close } else { Flow::Continue }),
    {
        proof {
            use_type_invariant(&*self);
        }
        match self.accountant.observe_inbound(buffered, capacity) {
            Err(failure) => Err(SessionError::buffer("inbound_buffer", failure)),
            Ok(()) => {
                if read == 0 {
                    Ok(Flow::Close)
                } else {
                    Ok(Flow::Continue)
                }
            },
        }
    }

    /// Accounts one decoded frame handed to the application; a closed inbound
    /// queue closes the session instead.
    pub fn on_delivery(&mut self, delivered: bool) -> (flow: Flow)
        requires
            old(self)@.inbound_frames < u64::MAX,
        ensures
            flow == if delivered { Flow::Continue } else { Flow::Close },
            final(self)@ == (DriverView {
                inbound_frames: if delivered {
                    old(self)@.inbound_frames + 1
                } else {
                    old(self)@.inbound_frames
                },
                ..old(self)@
            }),
    {
        proof {
            use_type_invariant(&*self);
        }
        if delivered {
            self.inbound_frames = self.inbound_frames + 1;
            Flow::Continue
        } else {
            Flow::Close
        }
    }

    /// Accounts one encoded outbound frame of `encoded` bytes in a buffer of
    /// `capacity`, before any of it is written.
    pub fn on_encoded(&mut self, encoded: usize, capacity: usize) -> (accepted: Result<(), SessionError>)
        ensures
            final(self)@.state == old(self)@.state,
            final(self)@.budget == old(self)@.budget,
            final(self)@.inbound_frames == old(self)@.inbound_frames,
            final(self)@.outbound_frames == old(self)@.outbound_frames,
            encoded > old(self)@.budget.outbound_limit() ==> (accepted matches Err(e)
                && e.spec_operation() == "outbound_buffer" && e.spec_kind()
                == crate::transport::report::ErrorKind::InvalidData) && final(self)@.usage == old(
                self,
            )@.usage,
            encoded <= old(self)@.budget.outbound_limit() ==> accepted is Ok && final(self)@.usage
                == usage_after_outbound(old(self)@.usage, encoded as nat, capacity as nat),
    {
        proof {
            use_type_invariant(&*self);
        }
        match self.accountant.observe_outbound(encoded, capacity) {
            Err(failure) => Err(SessionError::buffer("outbound_buffer", failure)),
            Ok(()) => Ok(()),
        }
    }

    /// Counts one outbound frame written completely.
    pub fn on_written(&mut self)
        requires
            old(self)@.outbound_frames < u64::MAX,
        ensures
            final(self)@ == (DriverView {
                outbound_frames: old(self)@.outbound_frames + 1,
                ..old(self)@
            }),
    {
        proof {
            use_type_invariant(&*self);
        }
        self.outbound_frames = self.outbound_frames + 1;
    }

    /// Stops outbound admission: an active session starts draining the frames
    /// already accepted.
    pub fn on_cancelled(&mut self)
        requires
            old(self)@.state == SessionState::Active,
        ensures
            final(self)@ == (DriverView { state: SessionState::Draining, ..old(self)@ }),
    {
        proof {
            use_type_invariant(&*self);
        }
        let _ = self.machine.apply(LifecycleEvent::DrainRequested);
    }

    /// The next step of a draining session: while an accepted frame is still
    /// queued it is written, and the session closes only once none is left.
    pub fn drain_step(&self, frame_queued: bool) -> (step: DrainStep)
        requires
            self@.state == SessionState::Draining,
        ensures
            step == if frame_queued {
                DrainStep::WriteAccepted
            } else {
                DrainStep::Close
            },
    {
        if frame_queued {
            DrainStep::WriteAccepted
        } else {
            DrainStep::Close
        }
    }

    /// Closes the session and reports its terminal measurements.
    pub fn close(self) -> (report: SessionReport)
        ensures
            report@.final_state == SessionState::Closed,
            report@.inbound_frames == self@.inbound_frames,
            report@.outbound_frames == self@.outbound_frames,
            report@.buffer_usage == self@.usage,
            report@.buffer_usage.inbound_bytes <= self@.budget.inbound_limit(),
            report@.buffer_usage.outbound_bytes <= self@.budget.outbound_limit(),
    {
        proof {
            use_type_invariant(&self);
        }
        let mut machine = self.machine;
        let _ = machine.apply(LifecycleEvent::TransportClosed);
        SessionReport::new(
            machine.state(),
            self.inbound_frames,
            self.outbound_frames,
            self.accountant.usage(),
        )
    }
}

} // verus!

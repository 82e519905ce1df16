//! Deterministic connection deadline, heartbeat, and idle-eviction policy.
//!
//! The caller supplies every monotonic instant. Heartbeat and idle durations are
//! positive inclusive thresholds, idle cannot precede heartbeat opportunity, and
//! terminal connection deadlines take precedence over all liveness work.
//!
//! ```text
//! deadline elapsed? ─yes─> terminate
//!        │ no
//! idle elapsed? ─────yes─> evict
//!        │ no
//! heartbeat elapsed? yes─> emit heartbeat
//! ```
//!
//! This module does not sleep, read a clock, create heartbeat messages, perform
//! I/O, reconnect, or decide retryability after a terminal action.

use crate::time::{saturating_elapsed, Moment, Span};
use vstd::prelude::*;

verus! {

/// Validated heartbeat and idle thresholds for one connection.
#[derive(Debug, Clone, Copy, PartialEq, Eq, Structural)]
pub struct TimingConfig {
    heartbeat: Span,
    idle: Span,
}

/// Stable validation failures for connection timing policy.
#[derive(Debug, Clone, Copy, PartialEq, Eq, Structural)]
pub enum TimingConfigError {
    ZeroHeartbeat,
    ZeroIdle,
    IdleBeforeHeartbeat { heartbeat: Span, idle: Span },
    DeadlineElapsed { started_at: Moment, deadline: Moment },
}

impl TimingConfig {
    #[verifier::type_invariant]
    closed spec fn thresholds_ordered(self) -> bool {
        0 < self.heartbeat@ <= self.idle@
    }

    /// The outbound-inactivity heartbeat threshold.
    pub closed spec fn spec_heartbeat(self) -> Span {
        self.heartbeat
    }

    /// The inbound-inactivity eviction threshold.
    pub closed spec fn spec_idle(self) -> Span {
        self.idle
    }

    /// Creates positive liveness thresholds with heartbeat no later than idle.
    ///
    /// Zero heartbeat is reported first, then zero idle, then an idle threshold
    /// shorter than the heartbeat interval.
    pub fn new(heartbeat: Span, idle: Span) -> (config: Result<Self, TimingConfigError>)
        ensures
            heartbeat@ == 0 ==> config == Err::<Self, TimingConfigError>(
                TimingConfigError::ZeroHeartbeat,
            ),
            heartbeat@ != 0 && idle@ == 0 ==> config == Err::<Self, TimingConfigError>(
                TimingConfigError::ZeroIdle,
            ),
            heartbeat@ != 0 && idle@ != 0 && idle@ < heartbeat@ ==> config == Err::<
                Self,
                TimingConfigError,
            >(TimingConfigError::IdleBeforeHeartbeat { heartbeat, idle }),
            0 < heartbeat@ <= idle@ ==> (config matches Ok(c) && c.spec_heartbeat() == heartbeat
                && c.spec_idle() == idle),
    {
        if heartbeat.is_zero() {
            return Err(TimingConfigError::ZeroHeartbeat);
        }
        if idle.is_zero() {
            return Err(TimingConfigError::ZeroIdle);
        }
        if !heartbeat.le(idle) {
            return Err(TimingConfigError::IdleBeforeHeartbeat { heartbeat, idle });
        }
        Ok(TimingConfig { heartbeat, idle })
    }

    /// Returns the inclusive outbound-inactivity heartbeat threshold.
    pub fn heartbeat(&self) -> (heartbeat: Span)
        ensures
            heartbeat == self.spec_heartbeat(),
            0 < heartbeat@ <= self.spec_idle()@,
    {
        proof {
            use_type_invariant(self);
        }
        self.heartbeat
    }

    /// Returns the inclusive inbound-inactivity eviction threshold.
    pub fn idle(&self) -> (idle: Span)
        ensures
            idle == self.spec_idle(),
            0 < self.spec_heartbeat()@ <= idle@,
    {
        proof {
            use_type_invariant(self);
        }
        self.idle
    }
}

/// Mutually exclusive policy result at one explicit observation instant.
#[derive(Debug, Clone, Copy, PartialEq, Eq, Structural)]
pub enum TimingAction {
    Wait,
    HeartbeatDue,
    IdleEviction,
    DeadlineElapsed,
}

/// Mathematical value of a [`ConnectionTimer`], all in nanoseconds.
pub struct TimerView {
    pub heartbeat: nat,
    pub idle: nat,
    pub deadline: nat,
    pub last_inbound: nat,
    pub last_outbound: nat,
}

/// The action due at `now`: the deadline wins over idle eviction, which wins
/// over a heartbeat; every threshold is inclusive.
pub open spec fn timing_action(timer: TimerView, now: nat) -> TimingAction {
    if now >= timer.deadline {
        TimingAction::DeadlineElapsed
    } else if saturating_elapsed(now, timer.last_inbound) >= timer.idle {
        TimingAction::IdleEviction
    } else if saturating_elapsed(now, timer.last_outbound) >= timer.heartbeat {
        TimingAction::HeartbeatDue
    } else {
        TimingAction::Wait
    }
}

/// Per-connection activity state evaluated against validated timing policy.
#[derive(Debug, Clone, Copy, PartialEq, Eq, Structural)]
pub struct ConnectionTimer {
    config: TimingConfig,
    deadline: Moment,
    last_inbound: Moment,
    last_outbound: Moment,
}

impl View for ConnectionTimer {
    type V = TimerView;

    closed spec fn view(&self) -> TimerView {
        TimerView {
            heartbeat: self.config.heartbeat@,
            idle: self.config.idle@,
            deadline: self.deadline@,
            last_inbound: self.last_inbound@,
            last_outbound: self.last_outbound@,
        }
    }
}

/// The later of two instants, in nanoseconds.
pub open spec fn later_of(a: nat, b: nat) -> nat {
    if a >= b {
        a
    } else {
        b
    }
}

/// `base + threshold`, saturating at the end of the clock's range (`u64::MAX`).
pub open spec fn capped_sum(base: nat, threshold: nat) -> nat {
    if base + threshold <= u64::MAX {
        base + threshold
    } else {
        u64::MAX as nat
    }
}

/// The earlier of two instants, in nanoseconds.
pub open spec fn earlier_of(a: nat, b: nat) -> nat {
    if a <= b {
        a
    } else {
        b
    }
}

/// The instant at which idle eviction or the deadline first becomes due.
pub open spec fn terminal_instant(timer: TimerView) -> nat {
    earlier_of(timer.deadline, capped_sum(timer.last_inbound, timer.idle))
}

/// The instant at which any timing action first becomes due.
pub open spec fn wakeup_instant(timer: TimerView) -> nat {
    earlier_of(terminal_instant(timer), capped_sum(timer.last_outbound, timer.heartbeat))
}

/// `base` moved later by `span`, saturating at the end of the clock's range.
fn saturating_later(base: Moment, span: Span) -> (moment: Moment)
    ensures
        moment@ == capped_sum(base@, span@),
{
    match base.checked_add(span) {
        Some(later) => later,
        None => Moment::from_nanos(u64::MAX),
    }
}

impl ConnectionTimer {
    /// The validated thresholds this timer evaluates.
    pub closed spec fn spec_config(self) -> TimingConfig {
        self.config
    }

    /// Starts deterministic timing state for an established connection.
    ///
    /// Fails unless `deadline` is strictly after `started_at`; otherwise both
    /// inbound and outbound activity are taken to have happened at `started_at`.
    pub fn new(config: TimingConfig, started_at: Moment, deadline: Moment) -> (timer: Result<
        Self,
        TimingConfigError,
    >)
        ensures
            deadline@ <= started_at@ ==> timer == Err::<Self, TimingConfigError>(
                TimingConfigError::DeadlineElapsed { started_at, deadline },
            ),
            deadline@ > started_at@ ==> (timer matches Ok(t) && t.spec_config() == config && t@
                == TimerView {
                heartbeat: config.spec_heartbeat()@,
                idle: config.spec_idle()@,
                deadline: deadline@,
                last_inbound: started_at@,
                last_outbound: started_at@,
            }),
    {
        proof {
            use_type_invariant(&config);
        }
        if deadline.le(started_at) {
            return Err(TimingConfigError::DeadlineElapsed { started_at, deadline });
        }
        Ok(ConnectionTimer { config, deadline, last_inbound: started_at, last_outbound: started_at })
    }

    /// Records successful inbound frame activity without permitting clock rollback.
    pub fn record_inbound(&mut self, at: Moment)
        ensures
            final(self)@ == (TimerView {
                last_inbound: later_of(old(self)@.last_inbound, at@),
                ..old(self)@
            }),
            final(self).spec_config() == old(self).spec_config(),
    {
        self.last_inbound = self.last_inbound.max(at);
    }

    /// Records successful outbound frame activity without permitting clock rollback.
    pub fn record_outbound(&mut self, at: Moment)
        ensures
            final(self)@ == (TimerView {
                last_outbound: later_of(old(self)@.last_outbound, at@),
                ..old(self)@
            }),
            final(self).spec_config() == old(self).spec_config(),
    {
        self.last_outbound = self.last_outbound.max(at);
    }

    /// Evaluates one instant using terminal-first deterministic precedence.
    pub fn evaluate(&self, now: Moment) -> (action: TimingAction)
        ensures
            action == timing_action(self@, now@),
    {
        if self.deadline.le(now) {
            TimingAction::DeadlineElapsed
        } else if self.config.idle.le(now.saturating_duration_since(self.last_inbound)) {
            TimingAction::IdleEviction
        } else if self.config.heartbeat.le(now.saturating_duration_since(self.last_outbound)) {
            TimingAction::HeartbeatDue
        } else {
            TimingAction::Wait
        }
    }

    /// The earliest instant at which idle eviction or the deadline becomes due.
    pub fn terminal_wakeup(&self) -> (wakeup: Moment)
        ensures
            wakeup@ == terminal_instant(self@),
    {
        let idle_due = saturating_later(self.last_inbound, self.config.idle);
        if self.deadline.le(idle_due) {
            self.deadline
        } else {
            idle_due
        }
    }

    /// The earliest instant at which any timing action becomes due.
    pub fn next_wakeup(&self) -> (wakeup: Moment)
        ensures
            wakeup@ == wakeup_instant(self@),
    {
        let terminal = self.terminal_wakeup();
        let heartbeat_due = saturating_later(self.last_outbound, self.config.heartbeat);
        if terminal.le(heartbeat_due) {
            terminal
        } else {
            heartbeat_due
        }
    }
}

/// The connection deadline takes precedence over every liveness action: at or
/// after the deadline the only action is termination.
pub proof fn lemma_deadline_precedence(timer: TimerView, now: nat)
    requires
        now >= timer.deadline,
    ensures
        timing_action(timer, now) == TimingAction::DeadlineElapsed,
{
}

/// Inbound activity postpones idle eviction: after inbound activity at `at`,
/// no instant before `at + idle` evicts the connection.
pub proof fn lemma_inbound_activity_postpones_idle(timer: TimerView, at: nat, now: nat)
    requires
        0 < timer.heartbeat <= timer.idle,
        now < at + timer.idle,
    ensures
        timing_action(
            TimerView { last_inbound: later_of(timer.last_inbound, at), ..timer },
            now,
        ) != TimingAction::IdleEviction,
{
}

/// Outbound activity postpones heartbeats: after outbound activity at `at`, no
/// instant before `at + heartbeat` asks for a heartbeat.
pub proof fn lemma_outbound_activity_postpones_heartbeat(timer: TimerView, at: nat, now: nat)
    requires
        0 < timer.heartbeat <= timer.idle,
        now < at + timer.heartbeat,
    ensures
        timing_action(
            TimerView { last_outbound: later_of(timer.last_outbound, at), ..timer },
            now,
        ) != TimingAction::HeartbeatDue,
{
}

/// Nothing is due before the computed wakeup instant, so a runtime that sleeps
/// until the wakeup never misses an action.
pub proof fn lemma_nothing_due_before_wakeup(timer: TimerView, now: nat)
    requires
        0 < timer.heartbeat <= timer.idle,
        now < wakeup_instant(timer),
    ensures
        timing_action(timer, now) == TimingAction::Wait,
{
}

/// Because idle is never shorter than heartbeat, a connection whose inbound
/// and outbound activity coincide is offered a heartbeat before it is evicted.
pub proof fn lemma_heartbeat_before_idle(timer: TimerView, now: nat)
    requires
        0 < timer.heartbeat <= timer.idle,
        timer.last_inbound == timer.last_outbound,
        timing_action(timer, now) == TimingAction::IdleEviction,
    ensures
        saturating_elapsed(now, timer.last_outbound) >= timer.heartbeat,
{
}

} // verus!

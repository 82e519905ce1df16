//! Deterministic bounded fault injection at daemon operation boundaries.
//!
//! Stable fault points identify control operations without request payloads. A script
//! retains at most its configured inclusive rule count and consumes an exact failure
//! count per point. Checks are deterministic; disabled mode is inert.
//!
//! This module does not use randomness, clocks, environment variables, panic, network
//! faults, disk corruption, or global state. The daemon chooses the injector and
//! serializes access to a shared script.

use std::collections::BTreeMap;
use vstd::prelude::*;

verus! {

/// A control operation boundary at which a fault may be injected.
#[derive(Clone, Copy, Debug, Eq, Ord, PartialEq, PartialOrd, Structural)]
pub enum FaultPoint {
    AddTransfer,
    StopTransfer,
    StreamMetrics,
    UpdateConfig,
}

impl FaultPoint {
    /// Every fault point, in declaration order.
    pub const ALL: [FaultPoint; 4] = [
        FaultPoint::AddTransfer,
        FaultPoint::StopTransfer,
        FaultPoint::StreamMetrics,
        FaultPoint::UpdateConfig,
    ];
}

/// Position of a fault point in declaration order.
pub open spec fn point_slot(point: FaultPoint) -> int {
    match point {
        FaultPoint::AddTransfer => 0,
        FaultPoint::StopTransfer => 1,
        FaultPoint::StreamMetrics => 2,
        FaultPoint::UpdateConfig => 3,
    }
}

fn slot_of(point: FaultPoint) -> (slot: usize)
    ensures
        slot == point_slot(point),
{
    match point {
        FaultPoint::AddTransfer => 0,
        FaultPoint::StopTransfer => 1,
        FaultPoint::StreamMetrics => 2,
        FaultPoint::UpdateConfig => 3,
    }
}

/// One deliberately injected failure.
#[derive(Clone, Copy, Debug, Eq, PartialEq, Structural)]
pub struct InjectedFault {
    pub point: FaultPoint,
}

/// Stable fault script configuration failures.
#[derive(Clone, Copy, Debug, Eq, PartialEq, Structural)]
pub enum FaultScriptError {
    ZeroRuleLimit,
    ZeroFailures,
    RuleLimitExceeded { limit: usize },
}

/// Decides, at one operation boundary, whether to inject a failure.
pub trait FaultInjector {
    /// Succeeds, or fails only when the named boundary is deliberately armed.
    fn check(&mut self, point: FaultPoint) -> Result<(), InjectedFault>;
}

/// The production injector: it never injects a failure.
#[derive(Clone, Copy, Debug, Default)]
pub struct DisabledFaults;

impl FaultInjector for DisabledFaults {
    /// Succeeds at every point.
    fn check(&mut self, point: FaultPoint) -> (result: Result<(), InjectedFault>)
        ensures
            result is Ok,
    {
        Ok(())
    }
}

/// Number of armed points: those with failures still to inject.
pub open spec fn armed_count(remaining: Seq<u32>) -> nat
    decreases remaining.len(),
{
    if remaining.len() == 0 {
        0
    } else {
        armed_count(remaining.drop_last()) + if remaining.last() > 0 {
            1nat
        } else {
            0nat
        }
    }
}

/// Bounded deterministic script of failures to inject per point: armed points,
/// by position, mapped to the failures still to inject there.
#[derive(Debug)]
pub struct FaultScript {
    max_rules: usize,
    remaining: BTreeMap<u64, u32>,
}

/// Failures still to inject at each of the four points, from the armed rules.
pub open spec fn pending_of(rules: Map<u64, u32>) -> Seq<u32> {
    Seq::new(
        4,
        |i: int|
            if rules.contains_key(i as u64) {
                rules[i as u64]
            } else {
                0u32
            },
    )
}

impl FaultScript {
    #[verifier::type_invariant]
    closed spec fn within_rule_limit(self) -> bool {
        &&& self.max_rules > 0
        &&& self.remaining@.len() <= self.max_rules
        &&& forall|k: u64| #[trigger] self.remaining@.contains_key(k) ==> k < 4 && self.remaining@[k] > 0
        &&& armed_count(pending_of(self.remaining@)) == self.remaining@.len()
    }

    /// Failures still to inject at each point, in declaration order.
    pub closed spec fn pending(self) -> Seq<u32> {
        pending_of(self.remaining@)
    }

    /// The inclusive ceiling on simultaneously armed points.
    pub closed spec fn spec_max_rules(self) -> nat {
        self.max_rules as nat
    }

    /// Creates an empty script with a positive inclusive ceiling on armed points.
    pub fn new(max_rules: usize) -> (script: Result<Self, FaultScriptError>)
        ensures
            max_rules == 0 ==> (script matches Err(e) && e == FaultScriptError::ZeroRuleLimit),
            max_rules != 0 ==> (script matches Ok(s) && s.spec_max_rules() == max_rules
                && s.pending() == seq![0u32, 0u32, 0u32, 0u32]),
    {
        if max_rules == 0 {
            return Err(FaultScriptError::ZeroRuleLimit);
        }
        let remaining: BTreeMap<u64, u32> = BTreeMap::new();
        proof {
            assert(pending_of(remaining@) =~= seq![0u32, 0u32, 0u32, 0u32]);
            reveal_with_fuel(armed_count, 5);
            assert(armed_count(pending_of(remaining@)) == 0);
            assert(remaining@.dom() =~= Set::<u64>::empty());
        }
        Ok(FaultScript { max_rules, remaining })
    }

    /// Arms `point` to fail exactly `failures` more times.
    ///
    /// Zero failures are rejected. Re-arming an armed point replaces its count
    /// without using another rule; arming a new point beyond the rule ceiling
    /// is rejected. Rejections leave every rule unchanged.
    pub fn arm(&mut self, point: FaultPoint, failures: u32) -> (result: Result<(), FaultScriptError>)
        ensures
            old(self).spec_max_rules() > 0,
            old(self).pending().len() == 4,
            armed_count(old(self).pending()) <= old(self).spec_max_rules(),
            final(self).pending().len() == 4,
            final(self).spec_max_rules() == old(self).spec_max_rules(),
            failures == 0 ==> result == Err::<(), FaultScriptError>(FaultScriptError::ZeroFailures)
                && final(self).pending() == old(self).pending(),
            failures != 0 && old(self).pending()[point_slot(point)] == 0 && armed_count(
                old(self).pending(),
            ) == old(self).spec_max_rules() ==> result == Err::<(), FaultScriptError>(
                FaultScriptError::RuleLimitExceeded { limit: old(self).spec_max_rules() as usize },
            ) && final(self).pending() == old(self).pending(),
            failures != 0 && (old(self).pending()[point_slot(point)] != 0 || armed_count(
                old(self).pending(),
            ) < old(self).spec_max_rules()) ==> result is Ok && final(self).pending() == old(
                self,
            ).pending().update(point_slot(point), failures),
            armed_count(final(self).pending()) <= final(self).spec_max_rules(),
    {
        proof {
            use_type_invariant(&*self);
        }
        if failures == 0 {
            return Err(FaultScriptError::ZeroFailures);
        }
        let slot = slot_of(point) as u64;
        let armed = self.remaining.contains_key(&slot);
        proof {
            assert(armed == (old(self).pending()[slot as int] != 0));
        }
        if !armed && self.remaining.len() == self.max_rules {
            return Err(FaultScriptError::RuleLimitExceeded { limit: self.max_rules });
        }
        let mut remaining = BTreeMap::new();
        proof {
            lemma_no_rules_armed(remaining@);
        }
        std::mem::swap(&mut remaining, &mut self.remaining);
        let ghost before = remaining@;
        remaining.insert(slot, failures);
        proof {
            assert(pending_of(remaining@) =~= pending_of(before).update(slot as int, failures));
            lemma_armed_count_update(pending_of(before), slot as int, failures);
            if armed {
                assert(remaining@.dom() =~= before.dom());
            } else {
                assert(remaining@.dom() =~= before.dom().insert(slot));
            }
        }
        self.remaining = remaining;
        Ok(())
    }
}

/// An empty rule map arms no point.
proof fn lemma_no_rules_armed(rules: Map<u64, u32>)
    requires
        rules == Map::<u64, u32>::empty(),
    ensures
        armed_count(pending_of(rules)) == 0,
        rules.len() == 0,
{
    assert(pending_of(rules) =~= seq![0u32, 0u32, 0u32, 0u32]);
    reveal_with_fuel(armed_count, 5);
    assert(rules.dom() =~= Set::<u64>::empty());
}

/// Setting one point's count changes the armed count by at most that point's
/// own armed state.
proof fn lemma_armed_count_update(remaining: Seq<u32>, slot: int, failures: u32)
    requires
        0 <= slot < remaining.len(),
        failures > 0,
    ensures
        remaining[slot] > 0 ==> armed_count(remaining.update(slot, failures)) == armed_count(
            remaining,
        ),
        remaining[slot] == 0 ==> armed_count(remaining.update(slot, failures)) == armed_count(
            remaining,
        ) + 1,
    decreases remaining.len(),
{
    let updated = remaining.update(slot, failures);
    if slot == remaining.len() - 1 {
        assert(updated.drop_last() =~= remaining.drop_last());
    } else {
        lemma_armed_count_update(remaining.drop_last(), slot, failures);
        assert(updated.drop_last() =~= remaining.drop_last().update(slot, failures));
    }
}

/// Lowering one armed point's count to zero frees exactly one rule; lowering it
/// to another positive count changes nothing.
proof fn lemma_armed_count_decrement(remaining: Seq<u32>, slot: int, lowered: u32)
    requires
        0 <= slot < remaining.len(),
        remaining[slot] > 0,
    ensures
        lowered == 0 ==> armed_count(remaining.update(slot, lowered)) + 1 == armed_count(
            remaining,
        ),
        lowered > 0 ==> armed_count(remaining.update(slot, lowered)) == armed_count(remaining),
    decreases remaining.len(),
{
    let updated = remaining.update(slot, lowered);
    if slot == remaining.len() - 1 {
        assert(updated.drop_last() =~= remaining.drop_last());
    } else {
        lemma_armed_count_decrement(remaining.drop_last(), slot, lowered);
        assert(updated.drop_last() =~= remaining.drop_last().update(slot, lowered));
    }
}

impl FaultInjector for FaultScript {
    /// Consumes one injected failure while `point` is armed; an exhausted point
    /// is disarmed and its rule slot becomes reusable. Unarmed points succeed.
    fn check(&mut self, point: FaultPoint) -> (result: Result<(), InjectedFault>)
        ensures
            final(self).spec_max_rules() == old(self).spec_max_rules(),
            old(self).pending()[point_slot(point)] == 0 ==> result is Ok && final(self).pending()
                == old(self).pending(),
            old(self).pending()[point_slot(point)] > 0 ==> result == Err::<(), InjectedFault>(
                InjectedFault { point },
            ) && final(self).pending() == old(self).pending().update(
                point_slot(point),
                (old(self).pending()[point_slot(point)] - 1) as u32,
            ),
            final(self).pending() == after_check(old(self).pending(), point_slot(point)),
            result is Err <==> old(self).pending()[point_slot(point)] > 0,
    {
        proof {
            use_type_invariant(&*self);
        }
        let slot = slot_of(point) as u64;
        let ghost before = self.remaining@;
        let current = match self.remaining.get(&slot) {
            None => {
                proof {
                    assert(old(self).pending()[slot as int] == 0);
                }
                return Ok(());
            },
            Some(count) => *count,
        };
        let mut remaining = BTreeMap::new();
        proof {
            lemma_no_rules_armed(remaining@);
        }
        std::mem::swap(&mut remaining, &mut self.remaining);
        let lowered = current - 1;
        if lowered == 0 {
            remaining.remove(&slot);
            proof {
                assert(pending_of(remaining@) =~= pending_of(before).update(slot as int, lowered));
                lemma_armed_count_decrement(pending_of(before), slot as int, lowered);
                assert(remaining@.dom() =~= before.dom().remove(slot));
            }
        } else {
            remaining.insert(slot, lowered);
            proof {
                assert(pending_of(remaining@) =~= pending_of(before).update(slot as int, lowered));
                lemma_armed_count_decrement(pending_of(before), slot as int, lowered);
                assert(remaining@.dom() =~= before.dom());
            }
        }
        self.remaining = remaining;
        Err(InjectedFault { point })
    }
}

/// Failures still to inject at `slot` after one check there.
pub open spec fn after_check(pending: Seq<u32>, slot: int) -> Seq<u32> {
    if pending[slot] > 0 {
        pending.update(slot, (pending[slot] - 1) as u32)
    } else {
        pending
    }
}

/// How many of `checks` consecutive checks at `slot` inject a failure.
pub open spec fn failures_in(pending: Seq<u32>, slot: int, checks: nat) -> nat
    decreases checks,
{
    if checks == 0 {
        0
    } else {
        (if pending[slot] > 0 {
            1nat
        } else {
            0nat
        }) + failures_in(after_check(pending, slot), slot, (checks - 1) as nat)
    }
}

/// A point armed with `n` failures fails exactly its first `n` checks: any run
/// of consecutive checks there injects the smaller of the run's length and the
/// armed count, and the point is disarmed after `n` checks.
pub proof fn lemma_armed_failures_are_exact(pending: Seq<u32>, slot: int, checks: nat)
    requires
        0 <= slot < pending.len(),
    ensures
        failures_in(pending, slot, checks) == if checks <= pending[slot] {
            checks
        } else {
            pending[slot] as nat
        },
    decreases checks,
{
    if checks > 0 {
        lemma_armed_failures_are_exact(after_check(pending, slot), slot, (checks - 1) as nat);
    }
}

/// Failures still to inject after `checks` consecutive checks at `slot`.
pub open spec fn after_checks(pending: Seq<u32>, slot: int, checks: nat) -> Seq<u32>
    decreases checks,
{
    if checks == 0 {
        pending
    } else {
        after_checks(after_check(pending, slot), slot, (checks - 1) as nat)
    }
}

/// A point armed with `n` failures is disarmed after exactly `n` checks there,
/// so the check after those succeeds; checks at other points leave its count.
pub proof fn lemma_armed_point_disarms_after_its_failures(
    pending: Seq<u32>,
    slot: int,
    other: int,
)
    requires
        0 <= slot < pending.len(),
        0 <= other < pending.len(),
        other != slot,
    ensures
        after_checks(pending, slot, pending[slot] as nat)[slot] == 0,
        after_checks(pending, slot, pending[slot] as nat).len() == pending.len(),
        after_check(pending, other)[slot] == pending[slot],
    decreases pending[slot],
{
    if pending[slot] > 0 {
        let next = after_check(pending, slot);
        assert(next[slot] == pending[slot] - 1);
        lemma_armed_point_disarms_after_its_failures(next, slot, other);
        assert(after_checks(pending, slot, pending[slot] as nat) == after_checks(
            next,
            slot,
            next[slot] as nat,
        ));
    }
}

} // verus!

verus! {

/// Each fault point has a slot of its own among the four: no two points share
/// one, so arming or checking one point never touches another's count.
pub proof fn lemma_fault_points_have_own_slots(point: FaultPoint, other: FaultPoint)
    ensures
        0 <= point_slot(point) < 4,
        point != other ==> point_slot(point) != point_slot(other),
        point_slot(point) == point_slot(other) ==> point == other,
{
}

/// Checking one point leaves every other point's count as it was, and
/// arming one point leaves every other point's count as it was.
pub proof fn lemma_points_are_independent(
    pending: Seq<u32>,
    point: FaultPoint,
    other: FaultPoint,
    failures: u32,
)
    requires
        pending.len() == 4,
        point != other,
    ensures
        after_check(pending, point_slot(other))[point_slot(point)] == pending[point_slot(point)],
        pending.update(point_slot(other), failures)[point_slot(point)] == pending[point_slot(
            point,
        )],
{
}

} // verus!

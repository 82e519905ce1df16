//! Bounded protocol-neutral request correlation with explicit deadline expiry.
//!
//! Each ID owns at most one pending value and absolute monotonic deadline. The
//! inclusive capacity is checked before insertion, rejected values are returned
//! to their caller, and expiry order is deterministic by correlation ID.
//!
//! This module does not generate IDs, read clocks implicitly, spawn timeout tasks,
//! retry requests, encode wire fields, or decide whether expiry is fatal.

use crate::time::Moment;
use std::collections::BTreeMap;
use vstd::prelude::*;
use vstd::std_specs::iter::IteratorSpec;

verus! {

/// Opaque protocol-neutral identifier for one correlated operation.
#[derive(Debug, Clone, Copy, PartialEq, Eq, PartialOrd, Ord, Hash, Structural)]
pub struct CorrelationId(u64);

impl View for CorrelationId {
    type V = u64;

    closed spec fn view(&self) -> u64 {
        self.0
    }
}

impl CorrelationId {
    /// Wraps a caller-selected unsigned correlation value.
    pub fn new(value: u64) -> (id: Self)
        ensures
            id@ == value,
    {
        CorrelationId(value)
    }

    /// Returns the wrapped value for adapters and telemetry.
    pub fn get(self) -> (value: u64)
        ensures
            value == self@,
    {
        self.0
    }
}

/// Stable reasons why correlation admission was rejected.
#[derive(Debug, Clone, Copy, PartialEq, Eq, Structural)]
pub enum CorrelationError {
    ZeroCapacity,
    AtCapacity { limit: usize },
    Duplicate { id: CorrelationId },
}

/// Rejected admission retaining ownership of the pending value.
#[derive(Debug, Clone, PartialEq, Eq)]
pub struct CorrelationInsertError<T> {
    reason: CorrelationError,
    value: T,
}

impl<T> CorrelationInsertError<T> {
    /// Why admission was rejected.
    pub closed spec fn spec_reason(self) -> CorrelationError {
        self.reason
    }

    /// The value whose admission was rejected.
    pub closed spec fn spec_value(self) -> T {
        self.value
    }

    /// Returns the stable copyable rejection reason.
    pub fn reason(&self) -> (reason: CorrelationError)
        ensures
            reason == self.spec_reason(),
    {
        self.reason
    }

    /// Recovers the value rejected by admission.
    pub fn into_value(self) -> (value: T)
        ensures
            value == self.spec_value(),
    {
        self.value
    }
}

/// Whether a pending deadline is at or before `now`.
pub open spec fn is_due(deadline: Moment, now: Moment) -> bool {
    deadline@ <= now@
}

/// The identifiers of `pending` whose deadline is at or before `now`.
pub open spec fn due_ids<T>(pending: Map<u64, (Moment, T)>, now: Moment) -> Set<u64> {
    Set::new(|id: u64| pending.contains_key(id) && is_due(pending[id].0, now))
}

/// Identifier/value pairs in strictly increasing identifier order.
pub open spec fn pairs_increasing<T>(pairs: Seq<(CorrelationId, T)>) -> bool {
    forall|i: int, j: int|
        0 <= i < j < pairs.len() ==> (#[trigger] pairs[i]).0@ < (#[trigger] pairs[j]).0@
}

/// Whether `expired` lists exactly the entries of `pending` due at `now`, with
/// their values, in increasing identifier order.
pub open spec fn lists_due<T>(expired: Seq<(CorrelationId, T)>, pending: Map<u64, (Moment, T)>, now: Moment) -> bool {
    &&& pairs_increasing(expired)
    &&& forall|a: int|
        0 <= a < expired.len() ==> {
            let id = (#[trigger] expired[a]).0@;
            &&& due_ids(pending, now).contains(id)
            &&& expired[a].1 == pending[id].1
        }
    &&& forall|id: u64|
        #[trigger] due_ids(pending, now).contains(id) ==> exists|a: int|
            0 <= a < expired.len() && (#[trigger] expired[a]).0@ == id
}

/// Bounded collection of pending correlated values keyed by identifier.
pub struct CorrelationTable<T> {
    limit: usize,
    pending: BTreeMap<u64, (Moment, T)>,
}

/// The keys of a map iteration are strictly increasing.
proof fn lemma_keys_increasing(keys: Seq<&u64>)
    requires
        vstd::std_specs::btree::increasing_seq(keys),
    ensures
        forall|i: int, j: int| 0 <= i < j < keys.len() ==> *keys[i] < *keys[j],
{
    assert(vstd::laws_cmp::obeys_cmp::<&u64>());
    assert forall|i: int, j: int| 0 <= i < j < keys.len() implies *keys[i] < *keys[j] by {
        assert(vstd::std_specs::cmp::OrdSpec::cmp_spec(&keys[i], &keys[j]) is Less);
    }
}

impl<T> CorrelationTable<T> {
    #[verifier::type_invariant]
    closed spec fn table_valid(self) -> bool {
        &&& self.limit > 0
        &&& self.pending@.len() <= self.limit
    }

    /// Pending entries by identifier value: deadline and owned value.
    pub closed spec fn pending(self) -> Map<u64, (Moment, T)> {
        self.pending@
    }

    /// The inclusive ceiling on simultaneously pending identifiers.
    pub closed spec fn spec_limit(self) -> nat {
        self.limit as nat
    }

    /// Creates an empty table with a positive inclusive ceiling.
    pub fn new(limit: usize) -> (table: Result<Self, CorrelationError>)
        ensures
            limit == 0 ==> table == Err::<Self, CorrelationError>(CorrelationError::ZeroCapacity),
            limit != 0 ==> (table matches Ok(t) && t.pending() == Map::<u64, (Moment, T)>::empty()
                && t.spec_limit() == limit),
    {
        if limit == 0 {
            return Err(CorrelationError::ZeroCapacity);
        }
        Ok(CorrelationTable { limit, pending: BTreeMap::new() })
    }

    /// Admits one unique pending value and absolute deadline.
    ///
    /// A duplicate identifier is diagnosed before capacity; either rejection
    /// returns the unchanged value and leaves the table unchanged.
    pub fn insert(&mut self, id: CorrelationId, deadline: Moment, value: T) -> (result: Result<
        (),
        CorrelationInsertError<T>,
    >)
        ensures
            final(self).spec_limit() == old(self).spec_limit(),
            old(self).pending().contains_key(id@) ==> {
                &&& result matches Err(e) && e.spec_reason() == CorrelationError::Duplicate { id }
                    && e.spec_value() == value
                &&& final(self).pending() == old(self).pending()
            },
            !old(self).pending().contains_key(id@) && old(self).pending().len()
                == old(self).spec_limit() ==> {
                &&& result matches Err(e) && e.spec_reason() == (CorrelationError::AtCapacity {
                    limit: old(self).spec_limit() as usize,
                }) && e.spec_value() == value
                &&& final(self).pending() == old(self).pending()
            },
            !old(self).pending().contains_key(id@) && old(self).pending().len()
                < old(self).spec_limit() ==> {
                &&& result is Ok
                &&& final(self).pending() == old(self).pending().insert(id@, (deadline, value))
                &&& final(self).pending().len() == old(self).pending().len() + 1
            },
            old(self).pending().dom().finite(),
            old(self).pending().len() <= old(self).spec_limit(),
            final(self).pending().dom().finite(),
            final(self).pending().len() <= final(self).spec_limit(),
    {
        proof {
            use_type_invariant(&*self);
        }
        if self.pending.contains_key(&id.0) {
            return Err(
                CorrelationInsertError { reason: CorrelationError::Duplicate { id }, value },
            );
        }
        if self.pending.len() == self.limit {
            return Err(
                CorrelationInsertError {
                    reason: CorrelationError::AtCapacity { limit: self.limit },
                    value,
                },
            );
        }
        let mut pending = BTreeMap::new();
        std::mem::swap(&mut pending, &mut self.pending);
        pending.insert(id.0, (deadline, value));
        proof {
            assert(pending@.dom() =~= old(self).pending@.dom().insert(id.0));
        }
        self.pending = pending;
        Ok(())
    }

    /// Removes and returns one response-correlated value.
    ///
    /// Returns the value pending under `id` and removes its entry, so the same
    /// response resolves at most once; an unknown identifier yields `None` and
    /// leaves the table unchanged.
    pub fn resolve(&mut self, id: CorrelationId) -> (resolved: Option<T>)
        ensures
            final(self).spec_limit() == old(self).spec_limit(),
            old(self).pending().contains_key(id@) ==> resolved == Some(old(self).pending()[id@].1)
                && final(self).pending() == old(self).pending().remove(id@)
                && final(self).pending().len() + 1 == old(self).pending().len(),
            final(self).pending().dom().finite(),
            !old(self).pending().contains_key(id@) ==> resolved is None && final(self).pending()
                == old(self).pending(),
            !final(self).pending().contains_key(id@),
    {
        proof {
            use_type_invariant(&*self);
        }
        let mut pending = BTreeMap::new();
        std::mem::swap(&mut pending, &mut self.pending);
        let removed = pending.remove(&id.0);
        proof {
            assert(pending@.len() <= self.limit) by {
                if old(self).pending@.contains_key(id.0) {
                    assert(pending@.dom() =~= old(self).pending@.dom().remove(id.0));
                }
            }
        }
        self.pending = pending;
        match removed {
            Some((_, value)) => Some(value),
            None => None,
        }
    }

    /// Removes deadlines at or before an explicit instant.
    ///
    /// Returns the expired identifiers and values in ascending identifier order
    /// and keeps exactly the entries whose deadline is still in the future.
    pub fn expire_at(&mut self, now: Moment) -> (expired: Vec<(CorrelationId, T)>)
        ensures
            final(self).spec_limit() == old(self).spec_limit(),
            lists_due(expired@, old(self).pending(), now),
            final(self).pending() == old(self).pending().remove_keys(due_ids(old(self).pending(), now)),
    {
        proof {
            use_type_invariant(&*self);
        }
        let ghost original = self.pending@;
        let mut pending = BTreeMap::new();
        std::mem::swap(&mut pending, &mut self.pending);
        let mut due: Vec<u64> = Vec::new();
        let keys = pending.keys();
        let ghost all = IteratorSpec::remaining(&keys);
        proof {
            lemma_keys_increasing(all);
        }
        let ghost mut positions: Seq<int> = Seq::empty();
        for key in it: keys
            invariant
                it.seq() == all,
                pending@ == original,
                all.unref().to_set() == original.dom(),
                all.len() == original.dom().len(),
                forall|i: int, j: int| 0 <= i < j < all.len() ==> *all[i] < *all[j],
                forall|a: int, b: int| 0 <= a < b < due@.len() ==> due@[a] < due@[b],
                positions.len() == due@.len(),
                forall|a: int|
                    0 <= a < due@.len() ==> 0 <= #[trigger] positions[a] < it.index() && *all[positions[a]]
                        == due@[a] && due_ids(original, now).contains(due@[a]),
                forall|i: int|
                    0 <= i < it.index() && #[trigger] due_ids(original, now).contains(*all[i])
                        ==> due@.contains(*all[i]),
        {
            let ghost index = it.index();
            proof {
                assert(all[index] == key);
                assert(all.unref().to_set().contains(*key)) by {
                    assert(all.unref()[index] == *key);
                }
            }
            match pending.get(key) {
                Some(entry) => {
                    if entry.0.le(now) {
                        let ghost before = due@;
                        let ghost before_positions = positions;
                        due.push(*key);
                        proof {
                            positions = positions.push(index);
                            assert forall|a: int, b: int|
                                0 <= a < b < due@.len() implies due@[a] < due@[b] by {
                                if b == before.len() {
                                    assert(before_positions[a] < index);
                                    assert(*all[before_positions[a]] < *all[index]);
                                } else {
                                    assert(before[a] < before[b]);
                                }
                            }
                            assert forall|a: int| 0 <= a < due@.len() implies 0 <= #[trigger] positions[a]
                                < index + 1 && *all[positions[a]] == due@[a] && due_ids(
                                original,
                                now,
                            ).contains(due@[a]) by {
                                if a < before.len() {
                                    assert(positions[a] == before_positions[a]);
                                    assert(due@[a] == before[a]);
                                }
                            }
                            assert forall|i: int|
                                0 <= i < index + 1 && #[trigger] due_ids(original, now).contains(
                                    *all[i],
                                ) implies due@.contains(*all[i]) by {
                                if i == index {
                                    assert(due@[before.len() as int] == *all[i]);
                                } else {
                                    assert(before.contains(*all[i]));
                                    let a = choose|a: int| 0 <= a < before.len() && before[a] == *all[i];
                                    assert(due@[a] == *all[i]);
                                }
                            }
                        }
                    } else {
                        proof {
                            assert(!due_ids(original, now).contains(*all[index]));
                        }
                    }
                },
                None => {
                    proof {
                        assert(false);
                    }
                },
            }
        }
        let ghost due_all = due@;
        proof {
            assert forall|a: int| 0 <= a < due_all.len() implies #[trigger] due_ids(original, now).contains(
                due_all[a],
            ) by {
                assert(0 <= positions[a]);
            }
            assert forall|id: u64| #[trigger] due_ids(original, now).contains(id) implies due_all.contains(id) by {
                assert(all.unref().to_set().contains(id));
                let i = choose|i: int| 0 <= i < all.unref().len() && all.unref()[i] == id;
                assert(*all[i] == id);
            }
        }
        let mut expired: Vec<(CorrelationId, T)> = Vec::new();
        let mut i: usize = 0;
        while i < due.len()
            invariant
                i <= due@.len(),
                due@ == due_all,
                forall|a: int, b: int| 0 <= a < b < due_all.len() ==> due_all[a] < due_all[b],
                forall|a: int| 0 <= a < due_all.len() ==> #[trigger] due_ids(original, now).contains(due_all[a]),
                forall|id: u64| #[trigger] due_ids(original, now).contains(id) ==> due_all.contains(id),
                pending@ == original.remove_keys(due_all.take(i as int).to_set()),
                expired@.len() == i,
                forall|a: int| 0 <= a < i ==> (#[trigger] expired@[a]).0@ == due_all[a] && expired@[a].1 == original[due_all[a]].1,
            decreases due@.len() - i,
        {
            let key = due[i];
            proof {
                assert(!due_all.take(i as int).to_set().contains(key)) by {
                    if due_all.take(i as int).to_set().contains(key) {
                        let a = choose|a: int| 0 <= a < i && due_all.take(i as int)[a] == key;
                        assert(due_all[a] < due_all[i as int]);
                    }
                }
                assert(due_ids(original, now).contains(due_all[i as int]));
                assert(pending@.contains_key(key));
            }
            let removed = pending.remove(&key);
            proof {
                assert(due_all.take(i + 1).to_set() =~= due_all.take(i as int).to_set().insert(key)) by {
                    assert(due_all.take(i + 1) =~= due_all.take(i as int).push(key));
                    due_all.take(i as int).lemma_push_to_set_commute(key);
                }
                assert(pending@ =~= original.remove_keys(due_all.take(i + 1).to_set()));
            }
            match removed {
                Some((_, value)) => {
                    expired.push((CorrelationId(key), value));
                },
                None => {
                    proof {
                        assert(false);
                    }
                },
            }
            i = i + 1;
        }
        proof {
            assert(due_all.take(due_all.len() as int) =~= due_all);
            assert(due_all.to_set() =~= due_ids(original, now)) by {
                assert forall|id: u64| due_all.to_set().contains(id) implies due_ids(original, now).contains(id) by {
                    let a = choose|a: int| 0 <= a < due_all.len() && due_all[a] == id;
                }
            }
            assert forall|id: u64| #[trigger] due_ids(original, now).contains(id) implies exists|a: int|
                0 <= a < expired@.len() && (#[trigger] expired@[a]).0@ == id by {
                let a = choose|a: int| 0 <= a < due_all.len() && due_all[a] == id;
                assert(expired@[a].0@ == id);
            }
            assert(pending@.dom().subset_of(original.dom()));
            vstd::set_lib::lemma_len_subset(pending@.dom(), original.dom());
        }
        self.pending = pending;
        expired
    }

    /// Returns the current pending request count.
    pub fn len(&self) -> (count: usize)
        ensures
            count == self.pending().len(),
            count <= self.spec_limit(),
    {
        proof {
            use_type_invariant(self);
        }
        self.pending.len()
    }

    /// Reports whether no correlation state remains.
    pub fn is_empty(&self) -> (empty: bool)
        ensures
            empty == (self.pending().len() == 0),
    {
        proof {
            use_type_invariant(self);
        }
        self.pending.is_empty()
    }
}

/// Resolving an identifier right after inserting it gives back the inserted
/// value and leaves the table as it was before the insertion.
pub proof fn lemma_resolve_returns_inserted<T>(
    before: Map<u64, (Moment, T)>,
    id: CorrelationId,
    deadline: Moment,
    value: T,
)
    requires
        !before.contains_key(id@),
    ensures
        before.insert(id@, (deadline, value)).contains_key(id@),
        before.insert(id@, (deadline, value))[id@].1 == value,
        before.insert(id@, (deadline, value)).remove(id@) == before,
{
    assert(before.insert(id@, (deadline, value)).remove(id@) =~= before);
}

} // verus!

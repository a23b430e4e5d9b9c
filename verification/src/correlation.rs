//! The consumer side of the correlation protocol: deciding whether a
//! start and an end event belong to the same action, and the pending
//! table a consumer keys by correlation id while it awaits completion
//! notices that may never arrive.

use vstd::prelude::*;

use crate::ar_event::{ModerationEndEventData, ModerationStartEventData};

verus! {

/// A start and an end event belong to the same action exactly when they
/// carry the same correlation id: the shared id is the only linkage.
pub open spec fn linked_spec(start: ModerationStartEventData, end: ModerationEndEventData) -> bool {
    start.correlation_id == end.correlation_id
}

/// Decides whether `end` completes `start`: true exactly when the two
/// events carry the same correlation id, and false for differing ids.
pub fn linked(start: &ModerationStartEventData, end: &ModerationEndEventData) -> (r: bool)
    ensures
        r == linked_spec(*start, *end),
{
    start.correlation_id == end.correlation_id
}

/// A consumer's pending table: the correlation ids of start events whose
/// end event has not arrived. An end event that never arrives is a valid
/// terminal outcome: nothing here errors on absence; a consumer that
/// gives up simply stops asking.
#[derive(Debug)]
pub struct CorrelationTracker {
    /// The pending correlation ids, each recorded once.
    pending: Vec<u128>,
}

impl CorrelationTracker {
    /// The correlation ids currently pending.
    pub closed spec fn pending_ids(&self) -> Seq<u128> {
        self.pending@
    }

    /// A well-formed table records each pending id once.
    pub closed spec fn wf(&self) -> bool {
        forall|i: int, j: int|
            0 <= i < j < self.pending@.len() ==> self.pending@[i] != self.pending@[j]
    }

    /// An empty pending table.
    pub fn new() -> (t: Self)
        ensures
            t.wf(),
            t.pending_ids() =~= Seq::<u128>::empty(),
    {
        CorrelationTracker { pending: Vec::new() }
    }

    /// Whether a start with this correlation id is awaiting its end.
    pub fn is_pending(&self, correlation_id: u128) -> (r: bool)
        ensures
            r == self.pending_ids().contains(correlation_id),
    {
        let mut i: usize = 0;
        while i < self.pending.len()
            invariant
                0 <= i <= self.pending@.len(),
                forall|k: int| 0 <= k < i ==> self.pending@[k] != correlation_id,
            decreases self.pending@.len() - i,
        {
            if self.pending[i] == correlation_id {
                return true;
            }
            i = i + 1;
        }
        false
    }

    /// Records a start event. Returns whether the id was newly recorded;
    /// a reused id of a still-pending start is not recorded twice.
    pub fn record_start(&mut self, start: &ModerationStartEventData) -> (r: bool)
        requires
            old(self).wf(),
        ensures
            final(self).wf(),
            r == !old(self).pending_ids().contains(start.correlation_id),
            forall|id: u128|
                final(self).pending_ids().contains(id) <==> (old(self).pending_ids().contains(id)
                    || id == start.correlation_id),
    {
        if self.is_pending(start.correlation_id) {
            false
        } else {
            let ghost old_ids = self.pending@;
            self.pending.push(start.correlation_id);
            proof {
                assert forall|id: u128|
                    self.pending@.contains(id) <==> (old_ids.contains(id) || id
                        == start.correlation_id) by {
                    if old_ids.contains(id) || id == start.correlation_id {
                        if id == start.correlation_id {
                            assert(self.pending@[old_ids.len() as int] == id);
                        } else {
                            let k = choose|k: int| 0 <= k < old_ids.len() && old_ids[k] == id;
                            assert(self.pending@[k] == id);
                        }
                    } else {
                        if self.pending@.contains(id) {
                            let k = choose|k: int|
                                0 <= k < self.pending@.len() && self.pending@[k] == id;
                            if k < old_ids.len() {
                                assert(old_ids[k] == id);
                            }
                        }
                    }
                }
            }
            true
        }
    }

    /// Observes an end event. Removes the matching pending start and
    /// returns whether one was pending; an end event with no matching
    /// start is valid and simply reports false.
    pub fn observe_end(&mut self, end: &ModerationEndEventData) -> (r: bool)
        requires
            old(self).wf(),
        ensures
            final(self).wf(),
            r == old(self).pending_ids().contains(end.correlation_id),
            forall|id: u128|
                final(self).pending_ids().contains(id) <==> (old(self).pending_ids().contains(id)
                    && id != end.correlation_id),
    {
        let cid = end.correlation_id;
        match index_of(&self.pending, cid) {
            Some(i) => {
                let ghost old_ids = self.pending@;
                self.pending.remove(i);
                proof {
                    assert(old_ids.contains(cid)) by {
                        assert(old_ids[i as int] == cid);
                    }
                    old_ids.remove_ensures(i as int);
                    assert(self.pending@ =~= old_ids.remove(i as int));
                    assert forall|a: int, b: int|
                        0 <= a < b < self.pending@.len() implies self.pending@[a]
                        != self.pending@[b] by {
                        assert(self.pending@[a] == (if a < i {
                            old_ids[a]
                        } else {
                            old_ids[a + 1]
                        }));
                        assert(self.pending@[b] == (if b < i {
                            old_ids[b]
                        } else {
                            old_ids[b + 1]
                        }));
                    }
                    assert forall|id: u128|
                        self.pending@.contains(id) <==> (old_ids.contains(id) && id != cid) by {
                        if old_ids.contains(id) && id != cid {
                            let k = choose|k: int| 0 <= k < old_ids.len() && old_ids[k] == id;
                            if k < i {
                                assert(self.pending@[k] == id);
                            } else {
                                assert(old_ids[i as int] == cid);
                                assert(k != i);
                                assert(self.pending@[k - 1] == id);
                            }
                        } else {
                            if self.pending@.contains(id) {
                                let k = choose|k: int|
                                    0 <= k < self.pending@.len() && self.pending@[k] == id;
                                if k < i {
                                    assert(old_ids[k] == id);
                                } else {
                                    assert(old_ids[k + 1] == id);
                                }
                                assert(old_ids[i as int] == cid);
                            }
                        }
                    }
                }
                true
            },
            None => false,
        }
    }
}

/// The index of the first occurrence of `x` in `v`, if any.
fn index_of(v: &Vec<u128>, x: u128) -> (r: Option<usize>)
    ensures
        (match r {
            Some(j) => j < v@.len() && v@[j as int] == x,
            None => !v@.contains(x),
        }),
{
    let mut i: usize = 0;
    while i < v.len()
        invariant
            0 <= i <= v@.len(),
            forall|k: int| 0 <= k < i ==> v@[k] != x,
        decreases v@.len() - i,
    {
        if v[i] == x {
            return Some(i);
        }
        i = i + 1;
    }
    proof {
        assert(!v@.contains(x)) by {
            if v@.contains(x) {
                let k = choose|k: int| 0 <= k < v@.len() && v@[k] == x;
            }
        }
    }
    None
}

} // verus!

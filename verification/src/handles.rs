//! Handle ownership: opaque native handle values and a registry model of
//! their lifecycle.
//!
//! The native driver hands out opaque references to its own state.  The
//! layer copies a handle's value freely into native calls, but exactly one
//! owner holds release responsibility, and release happens exactly once.
//! `HandleRegistry` is the model of that discipline: allocation appends a
//! live slot under its parent, release marks a slot exactly once and
//! touches nothing else.

use vstd::prelude::*;
use crate::codes::HandleLevel;

verus! {

/// An opaque native handle value, safe to move across execution contexts.
/// The layer never reads what it refers to; only the native calls of the
/// unverified shell do.
#[derive(Clone, Copy, Debug, PartialEq, Eq, Structural)]
pub struct SendPtr {
    value: usize,
}

impl SendPtr {
    /// The handle value carried.
    pub closed spec fn spec_value(self) -> usize {
        self.value
    }

    /// Wraps a raw handle value.
    pub fn new(ptr: usize) -> (r: SendPtr)
        ensures
            r.spec_value() == ptr,
    {
        SendPtr { value: ptr }
    }

    /// Returns the raw handle value for a native call.
    pub fn as_ptr(&self) -> (r: usize)
        ensures
            r == self.spec_value(),
    {
        self.value
    }
}

/// One allocated native handle in the registry model: its level, the slot
/// of the handle it was allocated under, and whether it was released.
#[derive(Clone, Copy, Debug, PartialEq, Eq, Structural)]
pub struct HandleSlot {
    pub level: HandleLevel,
    pub parent: Option<usize>,
    pub released: bool,
}

/// The registry model of handle ownership.  Slots are appended by
/// allocation and never removed; release marks a slot exactly once.
pub struct HandleRegistry {
    pub slots: Vec<HandleSlot>,
}

/// Whether a slot's parent is right for its level: an environment has
/// none; a connection lives under an environment; a statement under a
/// connection.  A parent always sits at an earlier slot.
pub open spec fn spec_slot_wf(slots: Seq<HandleSlot>, i: int) -> bool {
    match slots[i].parent {
        None => slots[i].level == HandleLevel::Environment,
        Some(p) => p < i && slots[i].level.spec_parent() == Some(slots[p as int].level),
    }
}

impl HandleRegistry {
    /// Every slot's parent is at an earlier slot of the right level.
    pub open spec fn wf(self) -> bool {
        forall|i: int| 0 <= i < self.slots@.len() ==> spec_slot_wf(self.slots@, i)
    }

    /// An empty registry.
    pub fn new() -> (r: HandleRegistry)
        ensures
            r.wf(),
            r.slots@.len() == 0,
    {
        HandleRegistry { slots: Vec::new() }
    }

    /// Records an allocation: an environment takes no parent; a connection
    /// or statement takes a live parent of the level above it.  Returns the
    /// new slot's index.
    pub fn allocate(&mut self, level: HandleLevel, parent: Option<usize>) -> (h: usize)
        requires
            old(self).wf(),
            old(self).slots@.len() < usize::MAX,
            match parent {
                None => level == HandleLevel::Environment,
                Some(p) => {
                    &&& p < old(self).slots@.len()
                    &&& !old(self).slots@[p as int].released
                    &&& level.spec_parent() == Some(old(self).slots@[p as int].level)
                },
            },
        ensures
            final(self).wf(),
            h == old(self).slots@.len(),
            final(self).slots@ == old(self).slots@.push(
                (HandleSlot { level, parent, released: false }),
            ),
    {
        let h = self.slots.len();
        self.slots.push(HandleSlot { level, parent, released: false });
        proof {
            assert forall|i: int| 0 <= i < self.slots@.len() implies spec_slot_wf(
                self.slots@,
                i,
            ) by {
                if i < self.slots@.len() - 1 {
                    assert(spec_slot_wf(old(self).slots@, i));
                }
            }
        }
        h
    }

    /// Marks a live slot released.  Release happens exactly once: a
    /// released slot cannot be released again, and no other slot changes.
    pub fn release(&mut self, h: usize)
        requires
            old(self).wf(),
            h < old(self).slots@.len(),
            !old(self).slots@[h as int].released,
        ensures
            final(self).wf(),
            final(self).slots@.len() == old(self).slots@.len(),
            final(self).slots@[h as int] == (HandleSlot {
                released: true,
                ..old(self).slots@[h as int]
            }),
            forall|j: int|
                0 <= j < old(self).slots@.len() && j != h ==> final(self).slots@[j] == old(
                    self,
                ).slots@[j],
    {
        let slot = self.slots[h];
        self.slots.set(h, HandleSlot { level: slot.level, parent: slot.parent, released: true });
        proof {
            assert forall|i: int| 0 <= i < self.slots@.len() implies spec_slot_wf(
                self.slots@,
                i,
            ) by {
                assert(spec_slot_wf(old(self).slots@, i));
            }
        }
    }

    /// Whether a slot is still live.
    pub fn is_live(&self, h: usize) -> (r: bool)
        requires
            h < self.slots@.len(),
        ensures
            r == !self.slots@[h as int].released,
    {
        !self.slots[h].released
    }
}

/// The registry after releasing a sequence of slots, first to last.
pub open spec fn spec_release_all(slots: Seq<HandleSlot>, order: Seq<int>) -> Seq<HandleSlot>
    decreases order.len(),
{
    if order.len() == 0 {
        slots
    } else {
        let i = order[0];
        let updated = slots.update(i, HandleSlot { released: true, ..slots[i] });
        spec_release_all(updated, order.drop_first())
    }
}

/// Releasing one sequence of handles touches exactly those handles: the
/// slot at `k` keeps its level and parent, and ends released exactly when
/// the order names it or it already was.
proof fn lemma_release_all_elem(slots: Seq<HandleSlot>, order: Seq<int>, k: int)
    requires
        forall|n: int| 0 <= n < order.len() ==> 0 <= #[trigger] order[n] < slots.len(),
        0 <= k < slots.len(),
    ensures
        spec_release_all(slots, order).len() == slots.len(),
        spec_release_all(slots, order)[k].level == slots[k].level,
        spec_release_all(slots, order)[k].parent == slots[k].parent,
        spec_release_all(slots, order)[k].released <==> (order.contains(k) || slots[k].released),
    decreases order.len(),
{
    if order.len() == 0 {
        assert(!order.contains(k)) by {
            if order.contains(k) {
                let n = choose|n: int| 0 <= n < order.len() && order[n] == k;
            }
        }
    } else {
        let i = order[0];
        let updated = slots.update(i, HandleSlot { released: true, ..slots[i] });
        let rest = order.drop_first();
        assert(forall|n: int| 0 <= n < rest.len() ==> rest[n] == order[n + 1]);
        lemma_release_all_elem(updated, rest, k);
        assert(order.contains(k) <==> (k == i || rest.contains(k))) by {
            if k == i {
                assert(order[0] == k);
                assert(order.contains(k));
            }
            if rest.contains(k) {
                let n = choose|n: int| 0 <= n < rest.len() && rest[n] == k;
                assert(order[n + 1] == k);
                assert(order.contains(k));
            }
            if order.contains(k) && k != i {
                let n = choose|n: int| 0 <= n < order.len() && order[n] == k;
                assert(n != 0);
                assert(rest[n - 1] == k);
                assert(rest.contains(k));
            }
        }
    }
}

/// Releasing any set of distinct handles, in any order, releases exactly
/// those handles and changes nothing else: every slot keeps its level and
/// parent, a slot ends released exactly when the order names it (or it
/// already was), and no other slot — in particular no environment slot a
/// connection was torn down under — is touched.
pub proof fn lemma_release_order_safe(slots: Seq<HandleSlot>, order: Seq<int>)
    requires
        forall|n: int| 0 <= n < order.len() ==> 0 <= #[trigger] order[n] < slots.len(),
    ensures
        spec_release_all(slots, order).len() == slots.len(),
        forall|k: int|
            0 <= k < slots.len() ==> spec_release_all(slots, order)[k].level == slots[k].level
                && spec_release_all(slots, order)[k].parent == slots[k].parent,
        forall|k: int|
            0 <= k < slots.len() ==> (spec_release_all(slots, order)[k].released <==> (
            order.contains(k) || slots[k].released)),
{
    assert forall|k: int| 0 <= k < slots.len() implies spec_release_all(slots, order)[k].level
        == slots[k].level && spec_release_all(slots, order)[k].parent == slots[k].parent by {
        lemma_release_all_elem(slots, order, k);
    }
    assert forall|k: int| 0 <= k < slots.len() implies (spec_release_all(slots, order)[k].released
        <==> (order.contains(k) || slots[k].released)) by {
        lemma_release_all_elem(slots, order, k);
    }
    if slots.len() > 0 {
        lemma_release_all_elem(slots, order, 0);
    } else {
        assert(spec_release_all(slots, order).len() == slots.len()) by {
            if order.len() > 0 {
                assert(0 <= order[0] < slots.len());
            }
        }
    }
}

/// A corollary for teardown in any interleaving: when the handles named by
/// the order are distinct and all live, each release in the sequence meets
/// the registry's own precondition — the slot it releases is still
/// unreleased when its turn comes.  No order of distinct releases can
/// free a handle twice.
pub proof fn lemma_no_double_release(slots: Seq<HandleSlot>, order: Seq<int>, n: int)
    requires
        forall|m: int| 0 <= m < order.len() ==> 0 <= #[trigger] order[m] < slots.len(),
        forall|m1: int, m2: int|
            0 <= m1 < m2 < order.len() ==> order[m1] != order[m2],
        forall|m: int| 0 <= m < order.len() ==> !slots[#[trigger] order[m]].released,
        0 <= n < order.len(),
    ensures
        !spec_release_all(slots, order.take(n))[order[n]].released,
{
    let prefix = order.take(n);
    lemma_release_order_safe(slots, prefix);
    assert(!prefix.contains(order[n])) by {
        if prefix.contains(order[n]) {
            let m = choose|m: int| 0 <= m < prefix.len() && prefix[m] == order[n];
            assert(order[m] == order[n]);
        }
    }
}

} // verus!

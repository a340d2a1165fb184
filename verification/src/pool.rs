//! Connection pooling: a plain checkout pool, and the dispatch model of the
//! worker pool that serializes concurrent queries onto single-owner
//! connections.
//!
//! In the worker pool, each connection is owned by exactly one execution
//! context for its whole lifetime and is reached only through a private
//! request/response channel pair.  The dispatcher holds one shared
//! round-robin cursor; routing picks the cursor's slot and advances it.
//! Because each slot is drained by one context taking one request at a
//! time, the requests routed to a slot are answered in the order they were
//! sent to it.

use vstd::prelude::*;
use crate::connection::Connection;
use crate::params::SqlParam;

verus! {

/// A plain checkout pool of connections: take one out, put one back.
pub struct ConnectionPool {
    pub connections: Vec<Connection>,
}

impl ConnectionPool {
    /// Wraps a set of connections.
    pub fn new(connections: Vec<Connection>) -> (r: ConnectionPool)
        ensures
            r.connections@ == connections@,
    {
        ConnectionPool { connections }
    }

    /// Takes a connection out: the most recently returned one, or `None`
    /// when the pool is empty.
    pub fn get_connection(&mut self) -> (r: Option<Connection>)
        ensures
            old(self).connections@.len() == 0 ==> r is None && final(self).connections@ == old(self).connections@,
            old(self).connections@.len() > 0 ==> (r matches Some(c) && c == old(self).connections@.last() && final(self).connections@ == old(self).connections@.drop_last()),
    {
        self.connections.pop()
    }

    /// Puts a connection back.
    pub fn free_connection(&mut self, conn: Connection)
        requires
            old(self).connections@.len() < usize::MAX,
        ensures
            final(self).connections@ == old(self).connections@.push(conn),
    {
        self.connections.push(conn);
    }
}

/// One query request routed through the worker pool.
pub struct QueryRequest {
    pub sql: String,
    pub params: Vec<SqlParam>,
}

/// The mailbox model of one pool slot: every request routed to the slot in
/// send order, and how many of them its worker has already taken.  The
/// worker takes requests one at a time, front to back, so what was served
/// is always the arrival sequence's prefix.
pub struct PoolSlot {
    pub arrived: Vec<QueryRequest>,
    pub served: usize,
}

impl PoolSlot {
    /// The worker never runs ahead of the mailbox.
    pub open spec fn wf(self) -> bool {
        self.served <= self.arrived@.len()
    }

    /// The requests the worker has answered, in service order.
    pub open spec fn spec_served(self) -> Seq<QueryRequest> {
        self.arrived@.take(self.served as int)
    }

    /// An empty mailbox.
    pub fn new() -> (r: PoolSlot)
        ensures
            r.wf(),
            r.arrived@.len() == 0,
            r.served == 0,
    {
        PoolSlot { arrived: Vec::new(), served: 0 }
    }

    /// Sends one request to this slot's mailbox.
    pub fn enqueue(&mut self, req: QueryRequest)
        requires
            old(self).wf(),
            old(self).arrived@.len() < usize::MAX,
        ensures
            final(self).wf(),
            final(self).arrived@ == old(self).arrived@.push(req),
            final(self).served == old(self).served,
            final(self).spec_served() == old(self).spec_served(),
    {
        self.arrived.push(req);
        proof {
            assert(self.spec_served() =~= old(self).spec_served());
        }
    }

    /// The worker takes the next request, in arrival order: the first one
    /// not yet served, or `None` when the mailbox is drained.
    pub fn take_next(&mut self) -> (r: Option<&QueryRequest>)
        requires
            old(self).wf(),
        ensures
            final(self).wf(),
            final(self).arrived@ == old(self).arrived@,
            old(self).served == old(self).arrived@.len() ==> r is None && *final(self) == *old(
                self),
            old(self).served < old(self).arrived@.len() ==> (r matches Some(req) && *req == old(
                self).arrived@[old(self).served as int] && final(self).served == old(self).served
                + 1 && final(self).spec_served() == old(self).spec_served().push(*req)),
    {
        if self.served < self.arrived.len() {
            let ghost n = self.served as int;
            self.served = self.served + 1;
            proof {
                assert(self.spec_served() =~= old(self).spec_served().push(self.arrived@[n]));
            }
            Some(&self.arrived[self.served - 1])
        } else {
            None
        }
    }
}

/// The requests a slot answers come back in the order they were sent to
/// that slot: the k-th answer of slot i is the k-th request routed to slot
/// i.  This holds in every reachable slot state, because one worker drains
/// the slot one request at a time.
pub proof fn lemma_slot_answers_in_order(slot: PoolSlot, k: int)
    requires
        slot.wf(),
        0 <= k < slot.spec_served().len(),
    ensures
        slot.spec_served()[k] == slot.arrived@[k],
{
}

/// Advances the round-robin cursor over `len` slots: one step forward,
/// back to the first slot after the last.
pub fn next_cursor(cursor: u16, len: usize) -> (r: u16)
    requires
        1 <= len <= u16::MAX,
        cursor < len,
    ensures
        r == (if cursor + 1 >= len {
            0int
        } else {
            cursor + 1
        }),
        r < len,
{
    if cursor as usize + 1 >= len {
        0
    } else {
        cursor + 1
    }
}

/// The round-robin dispatcher: the slots and one shared cursor.
pub struct PoolDispatcher {
    pub slots: Vec<PoolSlot>,
    pub cursor: u16,
}

impl PoolDispatcher {
    /// The cursor always points at a slot, and every slot is well-formed.
    pub open spec fn wf(self) -> bool {
        &&& self.slots@.len() >= 1
        &&& self.slots@.len() <= u16::MAX
        &&& (self.cursor as int) < self.slots@.len()
        &&& forall|i: int| 0 <= i < self.slots@.len() ==> (#[trigger] self.slots@[i]).wf()
    }

    /// Builds a dispatcher of `size` empty slots.
    pub fn new(size: u16) -> (r: PoolDispatcher)
        requires
            size >= 1,
        ensures
            r.wf(),
            r.slots@.len() == size,
            r.cursor == 0,
            forall|i: int|
                0 <= i < size ==> (#[trigger] r.slots@[i]).arrived@.len() == 0
                    && r.slots@[i].served == 0,
    {
        let mut slots: Vec<PoolSlot> = Vec::new();
        let mut i: u16 = 0;
        while i < size
            invariant
                i <= size,
                slots@.len() == i,
                forall|j: int|
                    0 <= j < i ==> (#[trigger] slots@[j]).wf() && slots@[j].arrived@.len() == 0
                        && slots@[j].served == 0,
            decreases size - i,
        {
            slots.push(PoolSlot::new());
            i = i + 1;
        }
        PoolDispatcher { slots, cursor: 0 }
    }

    /// Routes one request: sends it to the cursor's slot and advances the
    /// cursor round-robin — back to the first slot after the last.  Returns
    /// the chosen slot's index.
    pub fn route(&mut self, req: QueryRequest) -> (idx: usize)
        requires
            old(self).wf(),
            old(self).slots@[old(self).cursor as int].arrived@.len() < usize::MAX,
        ensures
            final(self).wf(),
            idx == old(self).cursor,
            final(self).cursor == (if old(self).cursor + 1 >= old(self).slots@.len() {
                0
            } else {
                old(self).cursor + 1
            }),
            final(self).slots@.len() == old(self).slots@.len(),
            final(self).slots@[idx as int].arrived@ == old(self).slots@[idx as int].arrived@.push(req),
            final(self).slots@[idx as int].served == old(self).slots@[idx as int].served,
            forall|j: int|
                0 <= j < old(self).slots@.len() && j != idx ==> final(self).slots@[j] == old(self).slots@[j],
    {
        let idx = self.cursor as usize;
        let slot = &mut self.slots[idx];
        slot.enqueue(req);
        self.cursor = next_cursor(self.cursor, self.slots.len());
        idx
    }
}

} // verus!

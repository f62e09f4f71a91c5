//! The prediction queue: the pending-request table that sessions enqueue
//! into and the future cells a flush resolves.  Requests are grouped under
//! their network identifier; within a group, insertion order is kept so
//! that batch outputs can be paired positionally with inputs.

use vstd::prelude::*;
use crate::State;
use crate::future::{FutureState, PredictResult};

verus! {

/// One pending request: the input state and the index of its future cell.
#[derive(Clone, Copy, PartialEq, Eq, Structural, Debug)]
pub struct Req {
    pub input: State,
    pub ticket: usize,
}

/// All pending requests accumulated under one network identifier, in
/// insertion order.
#[derive(Clone, Debug)]
pub struct NetBatch {
    pub name: u64,
    pub reqs: Vec<Req>,
}

/// A lightweight handle to one future cell of the queue.
#[derive(Clone, Copy, PartialEq, Eq, Structural, Debug)]
pub struct PredictTicket {
    pub id: usize,
}

/// The pending-request table plus the future cells created for it.
/// Cells stay in place across flushes, so tickets issued earlier remain
/// readable after the table itself is cleared.
#[derive(Debug)]
pub struct PredictQueue {
    pub batches: Vec<NetBatch>,
    pub cells: Vec<PredictResult>,
}

/// Does some group carry this network identifier?
pub open spec fn has_name(batches: Seq<NetBatch>, name: u64) -> bool {
    exists|i: int| 0 <= i < batches.len() && (#[trigger] batches[i]).name == name
}

/// The effect of one enqueue on the pending-request table: the request is
/// appended to its identifier's group, which is created if absent; every
/// other group stands unchanged.
pub open spec fn enqueued_batches(
    pre: Seq<NetBatch>,
    post: Seq<NetBatch>,
    name: u64,
    x: State,
    t: usize,
) -> bool {
    if has_name(pre, name) {
        &&& post.len() == pre.len()
        &&& forall|j: int|
            0 <= j < pre.len() ==> {
                if (#[trigger] pre[j]).name == name {
                    &&& post[j].name == name
                    &&& post[j].reqs@ == pre[j].reqs@.push(Req { input: x, ticket: t })
                } else {
                    post[j] == pre[j]
                }
            }
    } else {
        &&& post.len() == pre.len() + 1
        &&& forall|j: int| 0 <= j < pre.len() ==> #[trigger] post[j] == pre[j]
        &&& post[pre.len() as int].name == name
        &&& post[pre.len() as int].reqs@ == seq![Req { input: x, ticket: t }]
    }
}

/// Is this cell index the ticket of some pending request of the table?
pub open spec fn is_ticket(batches: Seq<NetBatch>, t: int) -> bool {
    exists|b: int, r: int|
        0 <= b < batches.len() && 0 <= r < batches[b].reqs@.len() && (
        #[trigger] batches[b].reqs@[r]).ticket == t
}

/// One enqueue adds its own fresh ticket to the pending-request table and
/// keeps every ticket that was already pending.
pub proof fn lemma_enqueued_keeps_tickets(
    pre: Seq<NetBatch>,
    post: Seq<NetBatch>,
    name: u64,
    x: State,
    t: usize,
)
    requires
        enqueued_batches(pre, post, name, x, t),
    ensures
        is_ticket(post, t as int),
        forall|u: int| is_ticket(pre, u) ==> is_ticket(post, u),
{
    if has_name(pre, name) {
        let j = choose|j: int| 0 <= j < pre.len() && (#[trigger] pre[j]).name == name;
        assert(post[j].reqs@ == pre[j].reqs@.push(Req { input: x, ticket: t }));
        assert(post[j].reqs@[post[j].reqs@.len() - 1].ticket == t);
    } else {
        assert(post[pre.len() as int].reqs@ == seq![Req { input: x, ticket: t }]);
        assert(post[pre.len() as int].reqs@[0].ticket == t);
    }
    assert forall|u: int| is_ticket(pre, u) implies is_ticket(post, u) by {
        let (b, r) = choose|b: int, r: int|
            0 <= b < pre.len() && 0 <= r < pre[b].reqs@.len() && (
            #[trigger] pre[b].reqs@[r]).ticket == u;
        if has_name(pre, name) {
            if pre[b].name == name {
                assert(post[b].reqs@ == pre[b].reqs@.push(Req { input: x, ticket: t }));
                assert(post[b].reqs@[r].ticket == u);
            } else {
                assert(post[b] == pre[b]);
                assert(post[b].reqs@[r].ticket == u);
            }
        } else {
            assert(post[b] == pre[b]);
            assert(post[b].reqs@[r].ticket == u);
        }
    }
}

/// One enqueue introduces no group identifier beyond the one enqueued
/// under.
pub proof fn lemma_enqueued_names(
    pre: Seq<NetBatch>,
    post: Seq<NetBatch>,
    name: u64,
    x: State,
    t: usize,
)
    requires
        enqueued_batches(pre, post, name, x, t),
    ensures
        forall|n: u64| has_name(post, n) ==> has_name(pre, n) || n == name,
{
    assert forall|n: u64| has_name(post, n) implies has_name(pre, n) || n == name by {
        let i = choose|i: int| 0 <= i < post.len() && (#[trigger] post[i]).name == n;
        if has_name(pre, name) {
            if pre[i].name == name {
                assert(post[i].name == name);
            } else {
                assert(post[i] == pre[i]);
                assert(has_name(pre, n));
            }
        } else {
            if i < pre.len() {
                assert(post[i] == pre[i]);
                assert(has_name(pre, n));
            }
        }
    }
}

impl PredictQueue {
    /// Well-formedness of the table: group identifiers are distinct; every
    /// pending request points at a Pending cell of this queue; and no two
    /// pending requests share a cell.
    pub open spec fn wf(self) -> bool {
        &&& forall|i: int, j: int|
            0 <= i < j < self.batches@.len()
                ==> (#[trigger] self.batches@[i]).name != (#[trigger] self.batches@[j]).name
        &&& forall|b: int, r: int|
            0 <= b < self.batches@.len() && 0 <= r < self.batches@[b].reqs@.len() ==> {
                &&& (#[trigger] self.batches@[b].reqs@[r]).ticket < self.cells@.len()
                &&& self.cells@[self.batches@[b].reqs@[r].ticket as int].state is Pending
            }
        &&& forall|b1: int, r1: int, b2: int, r2: int|
            {
                &&& 0 <= b1 < self.batches@.len()
                &&& 0 <= r1 < self.batches@[b1].reqs@.len()
                &&& 0 <= b2 < self.batches@.len()
                &&& 0 <= r2 < self.batches@[b2].reqs@.len()
                &&& (#[trigger] self.batches@[b1].reqs@[r1]).ticket == (
                #[trigger] self.batches@[b2].reqs@[r2]).ticket
            } ==> b1 == b2 && r1 == r2
    }

    /// An empty table with no cells.
    pub fn new() -> (q: PredictQueue)
        ensures
            q.wf(),
            q.batches@.len() == 0,
            q.cells@.len() == 0,
    {
        PredictQueue { batches: Vec::new(), cells: Vec::new() }
    }

    /// The first group carrying this identifier, if any.
    fn find_batch_idx(&self, name: u64) -> (r: Option<usize>)
        ensures
            match r {
                Some(i) => i < self.batches@.len() && self.batches@[i as int].name == name,
                None => !has_name(self.batches@, name),
            },
    {
        let mut i: usize = 0;
        while i < self.batches.len()
            invariant
                i <= self.batches@.len(),
                forall|j: int| 0 <= j < i ==> (#[trigger] self.batches@[j]).name != name,
            decreases self.batches@.len() - i,
        {
            if self.batches[i].name == name {
                return Some(i);
            }
            i = i + 1;
        }
        None
    }

    /// Enqueue an inference request under a network identifier: a fresh
    /// Pending cell is created, the request joins its identifier's group
    /// (created if absent), and the cell's ticket is returned immediately.
    /// Never blocks; the caller suspends on the ticket until a flush
    /// resolves it.
    pub fn async_predict(&mut self, name: u64, x: State) -> (t: PredictTicket)
        requires
            old(self).wf(),
            old(self).cells@.len() < usize::MAX,
        ensures
            final(self).wf(),
            t.id == old(self).cells@.len(),
            final(self).cells@ == old(self).cells@.push(
                PredictResult { state: FutureState::Pending },
            ),
            enqueued_batches(old(self).batches@, final(self).batches@, name, x, t.id),
    {
        let id = self.cells.len();
        self.cells.push(PredictResult::new());
        let req = Req { input: x, ticket: id };
        match self.find_batch_idx(name) {
            Some(i) => {
                let slot = &mut self.batches[i];
                slot.reqs.push(req);
                proof {
                    assert(final(self).batches@[i as int].reqs@ == old(
                        self,
                    ).batches@[i as int].reqs@.push(req));
                    assert forall|j: int|
                        0 <= j < old(self).batches@.len() && old(self).batches@[j].name
                            == name implies j == i by {
                        if j != i {
                            assert(old(self).batches@[i as int].name == name);
                        }
                    }
                }
            },
            None => {
                let mut reqs: Vec<Req> = Vec::new();
                reqs.push(req);
                self.batches.push(NetBatch { name, reqs });
            },
        }
        PredictTicket { id }
    }

    /// Read the current state of the cell behind a ticket.
    pub fn poll(&self, t: &PredictTicket) -> (r: FutureState)
        requires
            t.id < self.cells@.len(),
        ensures
            r == self.cells@[t.id as int].state,
    {
        self.cells[t.id].poll()
    }
}

} // verus!

//! The batching engine: owns the loaded networks and the pending-request
//! table.  A flush takes every accumulated group, runs one inference call
//! per network identifier over the group's whole input sequence, resolves
//! each future cell with the output at its input's position, and clears
//! the table.

use vstd::prelude::*;
use crate::future::{FutureState, PredictResult};
use crate::network::{net_eval, Graph, LoadError, Network};
use crate::params::Setting;
use crate::queue::{enqueued_batches, has_name, is_ticket, NetBatch, PredictQueue, Req};
use crate::State;

verus! {

/// One loaded network under its identifier.
#[derive(Debug)]
pub struct NetEntry {
    pub name: u64,
    pub net: Network,
}

/// The failure of a flush: some pending request names a network identifier
/// with no loaded network.  This signals a fault of the orchestration
/// layer, never a condition to recover from; the caller aborts.
#[derive(Clone, Copy, PartialEq, Eq, Structural, Debug)]
pub enum PredictError {
    MissingNetwork(u64),
}

/// Is some network loaded under this identifier?
pub open spec fn has_net(nets: Seq<NetEntry>, name: u64) -> bool {
    exists|i: int| 0 <= i < nets.len() && (#[trigger] nets[i]).name == name
}

/// The network loaded under this identifier (identifiers are distinct, so
/// it is unique when present).
pub open spec fn net_for(nets: Seq<NetEntry>, name: u64) -> Network {
    nets[choose|i: int| 0 <= i < nets.len() && (#[trigger] nets[i]).name == name].net
}

/// The batching predictor.
#[derive(Debug)]
pub struct Predictor {
    pub networks: Vec<NetEntry>,
    pub queue: PredictQueue,
}

/// The invariant a flush relies on: every network identifier present in
/// the pending-request table has a loaded network.
pub open spec fn flush_ok(p: Predictor) -> bool {
    forall|b: int|
        0 <= b < p.queue.batches@.len() ==> has_net(
            p.networks@,
            (#[trigger] p.queue.batches@[b]).name,
        )
}

/// What the cells look like after a successful flush, over the loaded
/// networks and the pending-request table the flush found: the cell of
/// every pending request holds the output of its identifier's network at
/// its input's position, and every other cell stands unchanged.
pub open spec fn resolved_all_in(
    nets: Seq<NetEntry>,
    batches: Seq<NetBatch>,
    pre_cells: Seq<PredictResult>,
    post_cells: Seq<PredictResult>,
) -> bool {
    &&& forall|b: int, r: int|
        0 <= b < batches.len() && 0 <= r < batches[b].reqs@.len() ==> post_cells[(
        #[trigger] batches[b].reqs@[r]).ticket as int] == (PredictResult {
            state: FutureState::Ready(
                net_eval(net_for(nets, batches[b].name), batches[b].reqs@[r].input),
            ),
        })
    &&& forall|t: int|
        0 <= t < pre_cells.len() && !is_ticket(batches, t) ==> #[trigger] post_cells[t]
            == pre_cells[t]
}

/// `resolved_all_in`, read off a whole predictor as a flush found it.
pub open spec fn resolved_all(pre: Predictor, post_cells: Seq<PredictResult>) -> bool {
    resolved_all_in(pre.networks@, pre.queue.batches@, pre.queue.cells@, post_cells)
}

impl Predictor {
    /// Loaded-network identifiers are distinct, every loaded network is
    /// well formed, and the pending-request table is well formed.
    pub open spec fn wf(self) -> bool {
        &&& forall|i: int, j: int|
            0 <= i < j < self.networks@.len() ==> (#[trigger] self.networks@[i]).name != (
            #[trigger] self.networks@[j]).name
        &&& forall|i: int| 0 <= i < self.networks@.len() ==> (#[trigger] self.networks@[i]).net.wf()
        &&& self.queue.wf()
    }

    /// A predictor with no loaded network and an empty table.
    pub fn new() -> (p: Predictor)
        ensures
            p.wf(),
            p.networks@.len() == 0,
            p.queue.batches@.len() == 0,
            p.queue.cells@.len() == 0,
    {
        Predictor { networks: Vec::new(), queue: PredictQueue::new() }
    }

    /// The index of the network loaded under this identifier, if any.
    fn find_net_idx(&self, name: u64) -> (r: Option<usize>)
        ensures
            match r {
                Some(i) => i < self.networks@.len() && self.networks@[i as int].name == name,
                None => !has_net(self.networks@, name),
            },
    {
        let mut i: usize = 0;
        while i < self.networks.len()
            invariant
                i <= self.networks@.len(),
                forall|j: int| 0 <= j < i ==> (#[trigger] self.networks@[j]).name != name,
            decreases self.networks@.len() - i,
        {
            if self.networks[i].name == name {
                return Some(i);
            }
            i = i + 1;
        }
        None
    }

    /// Idempotent registration: loading an already-present identifier is a
    /// no-op, whatever weights are handed in; otherwise the weights are
    /// loaded and fail only when malformed.
    pub fn load_network(&mut self, name: u64, graph: &Graph) -> (r: Result<(), LoadError>)
        requires
            old(self).wf(),
        ensures
            final(self).wf(),
            final(self).queue == old(self).queue,
            has_net(old(self).networks@, name) ==> r is Ok
                && final(self).networks@ == old(self).networks@,
            !has_net(old(self).networks@, name) ==> {
                &&& (r is Ok <==> graph.wf())
                &&& r is Err ==> final(self).networks@ == old(self).networks@
                &&& r is Ok ==> {
                    &&& final(self).networks@.len() == old(self).networks@.len() + 1
                    &&& forall|j: int|
                        0 <= j < old(self).networks@.len() ==> #[trigger] final(self).networks@[j]
                            == old(self).networks@[j]
                    &&& final(self).networks@.last().name == name
                    &&& final(self).networks@.last().net.table@ == graph.table@
                }
            },
            has_net(final(self).networks@, name) <==> (has_net(old(self).networks@, name)
                || graph.wf()),
    {
        if self.find_net_idx(name).is_some() {
            return Ok(());
        }
        match Network::load_graph(graph) {
            Ok(net) => {
                self.networks.push(NetEntry { name, net });
                proof {
                    assert(self.networks@.last().name == name);
                    assert(has_net(self.networks@, name));
                }
                Ok(())
            },
            Err(e) => Err(e),
        }
    }

    /// The queue handle sessions enqueue through and poll against.
    pub fn get_queue(&mut self) -> (q: &mut PredictQueue)
        ensures
            *q == old(self).queue,
            final(self).queue == *final(q),
            final(self).networks == old(self).networks,
    {
        &mut self.queue
    }

    /// Flush the pending-request table.  For every identifier with pending
    /// requests, the whole input sequence goes through one inference call
    /// and every future cell of the group is resolved with the output at
    /// its input's position; afterwards the table is cleared.  Fails, with
    /// nothing changed, exactly when some pending identifier has no loaded
    /// network.
    pub fn predict_batch(&mut self, setting: &Setting) -> (r: Result<(), PredictError>)
        requires
            old(self).wf(),
        ensures
            final(self).wf(),
            final(self).networks@ == old(self).networks@,
            r is Ok <==> flush_ok(*old(self)),
            r matches Err(PredictError::MissingNetwork(n)) ==> has_name(
                old(self).queue.batches@,
                n,
            ) && !has_net(old(self).networks@, n),
            r is Err ==> final(self).queue.batches@ == old(self).queue.batches@
                && final(self).queue.cells@ == old(self).queue.cells@,
            r is Ok ==> {
                &&& final(self).queue.batches@.len() == 0
                &&& final(self).queue.cells@.len() == old(self).queue.cells@.len()
                &&& resolved_all(*old(self), final(self).queue.cells@)
            },
    {
        // First pass: the fatal-invariant check.  Every pending identifier
        // must already have a loaded network.
        let mut net_idxs: Vec<usize> = Vec::new();
        let mut b: usize = 0;
        while b < self.queue.batches.len()
            invariant
                *self == *old(self),
                old(self).wf(),
                b <= self.queue.batches@.len(),
                net_idxs@.len() == b,
                forall|k: int|
                    0 <= k < b ==> {
                        &&& (#[trigger] net_idxs@[k]) < self.networks@.len()
                        &&& self.networks@[net_idxs@[k] as int].name
                            == self.queue.batches@[k].name
                    },
            decreases self.queue.batches@.len() - b,
        {
            let name = self.queue.batches[b].name;
            match self.find_net_idx(name) {
                Some(i) => {
                    net_idxs.push(i);
                },
                None => {
                    return Err(PredictError::MissingNetwork(name));
                },
            }
            b = b + 1;
        }
        proof {
            assert forall|k: int| 0 <= k < self.queue.batches@.len() implies has_net(
                self.networks@,
                (#[trigger] self.queue.batches@[k]).name,
            ) by {
                assert(self.networks@[net_idxs@[k] as int].name == self.queue.batches@[k].name);
            }
        }

        // Second pass: one inference call per group, then positional
        // resolution of the group's cells.
        let ghost pre = *old(self);
        let mut b: usize = 0;
        while b < self.queue.batches.len()
            invariant
                pre == *old(self),
                pre.wf(),
                b <= self.queue.batches@.len(),
                net_idxs@.len() == self.queue.batches@.len(),
                forall|k: int|
                    0 <= k < self.queue.batches@.len() ==> {
                        &&& (#[trigger] net_idxs@[k]) < self.networks@.len()
                        &&& self.networks@[net_idxs@[k] as int].name
                            == self.queue.batches@[k].name
                    },
                self.networks@ == pre.networks@,
                self.queue.batches@ == pre.queue.batches@,
                self.queue.cells@.len() == pre.queue.cells@.len(),
                forall|b2: int, r2: int|
                    0 <= b2 < b && 0 <= r2 < pre.queue.batches@[b2].reqs@.len()
                        ==> self.queue.cells@[(
                    #[trigger] pre.queue.batches@[b2].reqs@[r2]).ticket as int] == (PredictResult {
                        state: FutureState::Ready(
                            net_eval(
                                net_for(pre.networks@, pre.queue.batches@[b2].name),
                                pre.queue.batches@[b2].reqs@[r2].input,
                            ),
                        ),
                    }),
                forall|b2: int, r2: int|
                    b <= b2 < pre.queue.batches@.len() && 0 <= r2
                        < pre.queue.batches@[b2].reqs@.len() ==> self.queue.cells@[(
                    #[trigger] pre.queue.batches@[b2].reqs@[r2]).ticket as int]
                        == pre.queue.cells@[pre.queue.batches@[b2].reqs@[r2].ticket as int],
                forall|t: int|
                    0 <= t < pre.queue.cells@.len() && !is_ticket(pre.queue.batches@, t)
                        ==> #[trigger] self.queue.cells@[t] == pre.queue.cells@[t],
            decreases self.queue.batches@.len() - b,
        {
            let ghost name_b = pre.queue.batches@[b as int].name;
            let ghost net_b = net_for(pre.networks@, name_b);
            let nidx = net_idxs[b];
            proof {
                lemma_net_for_unique(pre.networks@, nidx as int);
            }

            // Split the group into its parallel input sequence.
            let mut inputs: Vec<State> = Vec::new();
            let mut r: usize = 0;
            let reqs_len = self.queue.batches[b].reqs.len();
            while r < reqs_len
                invariant
                    b < self.queue.batches@.len(),
                    reqs_len == self.queue.batches@[b as int].reqs@.len(),
                    r <= reqs_len,
                    inputs@.len() == r,
                    forall|k: int|
                        0 <= k < r ==> #[trigger] inputs@[k]
                            == self.queue.batches@[b as int].reqs@[k].input,
                decreases reqs_len - r,
            {
                inputs.push(self.queue.batches[b].reqs[r].input);
                r = r + 1;
            }

            // Exactly one inference call for the whole group.
            let outputs = self.networks[nidx].net.infer_batch(&inputs, setting);

            // Resolve every cell of the group with the output at its
            // input's position.
            let mut r: usize = 0;
            while r < reqs_len
                invariant
                    pre.wf(),
                    b < self.queue.batches@.len(),
                    reqs_len == pre.queue.batches@[b as int].reqs@.len(),
                    r <= reqs_len,
                    self.networks@ == pre.networks@,
                    self.queue.batches@ == pre.queue.batches@,
                    self.queue.cells@.len() == pre.queue.cells@.len(),
                    outputs@.len() == reqs_len,
                    forall|k: int|
                        0 <= k < reqs_len ==> #[trigger] outputs@[k] == net_eval(
                            net_b,
                            pre.queue.batches@[b as int].reqs@[k].input,
                        ),
                    net_b == net_for(pre.networks@, pre.queue.batches@[b as int].name),
                    forall|b2: int, r2: int|
                        0 <= b2 < b && 0 <= r2 < pre.queue.batches@[b2].reqs@.len()
                            ==> self.queue.cells@[(
                        #[trigger] pre.queue.batches@[b2].reqs@[r2]).ticket as int] == (
                        PredictResult {
                            state: FutureState::Ready(
                                net_eval(
                                    net_for(pre.networks@, pre.queue.batches@[b2].name),
                                    pre.queue.batches@[b2].reqs@[r2].input,
                                ),
                            ),
                        }),
                    forall|r2: int|
                        0 <= r2 < r ==> self.queue.cells@[(
                        #[trigger] pre.queue.batches@[b as int].reqs@[r2]).ticket as int] == (
                        PredictResult {
                            state: FutureState::Ready(
                                net_eval(net_b, pre.queue.batches@[b as int].reqs@[r2].input),
                            ),
                        }),
                    forall|b2: int, r2: int|
                        b2 == b as int && r <= r2 < pre.queue.batches@[b2].reqs@.len() || b < b2
                            < pre.queue.batches@.len() && 0 <= r2
                            < pre.queue.batches@[b2].reqs@.len() ==> self.queue.cells@[(
                        #[trigger] pre.queue.batches@[b2].reqs@[r2]).ticket as int]
                            == pre.queue.cells@[pre.queue.batches@[b2].reqs@[r2].ticket as int],
                    forall|t: int|
                        0 <= t < pre.queue.cells@.len() && !is_ticket(pre.queue.batches@, t)
                            ==> #[trigger] self.queue.cells@[t] == pre.queue.cells@[t],
                decreases reqs_len - r,
            {
                let t = self.queue.batches[b].reqs[r].ticket;
                proof {
                    assert(pre.queue.batches@[b as int].reqs@[r as int].ticket == t);
                    assert(self.queue.cells@[t as int] == pre.queue.cells@[t as int]);
                    assert(pre.queue.cells@[t as int].state is Pending);
                }
                let out = outputs[r];
                let cell = &mut self.queue.cells[t];
                cell.resolve(out);
                r = r + 1;
            }
            b = b + 1;
        }

        // The whole table is cleared; cells stay behind for their readers.
        self.queue.batches.clear();
        Ok(())
    }
}

/// Law: after a flush, every returned future resolves to exactly the
/// output positionally corresponding to its input, for every network
/// identifier present — the request at position `r` of identifier
/// `name`'s group holds its network's answer to that very input — and no
/// two pending requests share a cell, so each of the N requests of a
/// flush ends in its own resolved future.
pub proof fn lemma_flush_positional(
    pre: Predictor,
    post_cells: Seq<PredictResult>,
    b: int,
    r: int,
    b2: int,
    r2: int,
)
    requires
        pre.wf(),
        resolved_all(pre, post_cells),
        0 <= b < pre.queue.batches@.len(),
        0 <= r < pre.queue.batches@[b].reqs@.len(),
        0 <= b2 < pre.queue.batches@.len(),
        0 <= r2 < pre.queue.batches@[b2].reqs@.len(),
        (b2, r2) != (b, r),
    ensures
        post_cells[pre.queue.batches@[b].reqs@[r].ticket as int].state == FutureState::Ready(
            net_eval(
                net_for(pre.networks@, pre.queue.batches@[b].name),
                pre.queue.batches@[b].reqs@[r].input,
            ),
        ),
        pre.queue.batches@[b2].reqs@[r2].ticket != pre.queue.batches@[b].reqs@[r].ticket,
{
}

/// Law: flushing with an empty pending-request table is a no-op: it is
/// owed success, and every future cell stands exactly as it stood.
pub proof fn lemma_flush_empty_is_noop(pre: Predictor, post_cells: Seq<PredictResult>)
    requires
        pre.wf(),
        pre.queue.batches@.len() == 0,
        post_cells.len() == pre.queue.cells@.len(),
        resolved_all(pre, post_cells),
    ensures
        flush_ok(pre),
        post_cells == pre.queue.cells@,
{
    assert forall|t: int| 0 <= t < pre.queue.cells@.len() implies #[trigger] post_cells[t]
        == pre.queue.cells@[t] by {
        assert(!is_ticket(pre.queue.batches@, t));
    }
    assert(post_cells =~= pre.queue.cells@);
}

/// Law: one enqueue followed by one flush is a round trip.  The future
/// returned by `async_predict(name, x)` — the last request of `name`'s
/// group — resolves to its own network's answer to `x` itself.
pub proof fn lemma_enqueue_flush_round_trip(
    q0: Seq<NetBatch>,
    mid: Predictor,
    post_cells: Seq<PredictResult>,
    name: u64,
    x: State,
    t: usize,
    b: int,
)
    requires
        mid.wf(),
        enqueued_batches(q0, mid.queue.batches@, name, x, t),
        resolved_all(mid, post_cells),
        0 <= b < mid.queue.batches@.len(),
        mid.queue.batches@[b].name == name,
        has_name(q0, name) ==> 0 <= b < q0.len() && q0[b].name == name,
        !has_name(q0, name) ==> b == q0.len(),
    ensures
        mid.queue.batches@[b].reqs@.last() == (Req { input: x, ticket: t }),
        post_cells[t as int].state == FutureState::Ready(
            net_eval(net_for(mid.networks@, name), x),
        ),
{
    if has_name(q0, name) {
        assert(mid.queue.batches@[b].reqs@ == q0[b].reqs@.push(Req { input: x, ticket: t }));
    } else {
        assert(mid.queue.batches@[b].reqs@ == seq![Req { input: x, ticket: t }]);
    }
    let r = mid.queue.batches@[b].reqs@.len() - 1;
    assert(mid.queue.batches@[b].reqs@[r].ticket == t);
}

/// With distinct identifiers, `net_for` picks exactly the entry at the
/// index where the identifier stands.
pub proof fn lemma_net_for_unique(nets: Seq<NetEntry>, i: int)
    requires
        0 <= i < nets.len(),
        forall|a: int, c: int|
            0 <= a < c < nets.len() ==> (#[trigger] nets[a]).name != (#[trigger] nets[c]).name,
    ensures
        net_for(nets, nets[i].name) == nets[i].net,
{
    let name = nets[i].name;
    assert(has_net(nets, name));
    let j = choose|j: int| 0 <= j < nets.len() && (#[trigger] nets[j]).name == name;
    if j < i {
        assert(nets[j].name != nets[i].name);
    } else if j > i {
        assert(nets[i].name != nets[j].name);
    }
}

} // verus!

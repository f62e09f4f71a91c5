//! The self-play worker: owns one batching predictor and one executor of
//! session slots, and alternates between draining model notifications,
//! polling all sessions, and flushing the predictor.  Its discipline —
//! load every announced model before adopting its identifier, and let
//! sessions enqueue only under adopted identifiers — keeps the fatal
//! flush invariant from ever triggering.

use vstd::prelude::*;
use crate::executor::{poll_round_rel, Executor, StepRequest};
use crate::network::{Graph, LoadError};
use crate::params::EpisodeParameter;
use crate::predictor::{flush_ok, has_net, resolved_all_in, Predictor};
use crate::queue::{has_name, is_ticket, PredictQueue};
use crate::session::{awaiting_tracked, Replay, Session, SessionPhase};
use crate::State;

verus! {

/// What the model broadcast channel delivered: a new network version, or
/// permanent closure, the expected shutdown signal.
pub enum Notification {
    Model(u64, Graph),
    Closed,
}

/// The full effect of one `Worker::drive_round`: some pending-request
/// table `mid_q` connects the two halves of the round — the polling half
/// turns the old slots and the old queue into the new slots and `mid_q`
/// (per `poll_round_rel`, which also fixes the returned requests), and
/// the flush half resolves every cell `mid_q` holds pending with its own
/// network's answer to its own input, clears the table, and leaves every
/// other cell unchanged.
pub open spec fn drive_round_rel(pre: Worker, post: Worker, reqs: Seq<StepRequest>) -> bool {
    exists|mid_q: PredictQueue|
        #![trigger resolved_all_in(pre.predictor.networks@, mid_q.batches@, mid_q.cells@, post.predictor.queue.cells@)]
        {
            &&& poll_round_rel(
                pre.executor.slots@,
                post.executor.slots@,
                pre.predictor.queue,
                mid_q,
                pre.version,
                reqs,
            )
            &&& post.predictor.networks@ == pre.predictor.networks@
            &&& post.predictor.queue.batches@.len() == 0
            &&& post.predictor.queue.cells@.len() == mid_q.cells@.len()
            &&& resolved_all_in(
                pre.predictor.networks@,
                mid_q.batches@,
                mid_q.cells@,
                post.predictor.queue.cells@,
            )
        }
}

/// One worker thread's state: predictor, executor, and the current
/// network version cell that sessions read at each decision point.
pub struct Worker {
    pub predictor: Predictor,
    pub executor: Executor,
    pub version: u64,
    pub started: bool,
    pub done: bool,
    pub rounds_per_cycle: u32,
    pub params: EpisodeParameter,
}

impl Worker {
    /// The worker's discipline: the predictor and every slot are well
    /// formed; once started, the adopted version has a loaded network;
    /// every slot's committed identifier has a loaded network; and every
    /// identifier pending in the queue has a loaded network.
    pub open spec fn wf(self) -> bool {
        &&& self.predictor.wf()
        &&& self.executor.wf_for(self.predictor.queue)
        &&& self.params.wf()
        &&& self.started ==> has_net(self.predictor.networks@, self.version)
        &&& forall|i: int|
            0 <= i < self.executor.slots@.len() ==> has_net(
                self.predictor.networks@,
                (#[trigger] self.executor.slots@[i]).name,
            )
        &&& forall|i: int|
            0 <= i < self.executor.slots@.len() ==> awaiting_tracked(
                #[trigger] self.executor.slots@[i],
                self.predictor.queue,
            )
        &&& flush_ok(self.predictor)
    }

    /// A worker that has not yet seen its first model notification.
    pub fn new(params: EpisodeParameter, rounds_per_cycle: u32) -> (w: Worker)
        requires
            params.wf(),
        ensures
            w.wf(),
            !w.started,
            !w.done,
            w.params == params,
            w.rounds_per_cycle == rounds_per_cycle,
            w.executor.slots@.len() == 0,
            w.predictor.networks@.len() == 0,
            w.predictor.queue.batches@.len() == 0,
            w.predictor.queue.cells@.len() == 0,
    {
        Worker {
            predictor: Predictor::new(),
            executor: Executor::new(),
            version: 0,
            started: false,
            done: false,
            rounds_per_cycle,
            params,
        }
    }

    /// Handle one drained notification.  Closure marks the worker done —
    /// it terminates immediately, abandoning suspended sessions.  A model
    /// notification loads the network (idempotently) and adopts its
    /// identifier as the current version; malformed weights for a fresh
    /// identifier are the one error.
    pub fn handle_notification(&mut self, n: Notification) -> (r: Result<(), LoadError>)
        requires
            old(self).wf(),
        ensures
            final(self).wf(),
            final(self).params == old(self).params,
            final(self).executor.slots@ == old(self).executor.slots@,
            n is Closed ==> {
                &&& r is Ok
                &&& final(self).done
                &&& final(self).predictor == old(self).predictor
                &&& final(self).started == old(self).started
                &&& final(self).version == old(self).version
            },
            n matches Notification::Model(name, g) ==> {
                &&& final(self).done == old(self).done
                &&& final(self).predictor.queue == old(self).predictor.queue
                &&& (r is Ok <==> (g.wf() || has_net(old(self).predictor.networks@, name)))
                &&& r is Ok ==> final(self).started && final(self).version == name
                &&& r is Err ==> final(self).started == old(self).started
                    && final(self).version == old(self).version
                    && final(self).predictor.networks@ == old(self).predictor.networks@
                &&& has_net(old(self).predictor.networks@, name) ==> final(self).predictor.networks@
                    == old(self).predictor.networks@
                &&& !has_net(old(self).predictor.networks@, name) && r is Ok ==> {
                    &&& final(self).predictor.networks@.len()
                        == old(self).predictor.networks@.len() + 1
                    &&& forall|j: int|
                        0 <= j < old(self).predictor.networks@.len()
                            ==> #[trigger] final(self).predictor.networks@[j]
                            == old(self).predictor.networks@[j]
                    &&& final(self).predictor.networks@.last().name == name
                    &&& final(self).predictor.networks@.last().net.table@ == g.table@
                }
            },
    {
        match n {
            Notification::Closed => {
                self.done = true;
                Ok(())
            },
            Notification::Model(name, graph) => {
                let ghost pre_nets = self.predictor.networks@;
                match self.predictor.load_network(name, &graph) {
                    Ok(()) => {
                        self.version = name;
                        self.started = true;
                        proof {
                            assert forall|m: u64| has_net(pre_nets, m) implies has_net(
                                self.predictor.networks@,
                                m,
                            ) by {
                                let i = choose|i: int|
                                    0 <= i < pre_nets.len() && (#[trigger] pre_nets[i]).name == m;
                                assert(self.predictor.networks@[i].name == m);
                            }
                        }
                        Ok(())
                    },
                    Err(e) => Err(e),
                }
            },
        }
    }

    /// Add one session slot, committed to the current version.
    pub fn spawn_session(&mut self, initial: State, seed: u64)
        requires
            old(self).wf(),
            old(self).started,
        ensures
            final(self).wf(),
            final(self).started,
            final(self).done == old(self).done,
            final(self).params == old(self).params,
            final(self).version == old(self).version,
            final(self).predictor == old(self).predictor,
            final(self).executor.slots@.len() == old(self).executor.slots@.len() + 1,
            forall|j: int|
                0 <= j < old(self).executor.slots@.len()
                    ==> #[trigger] final(self).executor.slots@[j] == old(self).executor.slots@[j],
            final(self).executor.slots@.last().params == old(self).params,
            final(self).executor.slots@.last().name == old(self).version,
            final(self).executor.slots@.last().state == initial,
            final(self).executor.slots@.last().samples@.len() == 0,
            final(self).executor.slots@.last().sims_done == 0,
            final(self).executor.slots@.last().phase is Deciding,
    {
        let s = Session::new(self.params, self.version, initial, seed);
        self.executor.spawn(s);
    }

    /// One drive round: poll every session slot once, then flush the
    /// predictor.  Under the worker's discipline the flush is owed
    /// success: the fatal missing-network path is unreachable, which this
    /// contract states and the body proves.
    pub fn drive_round(&mut self) -> (reqs: Vec<StepRequest>)
        requires
            old(self).wf(),
            old(self).started,
            old(self).predictor.queue.cells@.len() + old(self).executor.slots@.len() < usize::MAX,
        ensures
            final(self).wf(),
            final(self).started,
            final(self).done == old(self).done,
            final(self).params == old(self).params,
            final(self).version == old(self).version,
            final(self).executor.slots@.len() == old(self).executor.slots@.len(),
            final(self).predictor.queue.batches@.len() == 0,
            forall|i: int|
                0 <= i < final(self).executor.slots@.len() ==> ((
                #[trigger] final(self).executor.slots@[i]).phase matches SessionPhase::Awaiting(t)
                    ==> final(self).predictor.queue.cells@[t.id as int].state is Ready),
            forall|k: int|
                0 <= k < reqs@.len() ==> {
                    &&& (#[trigger] reqs@[k]).slot < final(self).executor.slots@.len()
                    &&& final(self).executor.slots@[reqs@[k].slot as int].phase
                        == SessionPhase::Stepping(reqs@[k].action)
                },
            drive_round_rel(*old(self), *final(self), reqs@),
    {
        let ghost pre = *self;
        let reqs = self.executor.poll_all(&mut self.predictor.queue, self.version);
        proof {
            assert forall|b: int| 0 <= b < self.predictor.queue.batches@.len() implies has_net(
                self.predictor.networks@,
                (#[trigger] self.predictor.queue.batches@[b]).name,
            ) by {
                let nm = self.predictor.queue.batches@[b].name;
                assert(has_name(self.predictor.queue.batches@, nm));
            }
        }
        let ghost mid = *self;
        let fr = self.predictor.predict_batch(&self.params.setting);
        proof {
            assert(fr is Ok);
            assert forall|i: int| 0 <= i < self.executor.slots@.len() implies awaiting_tracked(
                #[trigger] self.executor.slots@[i],
                self.predictor.queue,
            ) && ((self.executor.slots@[i]).phase matches SessionPhase::Awaiting(t)
                ==> self.predictor.queue.cells@[t.id as int].state is Ready) by {
                let s = self.executor.slots@[i];
                match s.phase {
                    SessionPhase::Awaiting(t) => {
                        assert(awaiting_tracked(s, mid.predictor.queue));
                        assert(t.id < mid.predictor.queue.cells@.len());
                        if is_ticket(mid.predictor.queue.batches@, t.id as int) {
                            let (b, r) = choose|b: int, r: int|
                                0 <= b < mid.predictor.queue.batches@.len() && 0 <= r
                                    < mid.predictor.queue.batches@[b].reqs@.len() && (
                                #[trigger] mid.predictor.queue.batches@[b].reqs@[r]).ticket
                                    == t.id as int;
                            assert(self.predictor.queue.cells@[t.id as int].state is Ready);
                        } else {
                            assert(self.predictor.queue.cells@[t.id as int]
                                == mid.predictor.queue.cells@[t.id as int]);
                        }
                    },
                    _ => {},
                }
            }
            assert(resolved_all_in(
                old(self).predictor.networks@,
                mid.predictor.queue.batches@,
                mid.predictor.queue.cells@,
                self.predictor.queue.cells@,
            ));
            assert(poll_round_rel(
                old(self).executor.slots@,
                self.executor.slots@,
                old(self).predictor.queue,
                mid.predictor.queue,
                old(self).version,
                reqs@,
            ));
            assert(drive_round_rel(*old(self), *self, reqs@));
        }
        reqs
    }

    /// Serve one step request of the last round.
    pub fn apply_step(
        &mut self,
        slot: usize,
        next: State,
        terminated: bool,
        reward_milli: i64,
    ) -> (r: Option<Replay>)
        requires
            old(self).wf(),
            slot < old(self).executor.slots@.len(),
            old(self).executor.slots@[slot as int].phase is Stepping,
        ensures
            final(self).wf(),
            final(self).started == old(self).started,
            final(self).done == old(self).done,
            final(self).params == old(self).params,
            final(self).version == old(self).version,
            final(self).executor.slots@.len() == old(self).executor.slots@.len(),
            final(self).predictor == old(self).predictor,
            forall|j: int|
                0 <= j < old(self).executor.slots@.len() && j != slot
                    ==> #[trigger] final(self).executor.slots@[j] == old(self).executor.slots@[j],
            final(self).executor.slots@[slot as int].params
                == old(self).executor.slots@[slot as int].params,
            final(self).executor.slots@[slot as int].name
                == old(self).executor.slots@[slot as int].name,
            !terminated ==> {
                &&& r is None
                &&& final(self).executor.slots@[slot as int].state == next
                &&& final(self).executor.slots@[slot as int].phase is Deciding
                &&& final(self).executor.slots@[slot as int].samples@
                    == old(self).executor.slots@[slot as int].samples@
            },
            terminated ==> {
                &&& final(self).executor.slots@[slot as int].phase is NeedRestart
                &&& final(self).executor.slots@[slot as int].samples@.len() == 0
                &&& r matches Some(rep)
                    && rep.samples@ == old(self).executor.slots@[slot as int].samples@
                    && rep.name == old(self).executor.slots@[slot as int].name
                    && rep.last_state == next
                    && rep.reward_milli == reward_milli
            },
    {
        self.executor.apply_step(slot, next, terminated, reward_milli)
    }

    /// Restart a slot that emitted its replay.
    pub fn restart_slot(&mut self, slot: usize, initial: State, seed: u64)
        requires
            old(self).wf(),
            old(self).started,
            slot < old(self).executor.slots@.len(),
        ensures
            final(self).wf(),
            final(self).started,
            final(self).done == old(self).done,
            final(self).params == old(self).params,
            final(self).version == old(self).version,
            final(self).executor.slots@.len() == old(self).executor.slots@.len(),
            final(self).predictor == old(self).predictor,
            forall|j: int|
                0 <= j < old(self).executor.slots@.len() && j != slot
                    ==> #[trigger] final(self).executor.slots@[j] == old(self).executor.slots@[j],
            final(self).executor.slots@[slot as int].params
                == old(self).executor.slots@[slot as int].params,
            final(self).executor.slots@[slot as int].name
                == old(self).executor.slots@[slot as int].name,
            final(self).executor.slots@[slot as int].state == initial,
            final(self).executor.slots@[slot as int].sims_done == 0,
            final(self).executor.slots@[slot as int].phase is Deciding,
            final(self).executor.slots@[slot as int].samples@.len() == 0,
    {
        self.executor.restart_slot(slot, initial, seed);
    }
}

} // verus!

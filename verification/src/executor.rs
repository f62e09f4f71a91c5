//! The cooperative executor: a fixed pool of session slots, each advanced
//! once per round in slot order.  It never blocks and never sleeps; a
//! session that cannot progress simply stays suspended until the next
//! round.

use vstd::prelude::*;
use crate::queue::{has_name, PredictQueue};
use crate::session::{awaiting_tracked, polled_rel, Replay, Session, SessionPhase, SessionPoll};
use crate::State;

verus! {

/// A request the driver must serve between rounds: apply `action` to
/// `state` through the external game rules, then answer slot `slot`.
#[derive(Clone, Copy, PartialEq, Eq, Structural, Debug)]
pub struct StepRequest {
    pub slot: usize,
    pub state: State,
    pub action: usize,
}

/// The step requests one polling round owes its driver: one request per
/// slot whose poll reached a decision, in slot order.
pub open spec fn step_requests_of(polls: Seq<SessionPoll>) -> Seq<StepRequest>
    decreases polls.len(),
{
    if polls.len() == 0 {
        Seq::empty()
    } else {
        let prefix = step_requests_of(polls.drop_last());
        match polls.last() {
            SessionPoll::NeedStep(s, a) => prefix.push(
                StepRequest { slot: (polls.len() - 1) as usize, state: s, action: a },
            ),
            SessionPoll::Suspended => prefix,
        }
    }
}

/// One polling round over all slots in slot order: `qs` is the chain of
/// queue states the round threads through (one entry per slot boundary)
/// and `polls` the answer each slot's poll gave; every slot is polled
/// exactly once, against the queue as the slots before it left it.
pub open spec fn polled_all_rel(
    pre: Seq<Session>,
    post: Seq<Session>,
    qs: Seq<PredictQueue>,
    polls: Seq<SessionPoll>,
    version: u64,
) -> bool {
    &&& post.len() == pre.len()
    &&& qs.len() == pre.len() + 1
    &&& polls.len() == pre.len()
    &&& forall|i: int|
        #![trigger polls[i]]
        0 <= i < pre.len() ==> polled_rel(pre[i], post[i], qs[i], qs[i + 1], version, polls[i])
}

/// The full effect of `Executor::poll_all`: some chain of queue states
/// and poll answers connects the old slots to the new ones by
/// `polled_rel`, starting from the old queue and ending at the new one,
/// and the returned requests are exactly the decisions of that round.
pub open spec fn poll_round_rel(
    pre_slots: Seq<Session>,
    post_slots: Seq<Session>,
    pre_q: PredictQueue,
    post_q: PredictQueue,
    version: u64,
    reqs: Seq<StepRequest>,
) -> bool {
    exists|qs: Seq<PredictQueue>, polls: Seq<SessionPoll>|
        #![trigger polled_all_rel(pre_slots, post_slots, qs, polls, version)]
        {
            &&& polled_all_rel(pre_slots, post_slots, qs, polls, version)
            &&& qs[0] == pre_q
            &&& qs.last() == post_q
            &&& reqs == step_requests_of(polls)
        }
}

/// The pool of cooperatively scheduled sessions.
pub struct Executor {
    pub slots: Vec<Session>,
}

impl Executor {
    /// Every slot is well formed against the queue it runs against.
    pub open spec fn wf_for(self, q: PredictQueue) -> bool {
        forall|i: int| 0 <= i < self.slots@.len() ==> (#[trigger] self.slots@[i]).wf_for(q)
    }

    /// An executor with no slots.
    pub fn new() -> (e: Executor)
        ensures
            e.slots@.len() == 0,
    {
        Executor { slots: Vec::new() }
    }

    /// Add one session slot.
    pub fn spawn(&mut self, s: Session)
        ensures
            final(self).slots@ == old(self).slots@.push(s),
    {
        self.slots.push(s);
    }

    /// Poll every session slot once, in slot order, collecting the step
    /// requests of the sessions that reached a decision.
    pub fn poll_all(&mut self, queue: &mut PredictQueue, version: u64) -> (reqs: Vec<StepRequest>)
        requires
            old(self).wf_for(*old(queue)),
            old(queue).wf(),
            old(queue).cells@.len() + old(self).slots@.len() < usize::MAX,
            forall|i: int|
                0 <= i < old(self).slots@.len() ==> awaiting_tracked(
                    #[trigger] old(self).slots@[i],
                    *old(queue),
                ),
        ensures
            final(self).wf_for(*final(queue)),
            final(queue).wf(),
            forall|i: int|
                0 <= i < final(self).slots@.len() ==> awaiting_tracked(
                    #[trigger] final(self).slots@[i],
                    *final(queue),
                ),
            final(self).slots@.len() == old(self).slots@.len(),
            final(queue).cells@.len() >= old(queue).cells@.len(),
            final(queue).cells@.len() <= old(queue).cells@.len() + old(self).slots@.len(),
            forall|t: int|
                0 <= t < old(queue).cells@.len()
                    ==> #[trigger] final(queue).cells@[t] == old(queue).cells@[t],
            forall|n: u64|
                has_name(final(queue).batches@, n) ==> has_name(old(queue).batches@, n) || n
                    == version || exists|i: int|
                    0 <= i < old(self).slots@.len() && (#[trigger] old(self).slots@[i]).name == n,
            forall|i: int|
                0 <= i < old(self).slots@.len() ==> {
                    &&& (#[trigger] final(self).slots@[i]).params == old(self).slots@[i].params
                    &&& (final(self).slots@[i].name == old(self).slots@[i].name
                        || final(self).slots@[i].name == version)
                },
            forall|k: int|
                0 <= k < reqs@.len() ==> {
                    &&& (#[trigger] reqs@[k]).slot < final(self).slots@.len()
                    &&& final(self).slots@[reqs@[k].slot as int].phase == SessionPhase::Stepping(
                        reqs@[k].action,
                    )
                },
            poll_round_rel(
                old(self).slots@,
                final(self).slots@,
                *old(queue),
                *final(queue),
                version,
                reqs@,
            ),
    {
        let ghost pre = *self;
        let ghost q0 = *queue;
        let ghost mut qs: Seq<PredictQueue> = seq![q0];
        let ghost mut polls: Seq<SessionPoll> = Seq::empty();
        let mut reqs: Vec<StepRequest> = Vec::new();
        let mut i: usize = 0;
        let n = self.slots.len();
        while i < n
            invariant
                pre.wf_for(q0),
                q0.wf(),
                q0.cells@.len() + pre.slots@.len() < usize::MAX,
                n == pre.slots@.len(),
                i <= n,
                self.slots@.len() == n,
                self.wf_for(*queue),
                queue.wf(),
                forall|j: int|
                    0 <= j < self.slots@.len() ==> awaiting_tracked(
                        #[trigger] self.slots@[j],
                        *queue,
                    ),
                queue.cells@.len() >= q0.cells@.len(),
                queue.cells@.len() <= q0.cells@.len() + i,
                forall|t: int|
                    0 <= t < q0.cells@.len() ==> #[trigger] queue.cells@[t] == q0.cells@[t],
                forall|m: u64|
                    has_name(queue.batches@, m) ==> has_name(q0.batches@, m) || m == version
                        || exists|j: int|
                        0 <= j < pre.slots@.len() && (#[trigger] pre.slots@[j]).name == m,
                forall|j: int| i <= j < n ==> #[trigger] self.slots@[j] == pre.slots@[j],
                qs.len() == i + 1,
                polls.len() == i,
                qs[0] == q0,
                qs.last() == *queue,
                reqs@ == step_requests_of(polls),
                forall|j: int|
                    #![trigger polls[j]]
                    0 <= j < i ==> polled_rel(
                        pre.slots@[j],
                        self.slots@[j],
                        qs[j],
                        qs[j + 1],
                        version,
                        polls[j],
                    ),
                forall|j: int|
                    0 <= j < i ==> {
                        &&& (#[trigger] self.slots@[j]).params == pre.slots@[j].params
                        &&& (self.slots@[j].name == pre.slots@[j].name || self.slots@[j].name
                            == version)
                    },
                forall|k: int|
                    0 <= k < reqs@.len() ==> {
                        &&& (#[trigger] reqs@[k]).slot < i
                        &&& self.slots@[reqs@[k].slot as int].phase == SessionPhase::Stepping(
                            reqs@[k].action,
                        )
                    },
            decreases n - i,
        {
            let s = &mut self.slots[i];
            let r = s.poll(queue, version);
            match r {
                SessionPoll::NeedStep(st, a) => {
                    reqs.push(StepRequest { slot: i, state: st, action: a });
                },
                SessionPoll::Suspended => {},
            }
            proof {
                let prev_polls = polls;
                polls = polls.push(r);
                qs = qs.push(*queue);
                assert(polls.drop_last() =~= prev_polls);
                assert(polls.last() == r);
                assert(reqs@ == step_requests_of(polls));
            }
            i = i + 1;
        }
        proof {
            assert(polled_all_rel(pre.slots@, self.slots@, qs, polls, version));
            assert(poll_round_rel(pre.slots@, self.slots@, q0, *queue, version, reqs@));
        }
        reqs
    }

    /// Serve one step request: hand the environment's transition to the
    /// slot's session, passing a completed replay back out.
    pub fn apply_step(
        &mut self,
        slot: usize,
        next: State,
        terminated: bool,
        reward_milli: i64,
    ) -> (r: Option<Replay>)
        requires
            slot < old(self).slots@.len(),
            old(self).slots@[slot as int].wf(),
            old(self).slots@[slot as int].phase is Stepping,
        ensures
            final(self).slots@.len() == old(self).slots@.len(),
            forall|j: int|
                0 <= j < old(self).slots@.len() && j != slot ==> #[trigger] final(self).slots@[j]
                    == old(self).slots@[j],
            final(self).slots@[slot as int].wf(),
            final(self).slots@[slot as int].params == old(self).slots@[slot as int].params,
            final(self).slots@[slot as int].name == old(self).slots@[slot as int].name,
            !terminated ==> {
                &&& r is None
                &&& final(self).slots@[slot as int].state == next
                &&& final(self).slots@[slot as int].phase is Deciding
                &&& final(self).slots@[slot as int].samples@
                    == old(self).slots@[slot as int].samples@
            },
            terminated ==> {
                &&& final(self).slots@[slot as int].phase is NeedRestart
                &&& final(self).slots@[slot as int].samples@.len() == 0
                &&& r matches Some(rep) && rep.samples@ == old(self).slots@[slot as int].samples@
                    && rep.name == old(self).slots@[slot as int].name && rep.last_state == next
                    && rep.reward_milli == reward_milli
            },
    {
        let s = &mut self.slots[slot];
        s.apply_step(next, terminated, reward_milli)
    }

    /// Restart a slot with a fresh game.
    pub fn restart_slot(&mut self, slot: usize, initial: State, seed: u64)
        requires
            slot < old(self).slots@.len(),
            old(self).slots@[slot as int].wf(),
        ensures
            final(self).slots@.len() == old(self).slots@.len(),
            forall|j: int|
                0 <= j < old(self).slots@.len() && j != slot ==> #[trigger] final(self).slots@[j]
                    == old(self).slots@[j],
            final(self).slots@[slot as int].wf(),
            final(self).slots@[slot as int].params == old(self).slots@[slot as int].params,
            final(self).slots@[slot as int].name == old(self).slots@[slot as int].name,
            final(self).slots@[slot as int].state == initial,
            final(self).slots@[slot as int].samples@.len() == 0,
            final(self).slots@[slot as int].sims_done == 0,
            final(self).slots@[slot as int].phase is Deciding,
    {
        let s = &mut self.slots[slot];
        s.restart(initial, seed);
    }
}

} // verus!

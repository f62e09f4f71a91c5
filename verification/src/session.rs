//! A self-play session: a suspendable unit of work that runs one full
//! game, awaiting predictions from the queue at each decision point, and
//! emits a completed replay record on termination.  Instead of an opaque
//! coroutine, the session is an explicit state machine; the external game
//! rules step it between polls.

use vstd::prelude::*;
use crate::action::{pick_action, select_action};
use crate::future::FutureState;
use crate::network::ActionVector;
use crate::params::EpisodeParameter;
use crate::queue::{
    enqueued_batches, has_name, is_ticket, lemma_enqueued_keeps_tickets, lemma_enqueued_names,
    PredictQueue, PredictTicket,
};
use crate::rng::{rng_from_seed, rng_next};
use crate::State;

verus! {

/// One decision of a finished or running game: the action taken, the state
/// it was taken in, and the move-probability vector search produced.
#[derive(Clone, Copy, PartialEq, Eq, Structural, Debug)]
pub struct Sample {
    pub action: usize,
    pub state: State,
    pub mcts_policy: ActionVector,
}

/// The persisted output of one completed game, tagged with the network
/// identifier the session played under.
#[derive(Debug)]
pub struct Replay {
    pub samples: Vec<Sample>,
    pub name: u64,
    pub last_state: State,
    pub reward_milli: i64,
}

/// Where a session stands between polls.
#[derive(Clone, Copy, PartialEq, Eq, Structural, Debug)]
pub enum SessionPhase {
    /// At a decision point, about to enqueue its prediction rounds.
    Deciding,
    /// Suspended on a future cell of the queue.
    Awaiting(PredictTicket),
    /// A decision was made; the environment must apply the action.
    Stepping(usize),
    /// A replay was emitted; the slot waits for a fresh game.
    NeedRestart,
}

/// What one poll of a session asks of its driver.
#[derive(Clone, Copy, PartialEq, Eq, Structural, Debug)]
pub enum SessionPoll {
    /// No progress possible now; poll again after the next flush.
    Suspended,
    /// Apply this action to this state through the external game rules.
    NeedStep(State, usize),
}

/// A suspended session's future is never lost: the cell it awaits is
/// either already resolved or still pending in the request table, where
/// the next flush is bound to resolve it.
pub open spec fn awaiting_tracked(s: Session, q: PredictQueue) -> bool {
    s.phase matches SessionPhase::Awaiting(t) ==> q.cells@[t.id as int].state is Ready
        || is_ticket(q.batches@, t.id as int)
}

/// The full effect of one `Session::poll` against its queue: what one
/// poll call turned the session and the queue into, and what it returned.
/// `pre_s`/`post_s` are the session before and after, `pre_q`/`post_q`
/// the queue before and after, `version` the network version read, and
/// `r` the poll's answer.
pub open spec fn polled_rel(
    pre_s: Session,
    post_s: Session,
    pre_q: PredictQueue,
    post_q: PredictQueue,
    version: u64,
    r: SessionPoll,
) -> bool {
    &&& post_s.params == pre_s.params
    &&& post_q.cells@.len() >= pre_q.cells@.len()
    &&& post_q.cells@.len() <= pre_q.cells@.len() + 1
    &&& forall|t: int|
        0 <= t < pre_q.cells@.len() ==> #[trigger] post_q.cells@[t] == pre_q.cells@[t]
    &&& forall|n: u64|
        has_name(post_q.batches@, n) ==> has_name(pre_q.batches@, n) || n == version || n
            == pre_s.name
    &&& forall|u: int| is_ticket(pre_q.batches@, u) ==> is_ticket(post_q.batches@, u)
    &&& pre_s.phase is Deciding ==> {
        &&& r is Suspended
        &&& post_s.name == version
        &&& post_s.sims_done == 0
        &&& post_s.state == pre_s.state
        &&& post_s.samples@ == pre_s.samples@
        &&& post_s.phase == SessionPhase::Awaiting(
            PredictTicket { id: pre_q.cells@.len() as usize },
        )
        &&& enqueued_batches(
            pre_q.batches@,
            post_q.batches@,
            version,
            pre_s.state,
            pre_q.cells@.len() as usize,
        )
    }
    &&& pre_s.phase matches SessionPhase::Awaiting(t) ==> {
        &&& pre_q.cells@[t.id as int].state is Pending ==> r is Suspended && post_s == pre_s
            && post_q == pre_q
        &&& pre_q.cells@[t.id as int].state matches FutureState::Ready(p) ==> {
            &&& post_s.name == pre_s.name
            &&& post_s.state == pre_s.state
            &&& pre_s.sims_done + 1 < pre_s.params.mcts_simulation_num ==> {
                &&& r is Suspended
                &&& post_s.sims_done == pre_s.sims_done + 1
                &&& post_s.samples@ == pre_s.samples@
                &&& post_s.phase == SessionPhase::Awaiting(
                    PredictTicket { id: pre_q.cells@.len() as usize },
                )
                &&& enqueued_batches(
                    pre_q.batches@,
                    post_q.batches@,
                    pre_s.name,
                    pre_s.state,
                    pre_q.cells@.len() as usize,
                )
            }
            &&& pre_s.sims_done + 1 >= pre_s.params.mcts_simulation_num ==> {
                &&& post_q == pre_q
                &&& exists|d: u64|
                    #![trigger pick_action(p.policy, d, pre_s.state.turn, pre_s.params.start_greedy_turn)]
                    {
                        let a = pick_action(
                            p.policy,
                            d,
                            pre_s.state.turn,
                            pre_s.params.start_greedy_turn,
                        );
                        &&& r == SessionPoll::NeedStep(pre_s.state, a)
                        &&& post_s.phase == SessionPhase::Stepping(a)
                        &&& post_s.samples@ == pre_s.samples@.push(
                            Sample { action: a, state: pre_s.state, mcts_policy: p.policy },
                        )
                    }
            }
        }
    }
    &&& pre_s.phase is Stepping || pre_s.phase is NeedRestart ==> r is Suspended && post_s
        == pre_s && post_q == pre_q
}

/// One cooperatively scheduled game.
pub struct Session {
    pub params: EpisodeParameter,
    pub name: u64,
    pub state: State,
    pub samples: Vec<Sample>,
    pub sims_done: u32,
    pub phase: SessionPhase,
    pub rng: xorshift::Xorshift128,
}

impl Session {
    /// A session's own well-formedness.
    pub open spec fn wf(self) -> bool {
        &&& self.params.wf()
        &&& self.sims_done < self.params.mcts_simulation_num
    }

    /// Well-formedness against the queue it awaits on: a held ticket
    /// always points at a cell of that queue.
    pub open spec fn wf_for(self, q: PredictQueue) -> bool {
        &&& self.wf()
        &&& self.phase matches SessionPhase::Awaiting(t) ==> t.id < q.cells@.len()
    }

    /// A fresh session at the start of a game, with an independent random
    /// stream seeded from the entropy handed in.
    pub fn new(params: EpisodeParameter, name: u64, initial: State, seed: u64) -> (s: Session)
        requires
            params.wf(),
        ensures
            s.wf(),
            s.params == params,
            s.name == name,
            s.state == initial,
            s.samples@.len() == 0,
            s.sims_done == 0,
            s.phase is Deciding,
    {
        Session {
            params,
            name,
            state: initial,
            samples: Vec::new(),
            sims_done: 0,
            phase: SessionPhase::Deciding,
            rng: rng_from_seed(seed),
        }
    }

    /// Advance to the next suspension point.  At a decision point the
    /// session reads the current network version once, then runs its
    /// configured number of prediction round-trips against the queue; when
    /// the last one resolves it selects an action (weighted by policy
    /// before the greedy turn, greedy after), records a sample, and asks
    /// the driver to apply the action.
    pub fn poll(&mut self, queue: &mut PredictQueue, version: u64) -> (r: SessionPoll)
        requires
            old(self).wf_for(*old(queue)),
            old(queue).wf(),
            old(queue).cells@.len() < usize::MAX,
            awaiting_tracked(*old(self), *old(queue)),
        ensures
            final(self).wf_for(*final(queue)),
            final(queue).wf(),
            awaiting_tracked(*final(self), *final(queue)),
            polled_rel(*old(self), *final(self), *old(queue), *final(queue), version, r),
    {
        match self.phase {
            SessionPhase::Deciding => {
                self.name = version;
                self.sims_done = 0;
                let t = queue.async_predict(version, self.state);
                self.phase = SessionPhase::Awaiting(t);
                proof {
                    lemma_enqueued_names(
                        old(queue).batches@,
                        queue.batches@,
                        version,
                        old(self).state,
                        t.id,
                    );
                    lemma_enqueued_keeps_tickets(
                        old(queue).batches@,
                        queue.batches@,
                        version,
                        old(self).state,
                        t.id,
                    );
                }
                SessionPoll::Suspended
            },
            SessionPhase::Awaiting(t) => {
                match queue.poll(&t) {
                    FutureState::Pending => SessionPoll::Suspended,
                    FutureState::Ready(p) => {
                        if self.sims_done + 1 < self.params.mcts_simulation_num {
                            self.sims_done = self.sims_done + 1;
                            let t2 = queue.async_predict(self.name, self.state);
                            self.phase = SessionPhase::Awaiting(t2);
                            proof {
                                lemma_enqueued_names(
                                    old(queue).batches@,
                                    queue.batches@,
                                    old(self).name,
                                    old(self).state,
                                    t2.id,
                                );
                                lemma_enqueued_keeps_tickets(
                                    old(queue).batches@,
                                    queue.batches@,
                                    old(self).name,
                                    old(self).state,
                                    t2.id,
                                );
                            }
                            SessionPoll::Suspended
                        } else {
                            let draw = rng_next(&mut self.rng);
                            let a = select_action(
                                &p.policy,
                                draw,
                                self.state.turn,
                                self.params.start_greedy_turn,
                            );
                            self.samples.push(
                                Sample { action: a, state: self.state, mcts_policy: p.policy },
                            );
                            self.phase = SessionPhase::Stepping(a);
                            proof {
                                let d = draw;
                                assert(a == pick_action(
                                    p.policy,
                                    d,
                                    old(self).state.turn,
                                    old(self).params.start_greedy_turn,
                                ));
                            }
                            SessionPoll::NeedStep(self.state, a)
                        }
                    },
                }
            },
            SessionPhase::Stepping(_) => SessionPoll::Suspended,
            SessionPhase::NeedRestart => SessionPoll::Suspended,
        }
    }

    /// The environment's answer to a `NeedStep` request: the state the
    /// game moved to, whether it terminated there, and if so the terminal
    /// reward.  On termination the replay record is assembled and the slot
    /// asks for a restart; otherwise the session returns to its next
    /// decision point.
    pub fn apply_step(&mut self, next: State, terminated: bool, reward_milli: i64) -> (r: Option<
        Replay,
    >)
        requires
            old(self).phase is Stepping,
            old(self).wf(),
        ensures
            final(self).wf(),
            final(self).params == old(self).params,
            final(self).name == old(self).name,
            !terminated ==> {
                &&& r is None
                &&& final(self).state == next
                &&& final(self).phase is Deciding
                &&& final(self).samples@ == old(self).samples@
            },
            terminated ==> {
                &&& final(self).phase is NeedRestart
                &&& final(self).samples@.len() == 0
                &&& r matches Some(rep) && rep.samples@ == old(self).samples@
                    && rep.name == old(self).name && rep.last_state == next
                    && rep.reward_milli == reward_milli
            },
    {
        if terminated {
            let mut samples: Vec<Sample> = Vec::new();
            core::mem::swap(&mut self.samples, &mut samples);
            self.phase = SessionPhase::NeedRestart;
            Some(Replay { samples, name: self.name, last_state: next, reward_milli })
        } else {
            self.state = next;
            self.phase = SessionPhase::Deciding;
            None
        }
    }

    /// Restart the slot with a fresh game: empty sample list, a fresh
    /// initial state, and a new independent random stream.
    pub fn restart(&mut self, initial: State, seed: u64)
        requires
            old(self).wf(),
        ensures
            final(self).wf(),
            final(self).params == old(self).params,
            final(self).name == old(self).name,
            final(self).state == initial,
            final(self).samples@.len() == 0,
            final(self).sims_done == 0,
            final(self).phase is Deciding,
    {
        self.state = initial;
        self.samples = Vec::new();
        self.sims_done = 0;
        self.phase = SessionPhase::Deciding;
        self.rng = rng_from_seed(seed);
    }
}

} // verus!

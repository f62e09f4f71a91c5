use selfplay::network::{ActionVector, Graph, Prediction};
use selfplay::params::{EpisodeParameter, Setting};
use selfplay::worker::{Notification, Worker};
use selfplay::State;

fn params(turn_limit: u32, start_greedy_turn: u32) -> EpisodeParameter {
    EpisodeParameter {
        setting: Setting { turn_limit },
        mcts_simulation_num: 1,
        alpha_milli: 300,
        eps_milli: 250,
        start_greedy_turn,
    }
}

fn uniform_stub() -> Graph {
    // The stub network maps every state to (uniform_vector, 0.5).
    Graph {
        table: vec![Prediction {
            policy: ActionVector { w0: 1, w1: 1, w2: 1, w3: 1 },
            value_milli: 500,
        }],
    }
}

// The test-side game rules: every action advances the turn; the game is
// over once the turn limit is reached.
fn game_step(s: State, action: usize) -> State {
    State { key: s.key.wrapping_add(action as u64 + 1), turn: s.turn + 1 }
}

fn stub_terminal_reward(_s: &State) -> i64 {
    750
}

#[test]
fn one_session_produces_one_replay_of_three_samples() {
    let mut w = Worker::new(params(3, 0), 5);
    w.handle_notification(Notification::Model(7, uniform_stub())).unwrap();
    w.spawn_session(State { key: 0, turn: 0 }, 12345);

    let mut replays = vec![];
    for _ in 0..32 {
        let reqs = w.drive_round();
        for rq in reqs {
            let next = game_step(rq.state, rq.action);
            let terminated = next.turn >= 3;
            let reward = if terminated { stub_terminal_reward(&next) } else { 0 };
            if let Some(rep) = w.apply_step(rq.slot, next, terminated, reward) {
                replays.push(rep);
            }
        }
        if !replays.is_empty() {
            break;
        }
    }

    assert_eq!(replays.len(), 1);
    let rep = &replays[0];
    assert_eq!(rep.samples.len(), 3);
    assert_eq!(rep.name, 7);
    assert_eq!(rep.reward_milli, 750);
    assert_eq!(rep.last_state.turn, 3);
    for s in &rep.samples {
        // Every decision saw the stub's uniform answer, and selection was
        // greedy from turn 0, so the first action always won.
        assert_eq!(s.mcts_policy, ActionVector { w0: 1, w1: 1, w2: 1, w3: 1 });
        assert_eq!(s.action, 0);
    }
    // The three decisions were taken at turns 0, 1 and 2.
    assert_eq!(rep.samples[0].state.turn, 0);
    assert_eq!(rep.samples[1].state.turn, 1);
    assert_eq!(rep.samples[2].state.turn, 2);
}

#[test]
fn two_sessions_share_one_flush_without_crosstalk() {
    // Two table entries, so each session's key selects its own answer.
    let g = Graph {
        table: vec![
            Prediction { policy: ActionVector { w0: 9, w1: 0, w2: 0, w3: 0 }, value_milli: 100 },
            Prediction { policy: ActionVector { w0: 0, w1: 9, w2: 0, w3: 0 }, value_milli: 200 },
        ],
    };
    let mut w = Worker::new(params(1, 0), 5);
    w.handle_notification(Notification::Model(3, g)).unwrap();
    w.spawn_session(State { key: 0, turn: 0 }, 1);
    w.spawn_session(State { key: 1, turn: 0 }, 2);

    // Round one: both sessions enqueue and suspend on the same flush.
    let reqs = w.drive_round();
    assert_eq!(reqs.len(), 0);
    // Round two: that one flush resolved both; both reach a decision.
    let reqs = w.drive_round();
    assert_eq!(reqs.len(), 2);

    let mut replays = vec![];
    for rq in reqs {
        let next = game_step(rq.state, rq.action);
        if let Some(rep) = w.apply_step(rq.slot, next, true, 0) {
            replays.push(rep);
        }
    }
    assert_eq!(replays.len(), 2);
    // Neither session observed the other's input in its own output.
    let by_key =
        |k: u64| replays.iter().find(|r| r.samples[0].state.key == k).unwrap();
    assert_eq!(
        by_key(0).samples[0].mcts_policy,
        ActionVector { w0: 9, w1: 0, w2: 0, w3: 0 }
    );
    assert_eq!(by_key(0).samples[0].action, 0);
    assert_eq!(
        by_key(1).samples[0].mcts_policy,
        ActionVector { w0: 0, w1: 9, w2: 0, w3: 0 }
    );
    assert_eq!(by_key(1).samples[0].action, 1);
}

#[test]
fn weighted_selection_draws_only_actions_of_positive_weight() {
    // Before the greedy turn the session samples by policy from its own
    // random stream; the drawn action always carries positive weight.
    let g = Graph {
        table: vec![Prediction {
            policy: ActionVector { w0: 0, w1: 5, w2: 0, w3: 2 },
            value_milli: 0,
        }],
    };
    let mut w = Worker::new(params(4, 99), 5);
    w.handle_notification(Notification::Model(1, g)).unwrap();
    w.spawn_session(State { key: 0, turn: 0 }, 987654321);

    let mut replays = vec![];
    for _ in 0..64 {
        let reqs = w.drive_round();
        for rq in reqs {
            let next = game_step(rq.state, rq.action);
            let terminated = next.turn >= 4;
            if let Some(rep) = w.apply_step(rq.slot, next, terminated, 0) {
                replays.push(rep);
            }
        }
        if !replays.is_empty() {
            break;
        }
    }
    assert_eq!(replays.len(), 1);
    for s in &replays[0].samples {
        assert!(s.action == 1 || s.action == 3);
    }
}

#[test]
fn closure_before_any_model_terminates_with_zero_replays() {
    let mut w = Worker::new(params(3, 0), 5);
    // The notification channel closed before any message was sent: the
    // worker terminates immediately without running any session.
    w.handle_notification(Notification::Closed).unwrap();
    assert!(w.done);
    assert!(!w.started);
    assert_eq!(w.executor.slots.len(), 0);
}

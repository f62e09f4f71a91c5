use selfplay::future::{FutureState, PredictResult};
use selfplay::network::{ActionVector, Prediction};

#[test]
fn a_cell_starts_pending_and_polling_is_idempotent() {
    let cell = PredictResult::new();
    assert_eq!(cell.poll(), FutureState::Pending);
    assert_eq!(cell.poll(), FutureState::Pending);
}

#[test]
fn a_resolved_cell_keeps_its_value_on_every_poll() {
    let p = Prediction {
        policy: ActionVector { w0: 1, w1: 2, w2: 3, w3: 4 },
        value_milli: 500,
    };
    let mut cell = PredictResult::new();
    cell.resolve(p);
    assert_eq!(cell.poll(), FutureState::Ready(p));
    assert_eq!(cell.poll(), FutureState::Ready(p));
    assert_eq!(cell.poll(), FutureState::Ready(p));
}

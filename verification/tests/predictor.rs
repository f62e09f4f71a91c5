use selfplay::future::FutureState;
use selfplay::network::{ActionVector, Graph, LoadError, Prediction};
use selfplay::params::Setting;
use selfplay::predictor::{PredictError, Predictor};

fn pred(w0: u64, w1: u64, w2: u64, w3: u64, value_milli: i64) -> Prediction {
    Prediction { policy: ActionVector { w0, w1, w2, w3 }, value_milli }
}

fn setting() -> Setting {
    Setting { turn_limit: 3 }
}

fn state(key: u64) -> selfplay::State {
    selfplay::State { key, turn: 0 }
}

#[test]
fn flush_with_empty_table_is_a_noop() {
    let mut p = Predictor::new();
    let r = p.predict_batch(&setting());
    assert!(r.is_ok());
    let g = Graph { table: vec![pred(1, 0, 0, 0, 100)] };
    assert!(p.load_network(9, &g).is_ok());
    let r2 = p.predict_batch(&setting());
    assert!(r2.is_ok());
}

#[test]
fn flush_of_unloaded_identifier_reports_the_fatal_invariant() {
    let mut p = Predictor::new();
    let t = p.get_queue().async_predict(42, state(0));
    let r = p.predict_batch(&setting());
    assert_eq!(r, Err(PredictError::MissingNetwork(42)));
    // Nothing was resolved and nothing was lost.
    assert_eq!(p.get_queue().poll(&t), FutureState::Pending);
}

#[test]
fn loading_is_idempotent_and_rejects_malformed_weights() {
    let mut p = Predictor::new();
    let empty = Graph { table: vec![] };
    assert_eq!(p.load_network(1, &empty), Err(LoadError::EmptyTable));
    let g1 = Graph { table: vec![pred(1, 2, 3, 4, 111)] };
    let g2 = Graph { table: vec![pred(9, 9, 9, 9, 999)] };
    assert!(p.load_network(1, &g1).is_ok());
    // A second load under a live identifier is a no-op, whatever it holds.
    assert!(p.load_network(1, &g2).is_ok());
    assert!(p.load_network(1, &empty).is_ok());
    let t = p.get_queue().async_predict(1, state(0));
    assert!(p.predict_batch(&setting()).is_ok());
    assert_eq!(
        p.get_queue().poll(&t),
        FutureState::Ready(pred(1, 2, 3, 4, 111))
    );
}

#[test]
fn round_trip_across_identifiers_resolves_each_future_positionally() {
    // N = 5 inputs across K = 2 distinct identifiers; outputs differ per
    // input position, so any mispairing would be caught.
    let mut p = Predictor::new();
    let g1 = Graph {
        table: vec![pred(1, 0, 0, 0, 1000), pred(0, 1, 0, 0, 2000)],
    };
    let g2 = Graph {
        table: vec![pred(0, 0, 1, 0, 3000), pred(0, 0, 0, 1, 4000)],
    };
    assert!(p.load_network(1, &g1).is_ok());
    assert!(p.load_network(2, &g2).is_ok());

    let q = p.get_queue();
    let t0 = q.async_predict(1, state(0));
    let t1 = q.async_predict(2, state(0));
    let t2 = q.async_predict(1, state(1));
    let t3 = q.async_predict(2, state(1));
    let t4 = q.async_predict(1, state(2));
    for t in [&t0, &t1, &t2, &t3, &t4] {
        assert_eq!(p.get_queue().poll(t), FutureState::Pending);
    }

    assert!(p.predict_batch(&setting()).is_ok());

    // Every future is resolved with its own identifier's answer to its
    // own input (key selects the table entry, wrapping around).
    assert_eq!(p.get_queue().poll(&t0), FutureState::Ready(pred(1, 0, 0, 0, 1000)));
    assert_eq!(p.get_queue().poll(&t1), FutureState::Ready(pred(0, 0, 1, 0, 3000)));
    assert_eq!(p.get_queue().poll(&t2), FutureState::Ready(pred(0, 1, 0, 0, 2000)));
    assert_eq!(p.get_queue().poll(&t3), FutureState::Ready(pred(0, 0, 0, 1, 4000)));
    assert_eq!(p.get_queue().poll(&t4), FutureState::Ready(pred(1, 0, 0, 0, 1000)));

    // The whole table was cleared: a second flush is a no-op and the
    // resolved cells keep their values.
    assert!(p.predict_batch(&setting()).is_ok());
    assert_eq!(p.get_queue().poll(&t4), FutureState::Ready(pred(1, 0, 0, 0, 1000)));
}

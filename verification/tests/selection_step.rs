use selfplay::selection::{selection_step, SelectionOutcome};

#[test]
fn a_returned_model_is_broadcast() {
    let model: Result<Option<u64>, String> = Ok(Some(42));
    assert_eq!(selection_step(&model), SelectionOutcome::Broadcast(42));
}

#[test]
fn no_model_ready_is_waited_out() {
    let model: Result<Option<u64>, String> = Ok(None);
    assert_eq!(selection_step(&model), SelectionOutcome::Wait);
}

#[test]
fn a_policy_error_stops_the_simulation() {
    let model: Result<Option<u64>, String> = Err("store unavailable".to_string());
    assert_eq!(selection_step(&model), SelectionOutcome::Stop);
}

use selfplay::action::{select_action, select_action_greedy, select_action_weighted};
use selfplay::network::ActionVector;

fn av(w0: u64, w1: u64, w2: u64, w3: u64) -> ActionVector {
    ActionVector { w0, w1, w2, w3 }
}

#[test]
fn greedy_takes_the_first_maximum() {
    assert_eq!(select_action_greedy(&av(5, 1, 5, 2)), 0);
    assert_eq!(select_action_greedy(&av(1, 9, 2, 9)), 1);
    assert_eq!(select_action_greedy(&av(0, 1, 2, 2)), 2);
    assert_eq!(select_action_greedy(&av(0, 1, 2, 3)), 3);
}

#[test]
fn weighted_lands_in_the_drawn_segment() {
    // Total 4, segments 0|1|2|3: the draw modulo the total picks exactly
    // one action per residue.
    let u = av(1, 1, 1, 1);
    assert_eq!(select_action_weighted(&u, 0), 0);
    assert_eq!(select_action_weighted(&u, 1), 1);
    assert_eq!(select_action_weighted(&u, 2), 2);
    assert_eq!(select_action_weighted(&u, 3), 3);
    assert_eq!(select_action_weighted(&u, 6), 2);

    // Uneven weights: total 10, segments [0,5) [5,8) [8,9) [9,10).
    let v = av(5, 3, 1, 1);
    assert_eq!(select_action_weighted(&v, 4), 0);
    assert_eq!(select_action_weighted(&v, 5), 1);
    assert_eq!(select_action_weighted(&v, 8), 2);
    assert_eq!(select_action_weighted(&v, 19), 3);
}

#[test]
fn zero_total_weight_falls_back_to_greedy() {
    assert_eq!(select_action_weighted(&av(0, 0, 0, 0), 12345), 0);
}

#[test]
fn the_greedy_turn_threshold_switches_the_rule() {
    // Weighted before the threshold, greedy from it on.
    let v = av(1, 9, 0, 0);
    // turn 0 < 2: weighted; draw 0 lands in action 0's segment.
    assert_eq!(select_action(&v, 0, 0, 2), 0);
    // turn 2 >= 2: greedy takes the maximum whatever the draw.
    assert_eq!(select_action(&v, 0, 2, 2), 1);
    assert_eq!(select_action(&v, 7, 3, 2), 1);
}

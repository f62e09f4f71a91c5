//! Action selection over a move-probability vector: weighted by policy
//! before the configured greedy turn, greedy (first maximum) afterwards.

use vstd::prelude::*;
use crate::network::{ActionVector, ACTION_COUNT};

verus! {

/// The first action of maximal weight.
pub open spec fn greedy_pick(av: ActionVector) -> usize {
    if av.w0 >= av.w1 && av.w0 >= av.w2 && av.w0 >= av.w3 {
        0
    } else if av.w1 >= av.w2 && av.w1 >= av.w3 {
        1
    } else if av.w2 >= av.w3 {
        2
    } else {
        3
    }
}

/// The action a draw lands on when the weights split the interval
/// `[0, total)` into consecutive segments; with no weight at all, the
/// greedy choice stands in.
pub open spec fn weighted_pick(av: ActionVector, draw: u64) -> usize {
    if av.total() == 0 {
        greedy_pick(av)
    } else {
        let r = (draw as int) % av.total();
        if r < av.w0 {
            0
        } else if r < av.w0 + av.w1 {
            1
        } else if r < av.w0 + av.w1 + av.w2 {
            2
        } else {
            3
        }
    }
}

/// The decision rule of a session: weighted by policy on early turns,
/// greedy from `start_greedy_turn` on.
pub open spec fn pick_action(av: ActionVector, draw: u64, turn: u32, start_greedy_turn: u32) -> usize {
    if turn < start_greedy_turn {
        weighted_pick(av, draw)
    } else {
        greedy_pick(av)
    }
}

/// Greedy selection: the first action of maximal weight.
pub fn select_action_greedy(av: &ActionVector) -> (a: usize)
    ensures
        a == greedy_pick(*av),
        a < ACTION_COUNT,
        forall|i: int| 0 <= i < ACTION_COUNT ==> av.weight(i) <= av.weight(a as int),
{
    if av.w0 >= av.w1 && av.w0 >= av.w2 && av.w0 >= av.w3 {
        0
    } else if av.w1 >= av.w2 && av.w1 >= av.w3 {
        1
    } else if av.w2 >= av.w3 {
        2
    } else {
        3
    }
}

/// Weighted selection: the draw lands in one weight's segment, so the
/// chosen action has positive weight whenever any action has.
pub fn select_action_weighted(av: &ActionVector, draw: u64) -> (a: usize)
    ensures
        a == weighted_pick(*av, draw),
        a < ACTION_COUNT,
        av.total() > 0 ==> av.weight(a as int) > 0,
{
    let w0 = av.w0 as u128;
    let w1 = av.w1 as u128;
    let w2 = av.w2 as u128;
    let w3 = av.w3 as u128;
    let total = w0 + w1 + w2 + w3;
    if total == 0 {
        return select_action_greedy(av);
    }
    let r = (draw as u128) % total;
    if r < w0 {
        0
    } else if r < w0 + w1 {
        1
    } else if r < w0 + w1 + w2 {
        2
    } else {
        3
    }
}

/// The full decision rule.
pub fn select_action(av: &ActionVector, draw: u64, turn: u32, start_greedy_turn: u32) -> (a: usize)
    ensures
        a == pick_action(*av, draw, turn, start_greedy_turn),
        a < ACTION_COUNT,
{
    if turn < start_greedy_turn {
        select_action_weighted(av, draw)
    } else {
        select_action_greedy(av)
    }
}

} // verus!

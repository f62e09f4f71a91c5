//! The future cell: a single-slot Pending/Ready result container bridging
//! a request producer and its eventual consumer.  Created Pending, resolved
//! to Ready exactly once by a flush, never reverted.

use vstd::prelude::*;
use crate::network::Prediction;

verus! {

/// The two states of a prediction future.
#[derive(Clone, Copy, PartialEq, Eq, Structural, Debug)]
pub enum FutureState {
    Pending,
    Ready(Prediction),
}

/// A single-writer, many-reader result slot.  The slot lives in the
/// prediction queue; awaiting sessions reach it through a ticket.
#[derive(Clone, Copy, PartialEq, Eq, Structural, Debug)]
pub struct PredictResult {
    pub state: FutureState,
}

impl PredictResult {
    /// A fresh cell is Pending.
    pub fn new() -> (r: PredictResult)
        ensures
            r.state is Pending,
    {
        PredictResult { state: FutureState::Pending }
    }

    /// Read the current state.  Polling never changes the cell, so polling
    /// after Ready keeps returning the same value.
    pub fn poll(&self) -> (r: FutureState)
        ensures
            r == self.state,
    {
        self.state
    }

    /// Resolve the cell.  Exactly one resolver transitions Pending to
    /// Ready exactly once: a cell that is already Ready is never written.
    pub fn resolve(&mut self, p: Prediction)
        requires
            old(self).state is Pending,
        ensures
            final(self).state == FutureState::Ready(p),
    {
        self.state = FutureState::Ready(p);
    }
}

/// The step relation of a future cell: every operation of this module
/// either leaves the cell as it stands (`new`, `poll`) or resolves a
/// Pending cell (`resolve`).
pub open spec fn cell_step(pre: PredictResult, post: PredictResult) -> bool {
    post == pre || (pre.state is Pending && post.state is Ready)
}

/// Law: a future cell never transitions Ready to Pending; once Ready it
/// holds the same value forever, so polling after Ready is idempotent.
pub proof fn lemma_ready_is_final(pre: PredictResult, post: PredictResult)
    requires
        cell_step(pre, post),
        pre.state is Ready,
    ensures
        post == pre,
        post.state == pre.state,
{
}

} // verus!

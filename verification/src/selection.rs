//! The decision of the central model-selection loop.  The policy itself
//! is an external collaborator; what the loop does with its answer — keep
//! waiting, broadcast a model to every worker, or terminate the whole
//! simulation — is decided here.

use vstd::prelude::*;

verus! {

/// What the selection loop does with one policy answer.
#[derive(Clone, Copy, PartialEq, Eq, Structural, Debug)]
pub enum SelectionOutcome {
    /// A model is deployable: broadcast its identifier to every worker.
    Broadcast(u64),
    /// No model ready yet: transient, wait and retry.
    Wait,
    /// The policy failed: fatal, terminate the simulation.
    Stop,
}

/// Decide on one answer of the selection policy: a model is broadcast
/// exactly when one was returned, a missing model is only waited out,
/// and a policy error stops the loop.
pub fn selection_step<E>(model: &Result<Option<u64>, E>) -> (r: SelectionOutcome)
    ensures
        *model matches Ok(Some(n)) ==> r == SelectionOutcome::Broadcast(n),
        r matches SelectionOutcome::Broadcast(n) ==> (*model matches Ok(m) && m == Some(n)),
        r is Wait <==> (*model matches Ok(m) && m is None),
        r is Stop <==> model is Err,
{
    match model {
        Ok(Some(name)) => SelectionOutcome::Broadcast(*name),
        Ok(None) => SelectionOutcome::Wait,
        Err(_) => SelectionOutcome::Stop,
    }
}

} // verus!

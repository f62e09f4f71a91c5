//! The loaded-network model: weights are a finite table of predictions and
//! evaluation selects a table entry by the state's key.  This stands at the
//! interface the external execution engine exposes: loading fails on
//! malformed weights, and a batch call returns one output per input in
//! positional correspondence.

use vstd::prelude::*;
use crate::params::Setting;
use crate::State;

verus! {

/// A move-probability vector over the fixed action space, as non-negative
/// integer weights.
#[derive(Clone, Copy, PartialEq, Eq, Structural, Debug)]
pub struct ActionVector {
    pub w0: u64,
    pub w1: u64,
    pub w2: u64,
    pub w3: u64,
}

/// How many actions an `ActionVector` ranges over.
pub const ACTION_COUNT: usize = 4;

impl ActionVector {
    /// The weight of one action.
    pub open spec fn weight(self, a: int) -> u64 {
        if a == 0 {
            self.w0
        } else if a == 1 {
            self.w1
        } else if a == 2 {
            self.w2
        } else {
            self.w3
        }
    }

    /// The total weight, as a mathematical integer.
    pub open spec fn total(self) -> int {
        self.w0 + self.w1 + self.w2 + self.w3
    }
}

/// One network answer: a move-probability vector and a value estimate in
/// fixed point (thousandths).
#[derive(Clone, Copy, PartialEq, Eq, Structural, Debug)]
pub struct Prediction {
    pub policy: ActionVector,
    pub value_milli: i64,
}

/// Network weights as handed around by the model broadcast channel: a
/// table of predictions, one entry per state class.
#[derive(Clone, Debug)]
pub struct Graph {
    pub table: Vec<Prediction>,
}

impl Graph {
    /// Well-formed weights hold at least one table entry.
    pub open spec fn wf(self) -> bool {
        self.table@.len() > 0
    }
}

/// Why loading network weights failed.
#[derive(Clone, Copy, PartialEq, Eq, Structural, Debug)]
pub enum LoadError {
    EmptyTable,
}

/// A loaded network instance owned by a `Predictor`.
#[derive(Clone, Debug)]
pub struct Network {
    pub table: Vec<Prediction>,
}

/// What a loaded network answers for a state: the table entry selected by
/// the state's key, wrapping around the table length.
pub open spec fn net_eval(net: Network, s: State) -> Prediction
    recommends
        net.wf(),
{
    net.table@[(s.key as int) % (net.table@.len() as int)]
}

impl Network {
    /// A loaded network always holds a non-empty table.
    pub open spec fn wf(self) -> bool {
        self.table@.len() > 0
    }

    /// Load network weights, rejecting malformed (empty) weights.
    pub fn load_graph(graph: &Graph) -> (r: Result<Network, LoadError>)
        ensures
            r is Ok <==> graph.wf(),
            r matches Ok(n) ==> n.wf() && n.table@ == graph.table@,
    {
        if graph.table.len() == 0 {
            return Err(LoadError::EmptyTable);
        }
        let mut table: Vec<Prediction> = Vec::new();
        let mut i: usize = 0;
        while i < graph.table.len()
            invariant
                i <= graph.table@.len(),
                table@ == graph.table@.take(i as int),
            decreases graph.table@.len() - i,
        {
            table.push(graph.table[i]);
            proof {
                assert(table@ == graph.table@.take(i + 1 as int));
            }
            i = i + 1;
        }
        proof {
            assert(graph.table@.take(graph.table@.len() as int) == graph.table@);
        }
        Ok(Network { table })
    }

    /// Evaluate one input state.
    pub fn predict_one(&self, s: &State) -> (r: Prediction)
        requires
            self.wf(),
        ensures
            r == net_eval(*self, *s),
    {
        let len = self.table.len() as u64;
        let idx = (s.key % len) as usize;
        self.table[idx]
    }

    /// One inference call over a whole batch: one output per input, in
    /// positional correspondence.  The setting is the inference
    /// configuration; this evaluator needs nothing from it.
    pub fn infer_batch(&self, inputs: &Vec<State>, _setting: &Setting) -> (r: Vec<Prediction>)
        requires
            self.wf(),
        ensures
            r@.len() == inputs@.len(),
            forall|i: int| 0 <= i < inputs@.len() ==> r@[i] == net_eval(*self, inputs@[i]),
    {
        let mut out: Vec<Prediction> = Vec::new();
        let mut i: usize = 0;
        while i < inputs.len()
            invariant
                self.wf(),
                i <= inputs@.len(),
                out@.len() == i,
                forall|j: int| 0 <= j < i ==> out@[j] == net_eval(*self, inputs@[j]),
            decreases inputs@.len() - i,
        {
            let p = self.predict_one(&inputs[i]);
            out.push(p);
            i = i + 1;
        }
        out
    }
}

} // verus!

//! A batching self-play prediction library.
//!
//! Many cooperatively scheduled game sessions submit neural-network
//! inference requests to a shared queue and suspend on future cells;
//! a batching predictor resolves whole groups of requests, keyed by
//! network identifier, in one inference call per group.

use vstd::prelude::*;

pub mod action;
pub mod executor;
pub mod future;
pub mod network;
pub mod params;
pub mod predictor;
pub mod queue;
pub mod rng;
pub mod selection;
pub mod session;
pub mod worker;
pub mod writer;

verus! {

/// A game state as seen by the prediction pipeline: a lookup key for
/// network evaluation and the current turn number.
#[derive(Clone, Copy, PartialEq, Eq, Structural, Debug)]
pub struct State {
    pub key: u64,
    pub turn: u32,
}

} // verus!

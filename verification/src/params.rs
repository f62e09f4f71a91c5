//! Run-wide configuration: game settings, per-episode parameters, and the
//! top-level self-play parameters.

use vstd::prelude::*;

verus! {

/// Game-level settings handed to the external game rules and to the
/// inference call as its configuration.  The library itself reads none of
/// it; the turn limit is interpreted by the environment that steps games.
#[derive(Clone, Copy, PartialEq, Eq, Structural, Debug)]
pub struct Setting {
    pub turn_limit: u32,
}

/// Parameters of one self-play episode.  Exploration parameters are held
/// in fixed point (thousandths); they are carried for the external search
/// component and not read by the library's own decisions.
#[derive(Clone, Copy, PartialEq, Eq, Structural, Debug)]
pub struct EpisodeParameter {
    pub setting: Setting,
    pub mcts_simulation_num: u32,
    pub alpha_milli: i64,
    pub eps_milli: i64,
    pub start_greedy_turn: u32,
}

impl EpisodeParameter {
    /// A usable episode asks for at least one prediction round per decision.
    pub open spec fn wf(self) -> bool {
        self.mcts_simulation_num >= 1
    }
}

/// Which kind of persistence sink the writer thread drives.
#[derive(Clone, Copy, PartialEq, Eq, Structural, Debug)]
pub enum WriterParameter {
    Evaluation,
    Generation,
}

/// The model-selection strategy the central loop asks for new models;
/// the policy itself is an external collaborator, so only its choice and
/// its fixed-point parameter are carried here.
#[derive(Clone, Copy, PartialEq, Eq, Structural, Debug)]
pub enum Selector {
    Ucb1(i64),
    Optimistic(i64),
}

/// Top-level configuration of a whole self-play run.
#[derive(Clone, Debug)]
pub struct SelfPlayParameter {
    pub episode_param: EpisodeParameter,
    pub selector: Selector,
    pub plays_per_write: usize,
    pub mysql_user: String,
    pub thread_num: u32,
    pub batch_size: usize,
    pub writer_param: WriterParameter,
}

} // verus!

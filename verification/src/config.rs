//! Static tunables of the game and the configuration record the engine runs
//! with. The standard values reproduce the shipped game; tests may build a
//! `Config` of their own (for example with a different reassignment
//! probability), as long as it is well formed.

use vstd::prelude::*;

verus! {

/// Horizontal pixel position of the goal line on screen.
pub const GOAL_POSITION: usize = 180;

/// Horizontal pixel position players start from.
pub const PLAYER_START: usize = 20;

/// Whole seconds the countdown at the start of each round lasts.
pub const COUNTDOWN_FROM: u64 = 3;

/// A key reassignment may fire whenever the elapsed whole seconds are
/// divisible by this period.
pub const CHANGE_FREQUENCY: u64 = 2;

/// Chance of a reassignment on an eligible tick, in hundredths: a fresh draw
/// below `CHANCE_SCALE` triggers a reassignment iff it is below this value.
pub const CHANGE_PROBABILITY: u64 = 70;

/// Denominator of the reassignment probability: chance draws range over
/// `0 .. CHANCE_SCALE`.
pub const CHANCE_SCALE: u64 = 100;

/// The tunables the engine runs with.
#[derive(Clone, Copy, PartialEq, Eq, Structural, Debug)]
pub struct Config {
    /// A player wins strictly beyond this distance.
    pub goal_distance: usize,
    /// Whole seconds of countdown before input unlocks.
    pub countdown_from: u64,
    /// Period, in whole seconds, of eligible reassignment windows.
    pub change_frequency: u64,
    /// Reassignment chance on an eligible tick, in hundredths.
    pub change_probability: u64,
}

impl Config {
    /// A configuration the engine can run with: the countdown and the
    /// reassignment period are positive (both are subtracted from or divided
    /// by), and the probability is a fraction of `CHANCE_SCALE`.
    pub open spec fn wf(self) -> bool {
        &&& self.countdown_from >= 1
        &&& self.change_frequency >= 1
        &&& self.change_probability <= CHANCE_SCALE
    }

    /// The configuration of the shipped game.
    pub fn standard() -> (c: Config)
        ensures
            c.wf(),
            c.goal_distance == GOAL_POSITION - PLAYER_START,
            c.countdown_from == COUNTDOWN_FROM,
            c.change_frequency == CHANGE_FREQUENCY,
            c.change_probability == CHANGE_PROBABILITY,
    {
        Config {
            goal_distance: GOAL_POSITION - PLAYER_START,
            countdown_from: COUNTDOWN_FROM,
            change_frequency: CHANGE_FREQUENCY,
            change_probability: CHANGE_PROBABILITY,
        }
    }
}

} // verus!

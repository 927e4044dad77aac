//! Configuration of the point-maze observation converter.

use vstd::prelude::*;

verus! {

/// Configuration of the point-maze observation converter. The converter
/// itself normalizes observations numerically and lives outside the core.
#[derive(Clone, Copy, Debug, PartialEq, Eq, Structural)]
pub struct PointMazeConverterConfig {
    /// If true, the observation vectors will include the goal's x and y
    /// positions in the last two dimensions.
    pub include_goal: bool,
}

impl Default for PointMazeConverterConfig {
    fn default() -> (r: Self)
        ensures
            !r.include_goal,
    {
        PointMazeConverterConfig { include_goal: false }
    }
}

impl PointMazeConverterConfig {
    /// Sets whether observations include the goal position.
    pub fn include_goal(self, value: bool) -> (r: Self)
        ensures
            r.include_goal == value,
    {
        let mut config = self;
        config.include_goal = value;
        config
    }
}

} // verus!

//! The entity tag types of the simulation.

use vstd::prelude::*;

verus! {

/// The kinds of obstacle a run can spawn.
#[derive(Clone, Copy, Debug, PartialEq, Eq, Structural)]
pub enum ObstacleType {
    /// A heavy statue: fatal from the side and from above.
    Statue,
    /// A chest: fatal from the side, walkable ground from above.
    Chest,
    /// A balloon or spring: harmless from the side, bouncy from above.
    Balloon,
}

/// The time-limited power-up modifiers; at most one is active at a time.
#[derive(Clone, Copy, Debug, PartialEq, Eq, Structural)]
pub enum PowerType {
    /// Doubles the propulsion force.
    SpeedBoost,
    /// Doubles the score collected while active.
    ScoreMultiplier,
    /// Keeps the player jumping, a little higher than usual.
    BouncyShoes,
    /// Scales gravity down by two thirds.
    LowerGravity,
    /// Makes side collisions with obstacles harmless.
    Shield,
}

/// The terrain materials, each with its own friction and gravity.
#[derive(Clone, Copy, Debug, PartialEq, Eq, Structural)]
pub enum TerrainType {
    /// Quick acceleration on the flat.
    Asphalt,
    /// Moderate acceleration on the flat.
    Grass,
    /// Slow going: less friction but higher gravity.
    Sand,
    /// Heavy drag.
    Water,
}

} // verus!

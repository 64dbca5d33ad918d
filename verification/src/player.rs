//! The player: a grid position clamped to the playable range, a fuel counter
//! and a score counter.

use vstd::prelude::*;

verus! {

/// Fuel the player starts the game with.
pub const START_FUEL: u64 = 100;

/// Fuel cost of moving to a different cell; standing still is free.
pub const MOVE_COST: u64 = 10;

/// Position, fuel and score of the single player. Fuel never increases;
/// score never decreases; the position stays inside the playable range
/// `[0, width - 1) x [0, height - 1)` (see [`Player::in_bounds`]).
#[derive(Clone, Copy, Debug, PartialEq, Eq, Structural)]
pub struct Player {
    pub x: usize,
    pub y: usize,
    pub fuel: u64,
    pub score: u64,
}

impl Player {
    /// The playable-range invariant for a grid of the given dimensions: the
    /// last row and column lie outside the clamp range.
    pub open spec fn in_bounds(self, width: int, height: int) -> bool {
        self.x < width - 1 && self.y < height - 1
    }

    /// A player at game start: the top-left cell, full fuel, no score.
    pub fn new() -> (p: Player)
        ensures
            p.x == 0,
            p.y == 0,
            p.fuel == START_FUEL,
            p.score == 0,
    {
        Player { x: 0, y: 0, fuel: START_FUEL, score: 0 }
    }
}

} // verus!

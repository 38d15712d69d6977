//! The simulation's data model: held keys, the player, wandering enemies,
//! presentation events, and the whole game state, together with the
//! boundedness conditions the update stages require of their inputs.

use vstd::prelude::*;
use crate::geom::Vec2;

verus! {

/// Which of the four movement keys are currently held.
#[derive(Clone, Copy, PartialEq, Eq, Structural, Debug)]
pub struct KeySet {
    pub up: bool,
    pub down: bool,
    pub left: bool,
    pub right: bool,
}

/// The player-controlled entity: a circular footprint of diameter
/// `PLAYER_SIZE` centred on `pos`. Its velocity is derived fresh from the
/// held keys each frame, so no heading is stored.
#[derive(Clone, Copy, PartialEq, Eq, Structural, Debug)]
pub struct Player {
    pub pos: Vec2,
}

/// A wandering enemy: a circular footprint of diameter `ENEMY_SIZE` centred
/// on `pos`, plus a persistent milli-scaled heading (1000 stands for a unit
/// component). The heading is only ever changed by sign flips when the enemy
/// reaches an arena edge.
#[derive(Clone, Copy, PartialEq, Eq, Structural, Debug)]
pub struct Enemy {
    pub pos: Vec2,
    pub direction: Vec2,
}

/// A fire-and-forget presentation event the core emits for the host to
/// realize (as audio, typically). Bounces pick one of the two footstep
/// variants at random; a player-enemy overlap emits `Explosion`.
#[derive(Clone, Copy, PartialEq, Eq, Structural, Debug)]
pub enum AudioEvent {
    FootstepGrass,
    FootstepSnow,
    Explosion,
}

/// The whole simulation state: at most one player (none once the game is
/// over) and the wandering enemies.
pub struct Game {
    pub player: Option<Player>,
    pub enemies: Vec<Enemy>,
}

/// A coordinate within the machine limit that keeps position arithmetic
/// inside `i64`.
pub open spec fn coord_ok(v: i64) -> bool {
    -crate::COORD_LIMIT <= v <= crate::COORD_LIMIT
}

/// Both coordinates of a position within the machine limit.
pub open spec fn pos_ok(v: Vec2) -> bool {
    coord_ok(v.x) && coord_ok(v.y)
}

/// Both components of a heading within the machine limit.
pub open spec fn dir_ok(v: Vec2) -> bool {
    -crate::DIR_LIMIT <= v.x <= crate::DIR_LIMIT && -crate::DIR_LIMIT <= v.y <= crate::DIR_LIMIT
}

/// An enemy whose position and heading are within the machine limits.
pub open spec fn enemy_ok(e: Enemy) -> bool {
    pos_ok(e.pos) && dir_ok(e.direction)
}

/// Every enemy in the sequence is within the machine limits.
pub open spec fn enemies_ok(s: Seq<Enemy>) -> bool {
    forall|i: int| 0 <= i < s.len() ==> enemy_ok(s[i])
}

/// A player whose position is within the machine limits.
pub open spec fn player_ok(p: Player) -> bool {
    pos_ok(p.pos)
}

/// The player's footprint centre lies inside the arena walls.
pub open spec fn player_in_arena(p: Player, width: i64, height: i64) -> bool {
    &&& crate::PLAYER_HALF <= p.pos.x <= width - crate::PLAYER_HALF
    &&& crate::PLAYER_HALF <= p.pos.y <= height - crate::PLAYER_HALF
}

/// The enemy's footprint centre lies inside the arena walls.
pub open spec fn enemy_in_arena(e: Enemy, width: i64, height: i64) -> bool {
    &&& crate::ENEMY_HALF <= e.pos.x <= width - crate::ENEMY_HALF
    &&& crate::ENEMY_HALF <= e.pos.y <= height - crate::ENEMY_HALF
}

/// A game state whose entities are all within the machine limits.
pub open spec fn game_ok(g: Game) -> bool {
    &&& g.player is Some ==> player_ok(g.player->0)
    &&& enemies_ok(g.enemies@)
}

} // verus!

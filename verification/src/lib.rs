//! Core update logic for a small 2D arena game: a keyboard-driven player and a
//! handful of autonomously wandering enemies move inside a bounded arena, the
//! enemies bounce off the walls, and the game ends when an enemy overlaps the
//! player.
//!
//! All coordinates are integers measured in *milliunits*: one thousandth of an
//! arena unit. Working in milliunits keeps every per-frame computation exact
//! integer arithmetic, so clamping, reflection and the collision test can be
//! specified and proved precisely. Frame time is measured in milliseconds, and
//! speeds in arena units per second, so a displacement in milliunits is just
//! `speed * dt_ms`.

use vstd::prelude::*;

pub mod collision;
pub mod entity;
pub mod geom;
pub mod laws;
pub mod movement;
pub mod rng;
pub mod sim;
pub mod spawn;
pub mod wander;

verus! {

/// Milliunits in one arena unit.
pub const MILLIS_PER_UNIT: i64 = 1000;

/// Diameter of the player's circular footprint, in milliunits (64 units).
pub const PLAYER_SIZE: i64 = 64_000;

/// Radius of the player's footprint, in milliunits.
pub const PLAYER_HALF: i64 = 32_000;

/// Player speed, in arena units per second.
pub const PLAYER_SPEED: i64 = 500;

/// Diameter of an enemy's circular footprint, in milliunits (64 units).
pub const ENEMY_SIZE: i64 = 64_000;

/// Radius of an enemy's footprint, in milliunits.
pub const ENEMY_HALF: i64 = 32_000;

/// Default enemy speed, in arena units per second.
pub const ENEMY_SPEED: i64 = 200;

/// How many enemies are spawned at startup.
pub const NUMBER_OF_ENEMIES: usize = 4;

/// Largest coordinate magnitude (in milliunits) the library accepts as input;
/// a machine limit that keeps all position arithmetic inside `i64`.
pub const COORD_LIMIT: i64 = 2_000_000_000_000;

/// Largest heading-component magnitude accepted; headings are milli-scaled
/// (1000 stands for a full unit component), so this allows ample headroom.
pub const DIR_LIMIT: i64 = 1_000_000;

/// Largest per-frame step `speed * dt_ms` accepted, in milliunits; a machine
/// limit that keeps squared steps inside the integer square root's domain.
pub const STEP_LIMIT: i64 = 1_000_000_000;

} // verus!

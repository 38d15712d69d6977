//! The input-driven movement stage and the confinement stage for the player.
//!
//! Held keys compose a direction with components in {-1, 0, 1}; a nonzero
//! direction is normalized to the step length `speed * dt_ms` (a diagonal
//! step puts `step / sqrt(2)`, rounded down, on each axis) and added to the
//! player's position. Confinement then clamps the position back inside the
//! arena.

use vstd::prelude::*;
use crate::geom::Vec2;
use crate::geom::clamp64;
use crate::geom::clamp_i64;
use crate::geom::sqrt_floor;
use crate::geom::lemma_sqrt_floor_bounds;
use crate::geom::isqrt;
use crate::entity::KeySet;
use crate::entity::Player;
use crate::entity::player_ok;

verus! {

/// Horizontal input direction: +1 while only `right` is held, -1 while only
/// `left` is held, 0 otherwise.
pub open spec fn key_dx(k: KeySet) -> int {
    (if k.right { 1int } else { 0int }) - (if k.left { 1int } else { 0int })
}

/// Vertical input direction: +1 while only `up` is held, -1 while only
/// `down` is held, 0 otherwise.
pub open spec fn key_dy(k: KeySet) -> int {
    (if k.up { 1int } else { 0int }) - (if k.down { 1int } else { 0int })
}

/// Length of one frame's full step, in milliunits: speed in arena units per
/// second times the frame delta in milliseconds.
pub open spec fn step_len(speed: int, dt_ms: int) -> int {
    speed * dt_ms
}

/// Axis component of a diagonal step of length `step`: the largest `d` with
/// `2 * d * d <= step * step`, that is `step / sqrt(2)` rounded down.
pub open spec fn diag_len(step: int) -> int {
    sqrt_floor(((step * step) / 2) as nat) as int
}

/// The player's displacement along the x axis for held keys `k` and step
/// length `step`.
pub open spec fn disp_x(k: KeySet, step: int) -> int {
    if key_dx(k) != 0 && key_dy(k) != 0 {
        key_dx(k) * diag_len(step)
    } else {
        key_dx(k) * step
    }
}

/// The player's displacement along the y axis for held keys `k` and step
/// length `step`.
pub open spec fn disp_y(k: KeySet, step: int) -> int {
    if key_dx(k) != 0 && key_dy(k) != 0 {
        key_dy(k) * diag_len(step)
    } else {
        key_dy(k) * step
    }
}

/// The player after one input-driven movement step.
pub open spec fn moved_player(p: Player, k: KeySet, step: int) -> Player {
    Player {
        pos: Vec2 {
            x: (p.pos.x + disp_x(k, step)) as i64,
            y: (p.pos.y + disp_y(k, step)) as i64,
        },
    }
}

/// Compute the axis component of a diagonal step.
fn diag_step(step: i64) -> (d: i64)
    requires
        0 <= step <= crate::STEP_LIMIT,
    ensures
        d == diag_len(step as int),
        0 <= d <= step,
{
    let s = step as u64;
    assert((s as int) * (s as int) < 0x4000_0000_0000_0000int) by (nonlinear_arith)
        requires
            s <= 1_000_000_000u64,
    ;
    let n = (s * s) / 2;
    let d = isqrt(n);
    proof {
        lemma_sqrt_floor_bounds(n as nat);
        assert((n as int) <= (s as int) * (s as int));
        assert((d as int) <= s as int) by (nonlinear_arith)
            requires
                (d as int) * (d as int) <= (s as int) * (s as int),
                0 <= d as int,
                0 <= s as int,
        ;
    }
    d as i64
}

/// Input-driven movement: compose a direction from the held keys and, if it
/// is nonzero, advance the player by one step of length
/// `PLAYER_SPEED * dt_ms` milliunits along it. A missing player (terminal
/// state) makes the stage a no-op.
pub fn player_movement(player: &mut Option<Player>, keys: &KeySet, dt_ms: i64)
    requires
        0 <= dt_ms,
        crate::PLAYER_SPEED * dt_ms <= crate::STEP_LIMIT,
        (*old(player)) is Some ==> player_ok((*old(player))->0),
    ensures
        (*old(player)) is None ==> (*final(player)) is None,
        (*old(player)) is Some ==> (*final(player)) == Some(
            moved_player(
                (*old(player))->0,
                *keys,
                step_len(crate::PLAYER_SPEED as int, dt_ms as int),
            ),
        ),
{
    let step: i64 = crate::PLAYER_SPEED * dt_ms;
    match player {
        None => {},
        Some(p) => {
            let dx: i64 = (if keys.right { 1i64 } else { 0i64 }) - (
            if keys.left {
                1i64
            } else {
                0i64
            });
            let dy: i64 = (if keys.up { 1i64 } else { 0i64 }) - (
            if keys.down {
                1i64
            } else {
                0i64
            });
            if dx != 0 || dy != 0 {
                let m: i64 = if dx != 0 && dy != 0 {
                    diag_step(step)
                } else {
                    step
                };
                assert(-(step as int) <= (dx as int) * (m as int) <= step as int)
                    by (nonlinear_arith)
                    requires
                        -1 <= dx as int <= 1,
                        0 <= m as int <= step as int,
                ;
                assert(-(step as int) <= (dy as int) * (m as int) <= step as int)
                    by (nonlinear_arith)
                    requires
                        -1 <= dy as int <= 1,
                        0 <= m as int <= step as int,
                ;
                let sx: i64 = dx * m;
                let sy: i64 = dy * m;
                p.pos.x = p.pos.x + sx;
                p.pos.y = p.pos.y + sy;
            }
        },
    }
}

/// The player's position clamped into the arena `[PLAYER_HALF, width -
/// PLAYER_HALF] x [PLAYER_HALF, height - PLAYER_HALF]`.
pub open spec fn confined_player(p: Player, width: i64, height: i64) -> Player {
    Player {
        pos: Vec2 {
            x: clamp64(p.pos.x, crate::PLAYER_HALF, (width - crate::PLAYER_HALF) as i64),
            y: clamp64(p.pos.y, crate::PLAYER_HALF, (height - crate::PLAYER_HALF) as i64),
        },
    }
}

/// Confinement: clamp the player's position back inside the arena. Runs
/// after all movement for the frame, so the stored position never leaves the
/// arena. A missing player makes the stage a no-op.
pub fn constrain_player_movement(player: &mut Option<Player>, width: i64, height: i64)
    requires
        crate::PLAYER_SIZE <= width <= crate::COORD_LIMIT,
        crate::PLAYER_SIZE <= height <= crate::COORD_LIMIT,
    ensures
        (*old(player)) is None ==> (*final(player)) is None,
        (*old(player)) is Some ==> (*final(player)) == Some(
            confined_player((*old(player))->0, width, height),
        ),
        (*final(player)) is Some ==> {
            let q = (*final(player))->0.pos;
            &&& crate::PLAYER_HALF <= q.x <= width - crate::PLAYER_HALF
            &&& crate::PLAYER_HALF <= q.y <= height - crate::PLAYER_HALF
        },
{
    match player {
        None => {},
        Some(p) => {
            p.pos.x = clamp_i64(p.pos.x, crate::PLAYER_HALF, width - crate::PLAYER_HALF);
            p.pos.y = clamp_i64(p.pos.y, crate::PLAYER_HALF, height - crate::PLAYER_HALF);
        },
    }
}

} // verus!

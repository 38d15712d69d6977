//! General properties of the update stages, stated and proved once and for
//! all inputs: idempotence of confinement, the length of the player's
//! displacement, the reflection rule at a wall, and absorption of the
//! terminal state.

use vstd::prelude::*;
use crate::geom::clamp64;
use crate::geom::sqrt_floor;
use crate::geom::lemma_sqrt_floor_bounds;
use crate::entity::KeySet;
use crate::entity::Player;
use crate::entity::Enemy;
use crate::movement::key_dx;
use crate::movement::key_dy;
use crate::movement::step_len;
use crate::movement::disp_x;
use crate::movement::disp_y;
use crate::movement::confined_player;
use crate::wander::reflected_enemy;
use crate::sim::player_after_frame;

verus! {

/// Clamping into an interval is idempotent: a value already clamped is left
/// where it is.
pub proof fn lemma_clamp_idempotent(v: i64, lo: i64, hi: i64)
    requires
        lo <= hi,
    ensures
        clamp64(clamp64(v, lo, hi), lo, hi) == clamp64(v, lo, hi),
{
}

/// Confinement is idempotent: clamping the player into the arena twice
/// yields the same position as clamping once, for every position and every
/// arena at least as large as the player's footprint.
pub proof fn lemma_confinement_idempotent(p: Player, width: i64, height: i64)
    requires
        crate::PLAYER_SIZE <= width,
        crate::PLAYER_SIZE <= height,
    ensures
        confined_player(confined_player(p, width, height), width, height) == confined_player(
            p,
            width,
            height,
        ),
{
}

/// For any nonzero combination of held movement keys, the squared length of
/// the player's per-frame displacement equals the squared step length
/// `PLAYER_SPEED * dt_ms` up to the integer rounding of the diagonal
/// component: the displacement never exceeds the step, and its squared
/// length falls short of the squared step by less than `4 * step + 2`.
pub proof fn lemma_displacement_magnitude(k: KeySet, dt_ms: int)
    requires
        0 <= dt_ms,
        key_dx(k) != 0 || key_dy(k) != 0,
    ensures
        ({
            let step = step_len(crate::PLAYER_SPEED as int, dt_ms);
            let sq = disp_x(k, step) * disp_x(k, step) + disp_y(k, step) * disp_y(k, step);
            &&& sq <= step * step
            &&& step * step < sq + 4 * step + 2
            &&& (key_dx(k) == 0 || key_dy(k) == 0) ==> sq == step * step
        }),
{
    let step = step_len(crate::PLAYER_SPEED as int, dt_ms);
    assert(0 <= step) by (nonlinear_arith)
        requires
            0 <= dt_ms,
            step == 500 * dt_ms,
    ;
    let dx = key_dx(k);
    let dy = key_dy(k);
    if dx != 0 && dy != 0 {
        let n = ((step * step) / 2) as nat;
        lemma_sqrt_floor_bounds(n);
        let d = sqrt_floor(n) as int;
        assert(0 <= step * step) by (nonlinear_arith)
            requires
                0 <= step,
        ;
        assert(2 * (n as int) <= step * step && step * step <= 2 * (n as int) + 1);
        assert((d + 1) * (d + 1) == d * d + 2 * d + 1) by (nonlinear_arith);
        assert(n as int <= d * d + 2 * d);
        assert(d <= step) by (nonlinear_arith)
            requires
                0 <= d,
                0 <= step,
                d * d <= step * step,
        ;
        assert(disp_x(k, step) == dx * d && disp_y(k, step) == dy * d);
        assert(dx * d * (dx * d) == d * d && dy * d * (dy * d) == d * d) by (nonlinear_arith)
            requires
                dx == 1 || dx == -1,
                dy == 1 || dy == -1,
        ;
    } else if dx != 0 {
        assert(dx * step * (dx * step) == step * step && dy * step * (dy * step) == 0)
            by (nonlinear_arith)
            requires
                dx == 1 || dx == -1,
                dy == 0,
        ;
    } else {
        assert(dy * step * (dy * step) == step * step && dx * step * (dx * step) == 0)
            by (nonlinear_arith)
            requires
                dy == 1 || dy == -1,
                dx == 0,
        ;
    }
}

/// Reflection at the right wall: a wanderer whose raw x coordinate lies past
/// `width - ENEMY_HALF` with a rightward heading comes out of the reflection
/// rule with its x heading flipped negative and its x coordinate pinned to
/// exactly `width - ENEMY_HALF`.
pub proof fn lemma_reflection_right_wall(e: Enemy, width: i64, height: i64)
    requires
        crate::ENEMY_SIZE <= width,
        crate::ENEMY_SIZE <= height,
        e.pos.x > width - crate::ENEMY_HALF,
        0 < e.direction.x <= crate::DIR_LIMIT,
    ensures
        reflected_enemy(e, width, height).direction.x == -e.direction.x,
        reflected_enemy(e, width, height).direction.x < 0,
        reflected_enemy(e, width, height).pos.x == width - crate::ENEMY_HALF,
{
}

/// The terminal state absorbs: once the player is despawned, a frame leaves
/// the player slot empty, whatever the inputs, the arena, and the enemies;
/// by induction no number of further frames ever re-creates a player.
pub proof fn lemma_terminal_absorbs(
    k: KeySet,
    dt_ms: int,
    width: i64,
    height: i64,
    enemies_after: Seq<Enemy>,
)
    ensures
        player_after_frame(None, k, dt_ms, width, height, enemies_after) is None,
{
}

/// The player slot after a run of frames, given each frame's inputs and
/// each frame's end-of-frame enemy set.
pub open spec fn player_after_frames(
    pl: Option<Player>,
    ks: Seq<KeySet>,
    dts: Seq<int>,
    ess: Seq<Seq<Enemy>>,
    width: i64,
    height: i64,
) -> Option<Player>
    decreases ks.len(),
{
    if ks.len() == 0 {
        pl
    } else {
        player_after_frames(
            player_after_frame(pl, ks[0], dts[0], width, height, ess[0]),
            ks.skip(1),
            dts.skip(1),
            ess.skip(1),
            width,
            height,
        )
    }
}

/// Once the player is despawned, running any number of further frames never
/// re-creates a player, whatever keys are held, however long the frames
/// take, and wherever the wanderers end up.
pub proof fn lemma_terminal_absorbs_forever(
    ks: Seq<KeySet>,
    dts: Seq<int>,
    ess: Seq<Seq<Enemy>>,
    width: i64,
    height: i64,
)
    ensures
        player_after_frames(None, ks, dts, ess, width, height) is None,
    decreases ks.len(),
{
    if ks.len() > 0 {
        lemma_terminal_absorbs_forever(ks.skip(1), dts.skip(1), ess.skip(1), width, height);
    }
}

} // verus!

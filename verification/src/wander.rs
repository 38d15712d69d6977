//! The autonomous movement stage and the boundary-reflection rule for the
//! wandering enemies.
//!
//! Every frame each enemy advances along its stored heading, unconditionally
//! and without renormalizing the heading. The reflection rule then looks at
//! the raw, possibly out-of-bounds position: each axis outside the arena
//! flips the corresponding heading component, and an enemy that flipped on
//! any axis is clamped back inside and emits one footstep event, choosing
//! between the two variants by a coin flip.

use vstd::prelude::*;
use crate::geom::Vec2;
use crate::geom::clamp64;
use crate::geom::clamp_i64;
use crate::geom::scaled;
use crate::geom::scale_dir;
use crate::entity::Enemy;
use crate::entity::AudioEvent;
use crate::entity::enemies_ok;
use crate::entity::enemy_in_arena;
use crate::entity::dir_ok;
use crate::movement::step_len;

verus! {

/// An enemy after one autonomous movement step: the position advances by the
/// milli-scaled heading times the step length `speed * dt_ms`, brought back
/// to milliunits; the heading is untouched.
pub open spec fn moved_enemy(e: Enemy, speed: int, dt_ms: int) -> Enemy {
    Enemy {
        pos: Vec2 {
            x: (e.pos.x + scaled(e.direction.x as int, step_len(speed, dt_ms))) as i64,
            y: (e.pos.y + scaled(e.direction.y as int, step_len(speed, dt_ms))) as i64,
        },
        direction: e.direction,
    }
}

/// Is the enemy's x coordinate outside the arena's vertical walls?
pub open spec fn bounced_x(e: Enemy, width: i64) -> bool {
    e.pos.x < crate::ENEMY_HALF || e.pos.x > width - crate::ENEMY_HALF
}

/// Is the enemy's y coordinate outside the arena's horizontal walls?
pub open spec fn bounced_y(e: Enemy, height: i64) -> bool {
    e.pos.y < crate::ENEMY_HALF || e.pos.y > height - crate::ENEMY_HALF
}

/// Does the enemy bounce on either axis this frame?
pub open spec fn bounced(e: Enemy, width: i64, height: i64) -> bool {
    bounced_x(e, width) || bounced_y(e, height)
}

/// An enemy after the boundary-reflection rule: each out-of-bounds axis
/// flips the corresponding heading component (a pure sign flip), and an
/// enemy that flipped on any axis has its position clamped back inside the
/// arena; one that did not bounce is untouched.
pub open spec fn reflected_enemy(e: Enemy, width: i64, height: i64) -> Enemy {
    Enemy {
        pos: if bounced(e, width, height) {
            Vec2 {
                x: clamp64(e.pos.x, crate::ENEMY_HALF, (width - crate::ENEMY_HALF) as i64),
                y: clamp64(e.pos.y, crate::ENEMY_HALF, (height - crate::ENEMY_HALF) as i64),
            }
        } else {
            e.pos
        },
        direction: Vec2 {
            x: if bounced_x(e, width) {
                (-e.direction.x) as i64
            } else {
                e.direction.x
            },
            y: if bounced_y(e, height) {
                (-e.direction.y) as i64
            } else {
                e.direction.y
            },
        },
    }
}

/// How many enemies of `s` bounce this frame.
pub open spec fn count_bounced(s: Seq<Enemy>, width: i64, height: i64) -> nat
    decreases s.len(),
{
    if s.len() == 0 {
        0
    } else {
        count_bounced(s.drop_last(), width, height) + if bounced(
            s.last(),
            width,
            height,
        ) {
            1nat
        } else {
            0nat
        }
    }
}

/// Autonomous movement: advance every enemy one step along its heading.
pub fn enemy_movement(enemies: &mut Vec<Enemy>, speed: i64, dt_ms: i64)
    requires
        0 <= speed,
        0 <= dt_ms,
        speed * dt_ms <= crate::STEP_LIMIT,
        enemies_ok(old(enemies)@),
    ensures
        final(enemies)@.len() == old(enemies)@.len(),
        forall|i: int|
            0 <= i < old(enemies)@.len() ==> final(enemies)@[i] == moved_enemy(
                old(enemies)@[i],
                speed as int,
                dt_ms as int,
            ),
{
    let step: i64 = speed * dt_ms;
    let n = enemies.len();
    let mut out: Vec<Enemy> = Vec::new();
    let mut i: usize = 0;
    while i < n
        invariant
            i <= n,
            n == enemies@.len(),
            enemies@ == old(enemies)@,
            enemies_ok(enemies@),
            0 <= step == speed * dt_ms <= crate::STEP_LIMIT,
            out@.len() == i as int,
            forall|j: int|
                0 <= j < i as int ==> out@[j] == moved_enemy(
                    enemies@[j],
                    speed as int,
                    dt_ms as int,
                ),
        decreases n - i,
    {
        let e = enemies[i];
        let mx = scale_dir(e.direction.x, step);
        let my = scale_dir(e.direction.y, step);
        let ne = Enemy {
            pos: Vec2 { x: e.pos.x + mx, y: e.pos.y + my },
            direction: e.direction,
        };
        out.push(ne);
        i = i + 1;
    }
    *enemies = out;
}

/// Boundary reflection: flip each enemy's heading on every axis whose
/// coordinate lies outside the arena, clamp the bounced enemies back inside,
/// and emit one footstep event per bounced enemy, with the variant chosen by
/// a coin flip. After this stage every enemy lies inside the arena.
pub fn update_enemy_direction(enemies: &mut Vec<Enemy>, width: i64, height: i64) -> (events: Vec<
    AudioEvent,
>)
    requires
        crate::ENEMY_SIZE <= width <= crate::COORD_LIMIT,
        crate::ENEMY_SIZE <= height <= crate::COORD_LIMIT,
        forall|i: int| 0 <= i < old(enemies)@.len() ==> dir_ok(old(enemies)@[i].direction),
    ensures
        final(enemies)@.len() == old(enemies)@.len(),
        forall|i: int|
            0 <= i < old(enemies)@.len() ==> final(enemies)@[i] == reflected_enemy(
                old(enemies)@[i],
                width,
                height,
            ),
        forall|i: int|
            0 <= i < final(enemies)@.len() ==> enemy_in_arena(
                #[trigger] final(enemies)@[i],
                width,
                height,
            ),
        forall|i: int| 0 <= i < final(enemies)@.len() ==> dir_ok(final(enemies)@[i].direction),
        events@.len() == count_bounced(old(enemies)@, width, height),
        forall|k: int|
            0 <= k < events@.len() ==> (events@[k] is FootstepGrass || events@[k] is FootstepSnow),
{
    let xmax = width - crate::ENEMY_HALF;
    let ymax = height - crate::ENEMY_HALF;
    let n = enemies.len();
    let mut out: Vec<Enemy> = Vec::new();
    let mut events: Vec<AudioEvent> = Vec::new();
    let mut i: usize = 0;
    while i < n
        invariant
            i <= n,
            n == enemies@.len(),
            enemies@ == old(enemies)@,
            forall|j: int| 0 <= j < n as int ==> dir_ok(enemies@[j].direction),
            crate::ENEMY_SIZE <= width <= crate::COORD_LIMIT,
            crate::ENEMY_SIZE <= height <= crate::COORD_LIMIT,
            xmax == width - crate::ENEMY_HALF,
            ymax == height - crate::ENEMY_HALF,
            out@.len() == i as int,
            forall|j: int|
                0 <= j < i as int ==> out@[j] == reflected_enemy(enemies@[j], width, height),
            events@.len() == count_bounced(enemies@.take(i as int), width, height),
            forall|k: int|
                0 <= k < events@.len() ==> (events@[k] is FootstepGrass
                    || events@[k] is FootstepSnow),
        decreases n - i,
    {
        let e = enemies[i];
        let bx = e.pos.x < crate::ENEMY_HALF || e.pos.x > xmax;
        let by = e.pos.y < crate::ENEMY_HALF || e.pos.y > ymax;
        let mut ne = e;
        if bx {
            ne.direction.x = -e.direction.x;
        }
        if by {
            ne.direction.y = -e.direction.y;
        }
        if bx || by {
            ne.pos.x = clamp_i64(e.pos.x, crate::ENEMY_HALF, xmax);
            ne.pos.y = clamp_i64(e.pos.y, crate::ENEMY_HALF, ymax);
            let ev = if rand::random::<bool>() {
                AudioEvent::FootstepGrass
            } else {
                AudioEvent::FootstepSnow
            };
            events.push(ev);
        }
        out.push(ne);
        proof {
            let s = enemies@;
            assert(s.take(i as int + 1).drop_last() =~= s.take(i as int));
            assert(s.take(i as int + 1).last() == s[i as int]);
            assert(count_bounced(s.take(i as int + 1), width, height) == count_bounced(
                s.take(i as int),
                width,
                height,
            ) + if bounced(s[i as int], width, height) {
                1nat
            } else {
                0nat
            });
        }
        i = i + 1;
    }
    proof {
        assert(enemies@.take(n as int) =~= enemies@);
    }
    *enemies = out;
    events
}

} // verus!

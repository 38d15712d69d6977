//! Startup: create the player at the centre of the arena and the enemies at
//! random positions inside it, each with a random milli-scale heading.

use vstd::prelude::*;
use crate::geom::Vec2;
use crate::entity::Player;
use crate::entity::Enemy;
use crate::entity::enemy_ok;
use crate::entity::enemy_in_arena;

verus! {

/// Create the player at the centre of the arena.
pub fn spawn_player(width: i64, height: i64) -> (p: Player)
    requires
        0 <= width <= crate::COORD_LIMIT,
        0 <= height <= crate::COORD_LIMIT,
    ensures
        p.pos.x == width as int / 2,
        p.pos.y == height as int / 2,
{
    Player {
        pos: Vec2 { x: ((width as u64) / 2) as i64, y: ((height as u64) / 2) as i64 },
    }
}

/// Draw a uniform milli-fraction: a random value in `[0, 1000)`, standing
/// for a real in `[0, 1)` at milli scale.
fn sample_milli() -> (r: u64)
    ensures
        r < 1000,
{
    rand::random::<u64>() % 1000
}

/// Place a milli-fraction `r` on the spawnable span of an arena dimension:
/// `r * (dim - ENEMY_SIZE) / 1000 + ENEMY_HALF`, which always lies in
/// `[ENEMY_HALF, dim - ENEMY_HALF]`.
fn place_on_span(r: u64, dim: i64) -> (x: i64)
    requires
        r < 1000,
        crate::ENEMY_SIZE <= dim <= crate::COORD_LIMIT,
    ensures
        x == (r as int) * ((dim - crate::ENEMY_SIZE) as int) / 1000 + crate::ENEMY_HALF,
        crate::ENEMY_HALF <= x <= dim - crate::ENEMY_HALF,
{
    let span = (dim - crate::ENEMY_SIZE) as u64;
    assert((r as int) * (span as int) <= 999int * (span as int) <= 2_000_000_000_000_000int)
        by (nonlinear_arith)
        requires
            r <= 999u64,
            span <= 2_000_000_000_000u64,
    ;
    let p = r * span;
    let off = p / 1000;
    assert(off <= span) by (nonlinear_arith)
        requires
            p <= 999 * (span as int),
            off == p as int / 1000,
            0 <= span,
            0 <= p,
    ;
    (off as i64) + crate::ENEMY_HALF
}

/// Create `NUMBER_OF_ENEMIES` enemies, each at a uniformly random position
/// inside the arena and with a random heading whose components lie in
/// `[0, 1000)` (milli scale `[0, 1)`).
pub fn spawn_enemies(width: i64, height: i64) -> (es: Vec<Enemy>)
    requires
        crate::ENEMY_SIZE <= width <= crate::COORD_LIMIT,
        crate::ENEMY_SIZE <= height <= crate::COORD_LIMIT,
    ensures
        es@.len() == crate::NUMBER_OF_ENEMIES,
        forall|i: int| 0 <= i < es@.len() ==> enemy_in_arena(#[trigger] es@[i], width, height),
        forall|i: int|
            0 <= i < es@.len() ==> {
                &&& 0 <= #[trigger] es@[i].direction.x < 1000
                &&& 0 <= es@[i].direction.y < 1000
            },
        forall|i: int| 0 <= i < es@.len() ==> enemy_ok(#[trigger] es@[i]),
{
    let mut es: Vec<Enemy> = Vec::new();
    let mut k: usize = 0;
    while k < crate::NUMBER_OF_ENEMIES
        invariant
            k <= crate::NUMBER_OF_ENEMIES,
            crate::ENEMY_SIZE <= width <= crate::COORD_LIMIT,
            crate::ENEMY_SIZE <= height <= crate::COORD_LIMIT,
            es@.len() == k as int,
            forall|i: int| 0 <= i < es@.len() ==> enemy_in_arena(#[trigger] es@[i], width, height),
            forall|i: int|
                0 <= i < es@.len() ==> {
                    &&& 0 <= #[trigger] es@[i].direction.x < 1000
                    &&& 0 <= es@[i].direction.y < 1000
                },
            forall|i: int| 0 <= i < es@.len() ==> enemy_ok(#[trigger] es@[i]),
        decreases crate::NUMBER_OF_ENEMIES - k,
    {
        let rx = sample_milli();
        let ry = sample_milli();
        let hx = sample_milli();
        let hy = sample_milli();
        let e = Enemy {
            pos: Vec2 { x: place_on_span(rx, width), y: place_on_span(ry, height) },
            direction: Vec2 { x: hx as i64, y: hy as i64 },
        };
        es.push(e);
        k = k + 1;
    }
    es
}

} // verus!

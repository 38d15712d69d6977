//! The collision-check stage: after all movement, the player is despawned
//! and an explosion event emitted as soon as any enemy's footprint overlaps
//! the player's.
//!
//! Overlap means a centre distance strictly below the sum of the two radii,
//! `(PLAYER_SIZE + ENEMY_SIZE) / 2`; comparing squared distances keeps the
//! test exact in integers.

use vstd::prelude::*;
use crate::geom::Vec2;
use crate::entity::Player;
use crate::entity::Enemy;
use crate::entity::AudioEvent;
use crate::entity::player_ok;
use crate::entity::enemies_ok;

verus! {

/// Do footprints centred on `p` (the player) and `e` (an enemy) overlap:
/// strictly closer than the sum of the two radii?
pub open spec fn hits(p: Vec2, e: Vec2) -> bool {
    let dx = p.x - e.x;
    let dy = p.y - e.y;
    let r = (crate::PLAYER_SIZE + crate::ENEMY_SIZE) / 2;
    dx * dx + dy * dy < r * r
}

/// Some enemy of `s` overlaps the player at `p`.
pub open spec fn any_hit(p: Vec2, s: Seq<Enemy>) -> bool {
    exists|i: int| 0 <= i < s.len() && hits(p, #[trigger] s[i].pos)
}

/// Collision check: if a player exists and any enemy overlaps it, despawn
/// the player (the terminal transition) and emit one explosion event; the
/// first overlap found wins and the despawn happens once. Without a player,
/// or without an overlap, nothing changes and no event is emitted.
pub fn enemy_hit_player(player: &mut Option<Player>, enemies: &Vec<Enemy>) -> (event: Option<
    AudioEvent,
>)
    requires
        (*old(player)) is Some ==> player_ok((*old(player))->0),
        enemies_ok(enemies@),
    ensures
        (*old(player)) is None ==> (*final(player)) is None && event is None,
        (*old(player)) is Some ==> {
            if any_hit((*old(player))->0.pos, enemies@) {
                &&& (*final(player)) is None
                &&& event == Some(AudioEvent::Explosion)
            } else {
                &&& *final(player) == *old(player)
                &&& event is None
            }
        },
{
    let ppos: Vec2 = match player {
        None => {
            return None;
        },
        Some(p) => p.pos,
    };
    let rr: i128 = 4_096_000_000;
    proof {
        let r = (crate::PLAYER_SIZE + crate::ENEMY_SIZE) / 2int;
        assert(r == 64_000);
        assert(64_000int * 64_000int == 4_096_000_000int) by (nonlinear_arith);
    }
    let n = enemies.len();
    let mut i: usize = 0;
    while i < n
        invariant
            i <= n,
            n == enemies@.len(),
            enemies_ok(enemies@),
            (*player) == (*old(player)),
            (*old(player)) is Some && (*old(player))->0.pos == ppos,
            player_ok((*old(player))->0),
            rr == 4_096_000_000i128,
            forall|j: int| 0 <= j < i as int ==> !hits(ppos, #[trigger] enemies@[j].pos),
        decreases n - i,
    {
        let e = &enemies[i];
        let dx: i64 = ppos.x - e.pos.x;
        let dy: i64 = ppos.y - e.pos.y;
        assert(0int <= (dx as int) * (dx as int) <= 20_000_000_000_000_000_000_000_000int)
            by (nonlinear_arith)
            requires
                -4_100_000_000_000 <= dx as int <= 4_100_000_000_000,
        ;
        assert(0int <= (dy as int) * (dy as int) <= 20_000_000_000_000_000_000_000_000int)
            by (nonlinear_arith)
            requires
                -4_100_000_000_000 <= dy as int <= 4_100_000_000_000,
        ;
        let d2: i128 = (dx as i128) * (dx as i128) + (dy as i128) * (dy as i128);
        if d2 < rr {
            *player = None;
            return Some(AudioEvent::Explosion);
        }
        i = i + 1;
    }
    None
}

} // verus!

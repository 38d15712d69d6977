//! One whole frame of the simulation, in the fixed stage order: input-driven
//! player movement, player confinement, autonomous enemy movement, boundary
//! reflection (which confines the bounced enemies), then the collision
//! check. The frame returns the presentation events it emitted: one footstep
//! per bounced enemy, then one explosion if the player was hit.

use vstd::prelude::*;
use crate::entity::KeySet;
use crate::entity::Player;
use crate::entity::Enemy;
use crate::entity::AudioEvent;
use crate::entity::Game;
use crate::entity::game_ok;
use crate::entity::player_in_arena;
use crate::entity::enemy_in_arena;
use crate::entity::enemies_ok;
use crate::entity::enemy_ok;
use crate::entity::dir_ok;
use crate::movement::player_movement;
use crate::movement::constrain_player_movement;
use crate::movement::moved_player;
use crate::movement::confined_player;
use crate::movement::step_len;
use crate::wander::enemy_movement;
use crate::wander::update_enemy_direction;
use crate::wander::moved_enemy;
use crate::wander::reflected_enemy;
use crate::wander::count_bounced;
use crate::collision::enemy_hit_player;
use crate::collision::any_hit;
use crate::spawn::spawn_player;
use crate::spawn::spawn_enemies;

verus! {

/// An enemy after a whole frame: one autonomous step, then the reflection
/// rule on the raw, pre-confinement position.
pub open spec fn enemy_after_frame(e: Enemy, speed: int, dt_ms: int, width: i64, height: i64) -> Enemy {
    reflected_enemy(moved_enemy(e, speed, dt_ms), width, height)
}

/// A whole enemy set after one autonomous movement step.
pub open spec fn moved_enemies(s: Seq<Enemy>, speed: int, dt_ms: int) -> Seq<Enemy> {
    s.map_values(|e: Enemy| moved_enemy(e, speed, dt_ms))
}

/// The player after the movement and confinement stages of a frame.
pub open spec fn player_after_move(p: Player, k: KeySet, dt_ms: int, width: i64, height: i64) -> Player {
    confined_player(moved_player(p, k, step_len(crate::PLAYER_SPEED as int, dt_ms)), width, height)
}

/// The player slot after a whole frame, given the enemies' end-of-frame
/// positions: a missing player stays missing (the terminal state absorbs),
/// and a moved, confined player is despawned exactly when some enemy
/// overlaps it.
pub open spec fn player_after_frame(
    pl: Option<Player>,
    k: KeySet,
    dt_ms: int,
    width: i64,
    height: i64,
    enemies_after: Seq<Enemy>,
) -> Option<Player> {
    match pl {
        None => None,
        Some(p) => {
            let q = player_after_move(p, k, dt_ms, width, height);
            if any_hit(q.pos, enemies_after) {
                None
            } else {
                Some(q)
            }
        },
    }
}

/// Run one frame of the simulation.
pub fn frame(
    game: &mut Game,
    keys: &KeySet,
    dt_ms: i64,
    enemy_speed: i64,
    width: i64,
    height: i64,
) -> (events: Vec<AudioEvent>)
    requires
        0 <= dt_ms,
        0 <= enemy_speed,
        crate::PLAYER_SPEED * dt_ms <= crate::STEP_LIMIT,
        enemy_speed * dt_ms <= crate::STEP_LIMIT,
        crate::PLAYER_SIZE <= width <= crate::COORD_LIMIT,
        crate::PLAYER_SIZE <= height <= crate::COORD_LIMIT,
        crate::ENEMY_SIZE <= width,
        crate::ENEMY_SIZE <= height,
        game_ok(*old(game)),
    ensures
        final(game).enemies@.len() == old(game).enemies@.len(),
        forall|i: int|
            0 <= i < old(game).enemies@.len() ==> final(game).enemies@[i] == enemy_after_frame(
                old(game).enemies@[i],
                enemy_speed as int,
                dt_ms as int,
                width,
                height,
            ),
        final(game).player == player_after_frame(
            old(game).player,
            *keys,
            dt_ms as int,
            width,
            height,
            final(game).enemies@,
        ),
        forall|i: int|
            0 <= i < final(game).enemies@.len() ==> enemy_in_arena(
                #[trigger] final(game).enemies@[i],
                width,
                height,
            ),
        final(game).player is Some ==> player_in_arena(final(game).player->0, width, height),
        game_ok(*final(game)),
        events@.len() == count_bounced(
            moved_enemies(old(game).enemies@, enemy_speed as int, dt_ms as int),
            width,
            height,
        ) + if old(game).player is Some && final(game).player is None {
            1int
        } else {
            0int
        },
        forall|k: int|
            0 <= k < events@.len() ==> ((#[trigger] events@[k]) is Explosion <==> (k == events@.len()
                - 1 && old(game).player is Some && final(game).player is None)),
{
    player_movement(&mut game.player, keys, dt_ms);
    constrain_player_movement(&mut game.player, width, height);
    enemy_movement(&mut game.enemies, enemy_speed, dt_ms);
    proof {
        assert(game.enemies@ =~= moved_enemies(old(game).enemies@, enemy_speed as int, dt_ms as int));
        assert(forall|i: int|
            0 <= i < game.enemies@.len() ==> dir_ok(#[trigger] game.enemies@[i].direction));
    }
    let mut events = update_enemy_direction(&mut game.enemies, width, height);
    proof {
        assert(forall|i: int|
            0 <= i < game.enemies@.len() ==> enemy_ok(#[trigger] game.enemies@[i]));
        assert(enemies_ok(game.enemies@));
    }
    let boom = enemy_hit_player(&mut game.player, &game.enemies);
    let mut out = events;
    match boom {
        None => {},
        Some(ev) => {
            out.push(ev);
        },
    }
    out
}

/// Set up a fresh game: the player at the centre of the arena and
/// `NUMBER_OF_ENEMIES` randomly placed enemies.
pub fn new_game(width: i64, height: i64) -> (g: Game)
    requires
        crate::PLAYER_SIZE <= width <= crate::COORD_LIMIT,
        crate::PLAYER_SIZE <= height <= crate::COORD_LIMIT,
        crate::ENEMY_SIZE <= width,
        crate::ENEMY_SIZE <= height,
    ensures
        g.player is Some,
        g.player->0.pos.x == width as int / 2,
        g.player->0.pos.y == height as int / 2,
        g.enemies@.len() == crate::NUMBER_OF_ENEMIES,
        forall|i: int|
            0 <= i < g.enemies@.len() ==> enemy_in_arena(#[trigger] g.enemies@[i], width, height),
        forall|i: int|
            0 <= i < g.enemies@.len() ==> {
                &&& 0 <= #[trigger] g.enemies@[i].direction.x < 1000
                &&& 0 <= g.enemies@[i].direction.y < 1000
            },
        game_ok(g),
{
    let player = spawn_player(width, height);
    let enemies = spawn_enemies(width, height);
    Game { player: Some(player), enemies }
}

} // verus!

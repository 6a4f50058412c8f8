//! Projectile creation on player and enemy trigger conditions.
//!
//! The player fires on an edge-detected input, spawning one laser above
//! the ship with a velocity resolved from the firing heading (the caller
//! supplies the heading as a unit vector, since resolving an angle into a
//! vector is trigonometry done at the edge). Each enemy fires a downward
//! laser whenever the player's x-coordinate lies inside a narrow band
//! around its own, gated by a caller-supplied per-tick roll.

use vstd::prelude::*;
use crate::components::{Entity, Movable, Orientation, SpriteSize, Tags, Velocity, SPRITE_SCALE};
use crate::fixed::{clamp_pos, clamp_pos_i64};
use crate::world::{
    is_live_enemy, is_live_player, lemma_census_nonzero_witness, lemma_census_pos,
    lemma_census_push, World,
};

verus! {

/// Full sprite size of the player's laser, in milli-units (9 by 54).
pub const PLAYER_LASER_W: i64 = 9_000;
pub const PLAYER_LASER_H: i64 = 54_000;

/// Full sprite size of an enemy laser, in milli-units (17 by 55).
pub const ENEMY_LASER_W: i64 = 17_000;
pub const ENEMY_LASER_H: i64 = 55_000;

/// Vertical offset of the player's laser spawn above the ship, in
/// milli-units (50 units).
pub const PLAYER_FIRE_LIFT: i64 = 50_000;

/// Speed factor applied to the firing heading: the laser leaves at twice
/// the unit heading per axis.
pub const PLAYER_LASER_SPEED: i64 = 2;

/// Vertical offset of an enemy laser spawn below the enemy, in
/// milli-units (15 units).
pub const ENEMY_FIRE_DROP: i64 = 15_000;

/// Downward velocity of an enemy laser, in milli direction units (-1.5).
pub const ENEMY_LASER_FALL: i64 = -1_500;

/// Half-width of the firing band: an enemy shoots when the player's
/// x-coordinate is within 5 units of its own.
pub const ENEMY_FIRE_BAND: i64 = 5_000;

/// The laser the player fires: spawned just above the ship, oriented and
/// propelled along the firing heading, destroyed once off-screen.
pub open spec fn player_laser_entity(p: Entity, dir_x: i64, dir_y: i64) -> Entity {
    Entity {
        alive: true,
        tags: Tags { laser: true, from_player: true, ..Tags::none_spec() },
        x: p.x,
        y: clamp_pos(p.y + PLAYER_FIRE_LIFT) as i64,
        z: 0,
        scale: SPRITE_SCALE,
        rotation: p.orientation.theta,
        orientation: Orientation { theta: p.orientation.theta },
        vel: Velocity { x: (PLAYER_LASER_SPEED * dir_x) as i64, y: (PLAYER_LASER_SPEED * dir_y) as i64 },
        movable: Some(Movable { auto_despawn: true }),
        size: SpriteSize { w: PLAYER_LASER_W, h: PLAYER_LASER_H },
        ..Entity::blank_spec()
    }
}

/// The laser an enemy fires: spawned just below the enemy, falling
/// straight down, destroyed once off-screen.
pub open spec fn enemy_laser_entity(e: Entity) -> Entity {
    Entity {
        alive: true,
        tags: Tags { laser: true, from_enemy: true, ..Tags::none_spec() },
        x: e.x,
        y: clamp_pos(e.y - ENEMY_FIRE_DROP) as i64,
        z: 0,
        scale: SPRITE_SCALE,
        vel: Velocity { x: 0, y: ENEMY_LASER_FALL },
        movable: Some(Movable { auto_despawn: true }),
        size: SpriteSize { w: ENEMY_LASER_W, h: ENEMY_LASER_H },
        ..Entity::blank_spec()
    }
}

/// Everything the player fire controller guarantees, from the state
/// before the call to the state after it.
pub open spec fn player_fired(pre: World, post: World, fire: bool, dir_x: i64, dir_y: i64) -> bool {
    &&& post.wf()
    &&& fire && pre.player.on ==> exists|i: int|
        0 <= i < pre.entities@.len() && is_live_player(#[trigger] pre.entities@[i])
            && post.entities@ == pre.entities@.push(
            player_laser_entity(pre.entities@[i], dir_x, dir_y),
        )
    &&& !(fire && pre.player.on) ==> post == pre
    &&& post.enemy_count == pre.enemy_count
    &&& post.player == pre.player
    &&& post.pending@ == pre.pending@
}

/// On an edge-detected fire input, spawn one laser from the live player
/// along the heading `(dir_x, dir_y)` (a unit vector in milli, already
/// resolved from the orientation). Without the input or without a live
/// player, nothing changes.
pub fn player_fire_system(w: &mut World, fire: bool, dir_x: i64, dir_y: i64)
    requires
        old(w).wf(),
        -1000 <= dir_x <= 1000,
        -1000 <= dir_y <= 1000,
    ensures
        player_fired(*old(w), *final(w), fire, dir_x, dir_y),
{
    if !fire {
        return ;
    }
    let n = w.entities.len();
    let mut i: usize = 0;
    while i < n
        invariant
            fire,
            n == w.entities@.len(),
            *w == *old(w),
            i <= n,
            -1000 <= dir_x <= 1000,
            -1000 <= dir_y <= 1000,
            old(w).wf(),
            forall|j: int| 0 <= j < i ==> !is_live_player(#[trigger] w.entities@[j]),
        decreases n - i,
    {
        let e = w.entities[i];
        if e.alive && e.tags.player {
            let laser = Entity {
                alive: true,
                tags: Tags {
                    player: false,
                    enemy: false,
                    laser: true,
                    from_player: true,
                    from_enemy: false,
                    explosion: false,
                },
                x: e.x,
                y: clamp_pos_i64(e.y + PLAYER_FIRE_LIFT),
                z: 0,
                scale: SPRITE_SCALE,
                rotation: e.orientation.theta,
                orientation: Orientation { theta: e.orientation.theta },
                vel: Velocity { x: PLAYER_LASER_SPEED * dir_x, y: PLAYER_LASER_SPEED * dir_y },
                movable: Some(Movable { auto_despawn: true }),
                size: SpriteSize { w: PLAYER_LASER_W, h: PLAYER_LASER_H },
                ..Entity::blank()
            };
            proof {
                assert(laser == player_laser_entity(e, dir_x, dir_y));
                // a live player record forces the state flag on
                lemma_census_pos(w.entities@, |en: Entity| is_live_player(en), i as int);
                lemma_census_push(w.entities@, |en: Entity| is_live_enemy(en), laser);
                lemma_census_push(w.entities@, |en: Entity| is_live_player(en), laser);
            }
            w.entities.push(laser);
            proof {
                // the player record at `i` witnesses the postcondition
                assert(is_live_player(old(w).entities@[i as int]));
            }
            return ;
        }
        i = i + 1;
    }
    proof {
        // no live player was found, so the census is zero and the state
        // flag must be off
        if w.player.on {
            lemma_census_nonzero_witness(w.entities@, |en: Entity| is_live_player(en));
        }
    }
}

/// True when the player's x-coordinate lies inside the enemy's firing
/// band (strictly below the upper edge, as a half-open interval).
pub open spec fn fires_at(e: Entity, p: Entity) -> bool {
    e.x - ENEMY_FIRE_BAND <= p.x < e.x + ENEMY_FIRE_BAND
}

/// The lasers one resolver pass of the enemy fire system emits, in store
/// order: one per live enemy whose band holds the player.
pub open spec fn enemy_fire_spawns(s: Seq<Entity>, p: Entity) -> Seq<Entity>
    decreases s.len(),
{
    if s.len() == 0 {
        Seq::empty()
    } else {
        enemy_fire_spawns(s.drop_last(), p) + (if is_live_enemy(s.last()) && fires_at(
            s.last(),
            p,
        ) {
            seq![enemy_laser_entity(s.last())]
        } else {
            Seq::empty()
        })
    }
}

/// Everything the enemy fire controller guarantees, from the state
/// before the call to the state after it.
pub open spec fn enemy_fired(pre: World, post: World, roll: bool) -> bool {
    &&& post.wf()
    &&& roll && pre.player.on ==> exists|pi: int|
        0 <= pi < pre.entities@.len() && is_live_player(#[trigger] pre.entities@[pi])
            && post.entities@ == pre.entities@ + enemy_fire_spawns(
            pre.entities@,
            pre.entities@[pi],
        )
    &&& !(roll && pre.player.on) ==> post == pre
    &&& post.enemy_count == pre.enemy_count
    &&& post.player == pre.player
    &&& post.pending@ == pre.pending@
}

/// For each live enemy, if the live player sits inside its firing band,
/// spawn one downward laser below the enemy. `roll` is the per-tick
/// firing gate the caller draws (a probability policy decided outside);
/// without it, or without a live player, nothing changes.
pub fn enemy_fire_system(w: &mut World, roll: bool)
    requires
        old(w).wf(),
    ensures
        enemy_fired(*old(w), *final(w), roll),
{
    if !roll {
        return ;
    }
    let n = w.entities.len();
    // locate the live player, if any
    let mut pi: usize = 0;
    let mut found: bool = false;
    while pi < n && !found
        invariant
            roll,
            n == w.entities@.len(),
            *w == *old(w),
            pi <= n,
            old(w).wf(),
            !found ==> forall|j: int| 0 <= j < pi ==> !is_live_player(#[trigger] w.entities@[j]),
            found ==> pi < n && is_live_player(w.entities@[pi as int]),
        decreases n - pi + (if found { 0int } else { 1int }),
    {
        let e = w.entities[pi];
        if e.alive && e.tags.player {
            found = true;
        } else {
            pi = pi + 1;
        }
    }
    if !found {
        proof {
            if w.player.on {
                lemma_census_nonzero_witness(w.entities@, |en: Entity| is_live_player(en));
            }
        }
        return ;
    }
    let p = w.entities[pi];
    proof {
        // a live player record forces the state flag on
        lemma_census_pos(w.entities@, |en: Entity| is_live_player(en), pi as int);
    }
    let ghost s0 = w.entities@;
    let mut i: usize = 0;
    while i < n
        invariant
            roll,
            n == s0.len(),
            s0 == old(w).entities@,
            i <= n,
            old(w).wf(),
            is_live_player(p),
            w.entities@ == s0 + enemy_fire_spawns(s0.take(i as int), p),
            w.enemy_count == old(w).enemy_count,
            w.enemy_count == w.enemy_census(),
            w.player == old(w).player,
            w.player.on ==> w.player_census() == 1,
            !w.player.on ==> w.player_census() == 0,
            w.pending@ == old(w).pending@,
            forall|j: int| 0 <= j < w.entities@.len() ==> (#[trigger] w.entities@[j]).wf(),
        decreases n - i,
    {
        proof {
            assert(s0.take(i + 1).drop_last() =~= s0.take(i as int));
            assert(s0.take(i + 1).last() == s0[i as int]);
        }
        let e = w.entities[i];
        proof {
            assert(w.entities@[i as int] == s0[i as int]);
        }
        if e.alive && e.tags.enemy && e.x - ENEMY_FIRE_BAND <= p.x && p.x < e.x
            + ENEMY_FIRE_BAND {
            let laser = Entity {
                alive: true,
                tags: Tags {
                    player: false,
                    enemy: false,
                    laser: true,
                    from_player: false,
                    from_enemy: true,
                    explosion: false,
                },
                x: e.x,
                y: clamp_pos_i64(e.y - ENEMY_FIRE_DROP),
                z: 0,
                scale: SPRITE_SCALE,
                vel: Velocity { x: 0, y: ENEMY_LASER_FALL },
                movable: Some(Movable { auto_despawn: true }),
                size: SpriteSize { w: ENEMY_LASER_W, h: ENEMY_LASER_H },
                ..Entity::blank()
            };
            proof {
                assert(laser == enemy_laser_entity(e));
                lemma_census_push(w.entities@, |en: Entity| is_live_enemy(en), laser);
                lemma_census_push(w.entities@, |en: Entity| is_live_player(en), laser);
            }
            w.entities.push(laser);
            proof {
                assert(w.entities@ =~= s0 + enemy_fire_spawns(s0.take(i + 1), p));
            }
        } else {
            proof {
                assert(w.entities@ =~= s0 + enemy_fire_spawns(s0.take(i + 1), p));
            }
        }
        i = i + 1;
    }
    proof {
        assert(s0.take(n as int) =~= s0);
        assert(is_live_player(old(w).entities@[pi as int]));
    }
}

} // verus!

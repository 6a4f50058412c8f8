//! Time-gated creation of enemies and of the player.
//!
//! Both spawners run on coarse fixed intervals driven off the simulation
//! clock (a [`Cadence`] accumulates elapsed time and reports each period
//! boundary). The enemy spawner is gated by a population cap, the player
//! spawner by the respawn cooldown recorded in
//! [`crate::components::PlayerState`].

use vstd::prelude::*;
use crate::components::{
    Entity, Movable, Orientation, PlayerState, SpriteSize, Tags, Velocity, WinSize, SPRITE_SCALE,
};
use crate::fixed::{POS_LIMIT, TIME_LIMIT_US};
use crate::world::{is_live_enemy, lemma_census_push, World};

verus! {

/// Interval between enemy spawn attempts, in microseconds (once per
/// second of simulated time).
pub const ENEMY_SPAWN_PERIOD_US: i64 = 1_000_000;

/// Interval between player spawn attempts, in microseconds (every half
/// second of simulated time).
pub const PLAYER_SPAWN_PERIOD_US: i64 = 500_000;

/// Cooldown between the player's death and the earliest respawn, in
/// microseconds (2 s).
pub const RESPAWN_DELAY_US: i64 = 2_000_000;

/// Full sprite size of the player archetype, in milli-units (98 by 75).
pub const PLAYER_W: i64 = 98_000;
pub const PLAYER_H: i64 = 75_000;

/// Full sprite size of the enemy archetype, in milli-units (93 by 84).
pub const ENEMY_W: i64 = 93_000;
pub const ENEMY_H: i64 = 84_000;

/// Vertical lift of the player spawn position above the bottom edge:
/// half the scaled player height plus a 5-unit pad, in milli-units.
pub const PLAYER_SPAWN_LIFT: i64 = 23_750;

/// A repeating interval: accumulates elapsed time and reports once per
/// crossed period boundary.
pub struct Cadence {
    pub acc_us: i64,
    pub period_us: i64,
}

impl Cadence {
    pub open spec fn wf(self) -> bool {
        0 < self.period_us <= TIME_LIMIT_US && 0 <= self.acc_us < self.period_us
    }

    /// A fresh interval with no accumulated time.
    pub fn new(period_us: i64) -> (c: Cadence)
        requires
            0 < period_us <= TIME_LIMIT_US,
        ensures
            c.wf(),
            c.period_us == period_us,
            c.acc_us == 0,
    {
        Cadence { acc_us: 0, period_us }
    }

    /// Add `delta_us` of elapsed time. Reports true when a period
    /// boundary was crossed; the remainder carries into the next period.
    pub fn advance(&mut self, delta_us: i64) -> (due: bool)
        requires
            old(self).wf(),
            0 <= delta_us <= TIME_LIMIT_US,
        ensures
            final(self).wf(),
            final(self).period_us == old(self).period_us,
            due == (old(self).acc_us + delta_us >= old(self).period_us),
            final(self).acc_us == (old(self).acc_us + delta_us) % (old(self).period_us as int),
    {
        let s: i64 = self.acc_us + delta_us;
        if s >= self.period_us {
            self.acc_us = s % self.period_us;
            true
        } else {
            proof {
                vstd::arithmetic::div_mod::lemma_small_mod(s as nat, self.period_us as nat);
            }
            self.acc_us = s;
            false
        }
    }
}

/// The enemy archetype at a spawn position: tagged, sized, scaled, on the
/// sprite render layer, not moved by the integrator.
pub open spec fn enemy_entity(x: i64, y: i64) -> Entity {
    Entity {
        alive: true,
        tags: Tags { enemy: true, ..Tags::none_spec() },
        x,
        y,
        z: 10_000,
        scale: SPRITE_SCALE,
        size: SpriteSize { w: ENEMY_W, h: ENEMY_H },
        ..Entity::blank_spec()
    }
}

/// The player archetype: at the bottom centre of the viewport, zero
/// velocity, default orientation, moved by the integrator but never
/// auto-despawned.
pub open spec fn player_entity(win: WinSize) -> Entity {
    Entity {
        alive: true,
        tags: Tags { player: true, ..Tags::none_spec() },
        x: 0,
        y: (-(win.h / 2) + PLAYER_SPAWN_LIFT) as i64,
        z: 10_000,
        scale: SPRITE_SCALE,
        size: SpriteSize { w: PLAYER_W, h: PLAYER_H },
        vel: Velocity { x: 0, y: 0 },
        orientation: Orientation { theta: 0 },
        movable: Some(Movable { auto_despawn: false }),
        ..Entity::blank_spec()
    }
}

/// Everything the enemy spawner guarantees, from the state before the
/// call to the state after it.
pub open spec fn enemy_spawned(pre: World, post: World, x: i64, y: i64, enemy_max: u32) -> bool {
    &&& post.wf()
    &&& pre.enemy_count < enemy_max ==> {
        &&& post.entities@ == pre.entities@.push(enemy_entity(x, y))
        &&& post.enemy_count == pre.enemy_count + 1
    }
    &&& pre.enemy_count >= enemy_max ==> post == pre
    &&& post.player == pre.player
    &&& post.pending@ == pre.pending@
}

/// If the live-enemy population is below `enemy_max`, create one enemy at
/// the chosen position (the caller picks it, randomly or fixed) and count
/// it; otherwise change nothing.
pub fn enemy_spawn_system(w: &mut World, x: i64, y: i64, enemy_max: u32)
    requires
        old(w).wf(),
        -POS_LIMIT <= x <= POS_LIMIT,
        -POS_LIMIT <= y <= POS_LIMIT,
        old(w).entities@.len() < u32::MAX as usize,
    ensures
        enemy_spawned(*old(w), *final(w), x, y, enemy_max),
{
    if w.enemy_count < enemy_max {
        let e = Entity {
            alive: true,
            tags: Tags {
                player: false,
                enemy: true,
                laser: false,
                from_player: false,
                from_enemy: false,
                explosion: false,
            },
            x,
            y,
            z: 10_000,
            scale: SPRITE_SCALE,
            size: SpriteSize { w: ENEMY_W, h: ENEMY_H },
            ..Entity::blank()
        };
        proof {
            assert(e == enemy_entity(x, y));
        }
        w.spawn(e);
    }
}

/// True when the spawner's cooldown gate is open: the player is not live,
/// and either it has never been shot or the respawn delay has fully
/// elapsed since the last death.
pub open spec fn respawn_due(p: PlayerState, now_us: int) -> bool {
    !p.on && (p.last_shot == -1 || now_us > p.last_shot + RESPAWN_DELAY_US)
}

/// Everything the player spawner guarantees, from the state before the
/// call to the state after it.
pub open spec fn player_spawned(pre: World, post: World, win: WinSize, now_us: i64) -> bool {
    &&& post.wf()
    &&& respawn_due(pre.player, now_us as int) ==> {
        &&& post.entities@ == pre.entities@.push(player_entity(win))
        &&& post.player == (PlayerState { on: true, last_shot: -1i64, score: 0 })
    }
    &&& !respawn_due(pre.player, now_us as int) ==> post == pre
    &&& post.enemy_count == pre.enemy_count
    &&& post.pending@ == pre.pending@
}

/// If the respawn gate is open, reset the score, create the player entity
/// at the bottom of the viewport and mark the state live; otherwise
/// change nothing. Runs on the coarse player-spawn cadence.
pub fn player_spawn_system(w: &mut World, win: &WinSize, now_us: i64)
    requires
        old(w).wf(),
        win.wf(),
        0 <= now_us <= TIME_LIMIT_US,
        old(w).entities@.len() < u32::MAX as usize,
    ensures
        player_spawned(*old(w), *final(w), *win, now_us),
{
    if !w.player.on && (w.player.last_shot == -1 || now_us > w.player.last_shot
        + RESPAWN_DELAY_US) {
        let half_h: i64 = win.h / 2;
        let e = Entity {
            alive: true,
            tags: Tags {
                player: true,
                enemy: false,
                laser: false,
                from_player: false,
                from_enemy: false,
                explosion: false,
            },
            x: 0,
            y: -half_h + PLAYER_SPAWN_LIFT,
            z: 10_000,
            scale: SPRITE_SCALE,
            size: SpriteSize { w: PLAYER_W, h: PLAYER_H },
            vel: Velocity { x: 0, y: 0 },
            orientation: Orientation { theta: 0 },
            movable: Some(Movable { auto_despawn: false }),
            ..Entity::blank()
        };
        proof {
            assert(e == player_entity(*win));
            lemma_census_push(w.entities@, |en: Entity| is_live_enemy(en), e);
            lemma_census_push(
                w.entities@,
                |en: Entity| crate::world::is_live_player(en),
                e,
            );
        }
        w.player.score = 0;
        w.entities.push(e);
        w.player.spawned();
    }
}

} // verus!

//! One fixed simulation step: the systems in their declared order.
//!
//! Each tick runs the spawn controllers (on their coarse cadences), the
//! input mapper, the movement integrator, the fire controllers, the three
//! collision passes, and the explosion lifecycle, sequentially on one
//! mutable world. The tick's contract states that pipeline itself: a
//! trace of intermediate worlds links the old state to the new one, each
//! consecutive pair related by the corresponding stage's guarantee. It
//! also preserves the store invariant, so at every tick boundary the
//! enemy counter equals the live-enemy census and at most one entity is
//! tagged as the player.

use vstd::prelude::*;
use crate::collision::{
    enemy_laser_hit_player_system, enemy_player_collision_system, lasers_resolved,
    player_laser_hit_enemy_system, player_rammed, player_struck,
};
use crate::components::WinSize;
use crate::explosion::{
    explosion_animation_system, explosion_to_spawn_system, explosions_animated,
    explosions_spawned,
};
use crate::fire::{enemy_fire_system, enemy_fired, player_fire_system, player_fired};
use crate::fixed::{POS_LIMIT, TIME_LIMIT_US};
use crate::input::{keyboard_mapped, player_keyboard_event_system, KeyState};
use crate::movement::{moved, movement_system, BASE_SPEED};
use crate::spawn::{
    enemy_spawn_system, enemy_spawned, player_spawn_system, player_spawned, Cadence,
    ENEMY_SPAWN_PERIOD_US, PLAYER_SPAWN_PERIOD_US,
};
use crate::world::World;

verus! {

/// Everything one tick consumes from outside the simulation: decoded
/// key state, the edge-detected fire signal, the firing heading already
/// resolved into a unit vector (milli per axis), the per-tick roll
/// gating enemy fire, and the position the enemy spawner would use.
#[derive(Clone, Copy, Debug, PartialEq, Eq, Structural)]
pub struct InputState {
    pub keys: KeyState,
    pub fire: bool,
    pub fire_dir_x: i64,
    pub fire_dir_y: i64,
    pub enemy_fire_roll: bool,
    pub enemy_spawn_x: i64,
    pub enemy_spawn_y: i64,
}

/// The two coarse spawn intervals, advanced once per tick.
pub struct Spawners {
    pub enemy: Cadence,
    pub player: Cadence,
}

impl Spawners {
    pub open spec fn wf(self) -> bool {
        &&& self.enemy.wf()
        &&& self.player.wf()
        &&& self.enemy.period_us == ENEMY_SPAWN_PERIOD_US
        &&& self.player.period_us == PLAYER_SPAWN_PERIOD_US
    }

    /// Fresh cadences for the enemy and player spawners.
    pub fn new() -> (s: Spawners)
        ensures
            s.wf(),
            s.enemy.acc_us == 0,
            s.player.acc_us == 0,
    {
        Spawners { enemy: Cadence::new(ENEMY_SPAWN_PERIOD_US), player: Cadence::new(PLAYER_SPAWN_PERIOD_US) }
    }
}

/// The whole per-tick pipeline as a chain of intermediate worlds:
/// `tr[0]` before the tick, then one entry after each stage, in the
/// declared order. Each consecutive pair is related by that stage's
/// guarantee; a spawner that is not due leaves its world untouched.
pub open spec fn tick_stages(
    tr: Seq<World>,
    sp0: Spawners,
    win: WinSize,
    input: InputState,
    now_us: i64,
    tick_us: i64,
    enemy_max: u32,
) -> bool {
    &&& tr.len() == 12
    &&& (if sp0.enemy.acc_us + tick_us >= ENEMY_SPAWN_PERIOD_US {
        enemy_spawned(tr[0], tr[1], input.enemy_spawn_x, input.enemy_spawn_y, enemy_max)
    } else {
        tr[1] == tr[0]
    })
    &&& (if sp0.player.acc_us + tick_us >= PLAYER_SPAWN_PERIOD_US {
        player_spawned(tr[1], tr[2], win, now_us)
    } else {
        tr[2] == tr[1]
    })
    &&& keyboard_mapped(tr[2], tr[3], input.keys)
    &&& moved(tr[3], tr[4], win, BASE_SPEED as int, tick_us as int)
    &&& player_fired(tr[4], tr[5], input.fire, input.fire_dir_x, input.fire_dir_y)
    &&& enemy_fired(tr[5], tr[6], input.enemy_fire_roll)
    &&& lasers_resolved(tr[6], tr[7])
    &&& player_struck(tr[7], tr[8], now_us)
    &&& player_rammed(tr[8], tr[9], now_us)
    &&& explosions_spawned(tr[9], tr[10])
    &&& explosions_animated(tr[10], tr[11], tick_us as int)
}

/// Advance the simulation by one fixed step of `tick_us` microseconds,
/// ending at clock time `now_us`: spawners, input mapping, movement,
/// firing, the three collision passes, then the explosion lifecycle,
/// exactly as [`tick_stages`] chains them. The store invariant holds
/// again at the tick boundary, so the enemy counter matches the
/// live-enemy census and at most one player entity is live.
pub fn tick(
    w: &mut World,
    sp: &mut Spawners,
    win: &WinSize,
    input: InputState,
    now_us: i64,
    tick_us: i64,
    enemy_max: u32,
)
    requires
        old(w).wf(),
        old(sp).wf(),
        win.wf(),
        0 < tick_us <= 1_000_000,
        0 <= now_us <= TIME_LIMIT_US,
        -POS_LIMIT <= input.enemy_spawn_x <= POS_LIMIT,
        -POS_LIMIT <= input.enemy_spawn_y <= POS_LIMIT,
        -1000 <= input.fire_dir_x <= 1000,
        -1000 <= input.fire_dir_y <= 1000,
        // room for this tick's spawns and kills
        old(w).entities@.len() + 2 < u32::MAX as usize,
        old(w).player.score + old(w).enemy_count + 1 <= u32::MAX,
    ensures
        final(w).wf(),
        final(sp).wf(),
        // the tick-boundary invariants of the design, restated
        final(w).enemy_count == final(w).enemy_census(),
        final(w).player_census() <= 1,
        // every pending explosion event was consumed this tick
        final(w).pending@.len() == 0,
        // both cadences advanced by exactly this step
        final(sp).enemy.acc_us == (old(sp).enemy.acc_us + tick_us) % (
        ENEMY_SPAWN_PERIOD_US as int),
        final(sp).player.acc_us == (old(sp).player.acc_us + tick_us) % (
        PLAYER_SPAWN_PERIOD_US as int),
        // destruction only clears flags: the store never shrinks
        final(w).entities@.len() >= old(w).entities@.len(),
        // a due enemy-spawn interval under the cap grows the store
        (old(sp).enemy.acc_us + tick_us >= ENEMY_SPAWN_PERIOD_US && old(w).enemy_count
            < enemy_max) ==> final(w).entities@.len() > old(w).entities@.len(),
        // the death timestamp is kept, cleared by a respawn, or set to now
        final(w).player.last_shot == old(w).player.last_shot || final(w).player.last_shot == -1
            || final(w).player.last_shot == now_us,
        // the tick is exactly the staged pipeline: some trace of
        // intermediate worlds links the old state to the new one through
        // every stage's guarantee, in order
        exists|tr: Seq<World>|
            tr.len() == 12 && tr[0] == *old(w) && tr[11] == *final(w) && #[trigger] tick_stages(
                tr,
                *old(sp),
                *win,
                input,
                now_us,
                tick_us,
                enemy_max,
            ),
{
    let ghost t0 = *w;
    let enemy_due = sp.enemy.advance(tick_us);
    if enemy_due {
        enemy_spawn_system(w, input.enemy_spawn_x, input.enemy_spawn_y, enemy_max);
    }
    let ghost t1 = *w;
    let player_due = sp.player.advance(tick_us);
    if player_due {
        player_spawn_system(w, win, now_us);
    }
    let ghost t2 = *w;
    player_keyboard_event_system(w, input.keys);
    let ghost t3 = *w;
    movement_system(w, win, BASE_SPEED, tick_us);
    let ghost t4 = *w;
    player_fire_system(w, input.fire, input.fire_dir_x, input.fire_dir_y);
    let ghost t5 = *w;
    enemy_fire_system(w, input.enemy_fire_roll);
    let ghost t6 = *w;
    player_laser_hit_enemy_system(w);
    let ghost t7 = *w;
    enemy_laser_hit_player_system(w, now_us);
    let ghost t8 = *w;
    enemy_player_collision_system(w, now_us);
    let ghost t9 = *w;
    explosion_to_spawn_system(w);
    let ghost t10 = *w;
    explosion_animation_system(w, tick_us);
    proof {
        w.lemma_enemy_count_matches();
        w.lemma_at_most_one_player();
        // the recorded snapshots are one trace of the staged pipeline
        let tr = seq![t0, t1, t2, t3, t4, t5, t6, t7, t8, t9, t10, *w];
        assert(tick_stages(tr, *old(sp), *win, input, now_us, tick_us, enemy_max));
    }
}

} // verus!

//! The movement integrator and the out-of-bounds cull.
//!
//! Each fixed tick, every live movable entity advances by
//! `velocity * speed * tick` (exact fixed-point arithmetic, clamped into
//! the coordinate range) and snaps its sprite rotation to its orientation.
//! An entity marked `auto_despawn` is destroyed when its *new* position
//! lies outside the visible bounds plus a fixed margin on any side.

use vstd::prelude::*;
use crate::components::{Entity, WinSize};
use crate::fixed::{clamp_pos, clamp_pos_i64, scaled_step, step_delta, POS_LIMIT};
use crate::world::{is_live_enemy, is_live_player, lemma_census_pos, lemma_census_update, World};

verus! {

/// Margin outside the visible bounds, in milli-units, beyond which
/// auto-despawning entities are destroyed (200 units, symmetric on all
/// four sides).
pub const DESPAWN_MARGIN: i64 = 200_000;

/// Global speed constant: world units per second applied to every
/// velocity at integration time.
pub const BASE_SPEED: i64 = 500;

/// Nominal fixed tick of the simulation, in microseconds (1/60 s).
pub const TICK_US: i64 = 16_667;

/// A position beyond the visible bounds plus the despawn margin on some
/// side. The bounds are centred on the origin.
pub open spec fn out_of_bounds(x: int, y: int, win: WinSize) -> bool {
    ||| y > win.h / 2 + DESPAWN_MARGIN
    ||| y < -(win.h / 2) - DESPAWN_MARGIN
    ||| x > win.w / 2 + DESPAWN_MARGIN
    ||| x < -(win.w / 2) - DESPAWN_MARGIN
}

/// What one integration step does to one record: live movable entities
/// advance and snap their rotation, and die when auto-despawn applies at
/// the new position; everything else is untouched.
pub open spec fn integrated(e: Entity, win: WinSize, speed: int, tick_us: int) -> Entity {
    if e.alive && e.is_movable() {
        let nx = clamp_pos(e.x + step_delta(e.vel.x as int, speed, tick_us));
        let ny = clamp_pos(e.y + step_delta(e.vel.y as int, speed, tick_us));
        let gone = e.despawns() && out_of_bounds(nx, ny, win);
        Entity {
            x: nx as i64,
            y: ny as i64,
            rotation: e.orientation.theta,
            alive: !gone,
            ..e
        }
    } else {
        e
    }
}

/// Decide `out_of_bounds` at an in-range position.
pub fn is_out_of_bounds(x: i64, y: i64, win: &WinSize) -> (r: bool)
    requires
        win.wf(),
        -POS_LIMIT - 1_000_000_000_000 <= x <= POS_LIMIT + 1_000_000_000_000,
        -POS_LIMIT - 1_000_000_000_000 <= y <= POS_LIMIT + 1_000_000_000_000,
    ensures
        r == out_of_bounds(x as int, y as int, *win),
{
    let half_w: i64 = win.w / 2;
    let half_h: i64 = win.h / 2;
    y > half_h + DESPAWN_MARGIN || y < -half_h - DESPAWN_MARGIN || x > half_w + DESPAWN_MARGIN
        || x < -half_w - DESPAWN_MARGIN
}

/// Everything the integrator guarantees, from the state before the call
/// to the state after it.
pub open spec fn moved(pre: World, post: World, win: WinSize, speed: int, tick_us: int) -> bool {
    &&& post.wf()
    &&& post.entities@.len() == pre.entities@.len()
    &&& forall|j: int|
        0 <= j < pre.entities@.len() ==> post.entities@[j] == integrated(
            #[trigger] pre.entities@[j],
            win,
            speed,
            tick_us,
        )
    &&& post.enemy_count <= pre.enemy_count
    &&& post.player == pre.player
    &&& post.pending@ == pre.pending@
}

/// Advance every live movable entity one tick and destroy the
/// auto-despawning ones that left the bounds, keeping the enemy counter
/// and the player record in sync.
pub fn movement_system(w: &mut World, win: &WinSize, speed: i64, tick_us: i64)
    requires
        old(w).wf(),
        win.wf(),
        0 <= speed <= 100_000,
        0 < tick_us <= 10_000_000,
    ensures
        moved(*old(w), *final(w), *win, speed as int, tick_us as int),
{
    let n = w.entities.len();
    let mut i: usize = 0;
    while i < n
        invariant
            n == w.entities@.len(),
            n == old(w).entities@.len(),
            i <= n,
            win.wf(),
            w.enemy_count <= old(w).enemy_count,
            0 <= speed <= 100_000,
            0 < tick_us <= 10_000_000,
            forall|j: int|
                0 <= j < i ==> w.entities@[j] == integrated(
                    #[trigger] old(w).entities@[j],
                    *win,
                    speed as int,
                    tick_us as int,
                ),
            forall|j: int| i <= j < n ==> w.entities@[j] == old(w).entities@[j],
            forall|j: int| 0 <= j < n ==> (#[trigger] w.entities@[j]).wf(),
            w.enemy_count == w.enemy_census(),
            w.player.on ==> w.player_census() == 1,
            !w.player.on ==> w.player_census() == 0,
            w.player == old(w).player,
            w.pending@ == old(w).pending@,
        decreases n - i,
    {
        let e = w.entities[i];
        if e.alive && e.movable.is_some() {
            let dx = scaled_step(e.vel.x, speed, tick_us);
            let dy = scaled_step(e.vel.y, speed, tick_us);
            let nx = clamp_pos_i64(e.x + dx);
            let ny = clamp_pos_i64(e.y + dy);
            let auto = match e.movable {
                Some(m) => m.auto_despawn,
                None => false,
            };
            let gone = auto && is_out_of_bounds(nx, ny, win);
            let ne = Entity {
                x: nx,
                y: ny,
                rotation: e.orientation.theta,
                alive: !gone,
                ..e
            };
            proof {
                lemma_census_update(
                    w.entities@,
                    |en: Entity| is_live_enemy(en),
                    i as int,
                    ne,
                );
                lemma_census_update(
                    w.entities@,
                    |en: Entity| is_live_player(en),
                    i as int,
                    ne,
                );
                // the player never auto-despawns, so the player census is
                // untouched by this write
                assert(is_live_player(ne) == is_live_player(e));
            }
            if e.tags.enemy && gone {
                proof {
                    lemma_census_pos(w.entities@, |en: Entity| is_live_enemy(en), i as int);
                }
                w.enemy_count = w.enemy_count - 1;
            }
            w.entities[i] = ne;
        }
        i = i + 1;
    }
}

/// What the standalone cull does to one record: any live entity other
/// than the player that already sits outside the bounds is destroyed.
pub open spec fn culled(e: Entity, win: WinSize) -> Entity {
    if e.alive && !e.tags.player && out_of_bounds(e.x as int, e.y as int, win) {
        Entity { alive: false, ..e }
    } else {
        e
    }
}

/// Everything the cull guarantees, from the state before the call to
/// the state after it.
pub open spec fn culled_all(pre: World, post: World, win: WinSize) -> bool {
    &&& post.wf()
    &&& post.entities@.len() == pre.entities@.len()
    &&& forall|j: int|
        0 <= j < pre.entities@.len() ==> post.entities@[j] == culled(
            #[trigger] pre.entities@[j],
            win,
        )
    &&& post.enemy_count <= pre.enemy_count
    &&& post.player == pre.player
    &&& post.pending@ == pre.pending@
}

/// Destroy every live non-player entity whose current position lies
/// outside the visible bounds plus the margin. The physics variant runs
/// this instead of the integrator's built-in check, because there the
/// engine moves the bodies.
pub fn despawn_system(w: &mut World, win: &WinSize)
    requires
        old(w).wf(),
        win.wf(),
    ensures
        culled_all(*old(w), *final(w), *win),
{
    let n = w.entities.len();
    let mut i: usize = 0;
    while i < n
        invariant
            n == w.entities@.len(),
            n == old(w).entities@.len(),
            i <= n,
            win.wf(),
            w.enemy_count <= old(w).enemy_count,
            forall|j: int|
                0 <= j < i ==> w.entities@[j] == culled(#[trigger] old(w).entities@[j], *win),
            forall|j: int| i <= j < n ==> w.entities@[j] == old(w).entities@[j],
            forall|j: int| 0 <= j < n ==> (#[trigger] w.entities@[j]).wf(),
            w.enemy_count == w.enemy_census(),
            w.player.on ==> w.player_census() == 1,
            !w.player.on ==> w.player_census() == 0,
            w.player == old(w).player,
            w.pending@ == old(w).pending@,
        decreases n - i,
    {
        let e = w.entities[i];
        if e.alive && !e.tags.player && is_out_of_bounds(e.x, e.y, win) {
            let ne = Entity { alive: false, ..e };
            proof {
                lemma_census_update(
                    w.entities@,
                    |en: Entity| is_live_enemy(en),
                    i as int,
                    ne,
                );
                lemma_census_update(
                    w.entities@,
                    |en: Entity| is_live_player(en),
                    i as int,
                    ne,
                );
            }
            if e.tags.enemy {
                proof {
                    lemma_census_pos(w.entities@, |en: Entity| is_live_enemy(en), i as int);
                }
                w.enemy_count = w.enemy_count - 1;
            }
            w.entities[i] = ne;
        }
        i = i + 1;
    }
}

} // verus!

//! The explosion lifecycle: events become animated, self-expiring entities.
//!
//! Two steps run every tick. First, every pending explosion event is
//! consumed: a fresh explosion entity appears at the event's position with
//! a repeating timer and animation frame zero, and the queue empties, so
//! no event survives the tick it was created in. Second, every live
//! explosion entity advances its timer by the tick's elapsed time; each
//! completed interval advances the animation frame, and the entity is
//! destroyed the moment the frame index reaches the sprite-sheet length.

use vstd::prelude::*;
use crate::components::{
    Entity, ExplosionTimer, ExplosionToSpawn, SpriteSize, Tags, EXPLOSION_FRAMES,
    EXPLOSION_PERIOD_US,
};
use crate::fixed::{clamp_pos, clamp_pos_i64, TIME_LIMIT_US};
use crate::world::{is_live_enemy, is_live_player, lemma_census_push, lemma_census_update, World};

verus! {

/// The explosion archetype at an event's position: tagged, on the sprite
/// render layer, unscaled, with a fresh timer and frame zero. Explosions
/// carry no bounding box; the collision passes never query them.
pub open spec fn explosion_entity(ev: ExplosionToSpawn) -> Entity {
    Entity {
        alive: true,
        tags: Tags { explosion: true, ..Tags::none_spec() },
        x: clamp_pos(ev.x as int) as i64,
        y: clamp_pos(ev.y as int) as i64,
        z: 10_000,
        scale: 1000,
        size: SpriteSize { w: 0, h: 0 },
        frame: 0,
        timer: ExplosionTimer { elapsed_us: 0 },
        ..Entity::blank_spec()
    }
}

/// Turn every pending explosion event into a fresh explosion entity, in
/// queue order, and empty the queue.
/// Everything the event consumer guarantees, from the state before the
/// call to the state after it.
pub open spec fn explosions_spawned(pre: World, post: World) -> bool {
    &&& post.wf()
    &&& post.entities@ == pre.entities@ + pre.pending@.map_values(
        |ev: ExplosionToSpawn| explosion_entity(ev),
    )
    &&& post.pending@.len() == 0
    &&& post.enemy_count == pre.enemy_count
    &&& post.player == pre.player
}

pub fn explosion_to_spawn_system(w: &mut World)
    requires
        old(w).wf(),
    ensures
        explosions_spawned(*old(w), *final(w)),
{
    let m = w.pending.len();
    let ghost q = w.pending@;
    let ghost s0 = w.entities@;
    let mut k: usize = 0;
    while k < m
        invariant
            m == q.len(),
            q == old(w).pending@,
            s0 == old(w).entities@,
            w.pending@ == q,
            k <= m,
            old(w).wf(),
            w.entities@ == s0 + q.take(k as int).map_values(
                |ev: ExplosionToSpawn| explosion_entity(ev),
            ),
            w.enemy_count == old(w).enemy_count,
            w.enemy_count == w.enemy_census(),
            w.player == old(w).player,
            w.player.on ==> w.player_census() == 1,
            !w.player.on ==> w.player_census() == 0,
            forall|j: int| 0 <= j < w.entities@.len() ==> (#[trigger] w.entities@[j]).wf(),
        decreases m - k,
    {
        let ev = w.pending[k];
        let e = Entity {
            alive: true,
            tags: Tags {
                player: false,
                enemy: false,
                laser: false,
                from_player: false,
                from_enemy: false,
                explosion: true,
            },
            x: clamp_pos_i64(ev.x),
            y: clamp_pos_i64(ev.y),
            z: 10_000,
            scale: 1000,
            size: SpriteSize { w: 0, h: 0 },
            frame: 0,
            timer: ExplosionTimer { elapsed_us: 0 },
            ..Entity::blank()
        };
        proof {
            assert(e == explosion_entity(ev));
            lemma_census_push(w.entities@, |en: Entity| is_live_enemy(en), e);
            lemma_census_push(w.entities@, |en: Entity| is_live_player(en), e);
        }
        w.entities.push(e);
        proof {
            assert(w.entities@ =~= s0 + q.take(k + 1).map_values(
                |ev2: ExplosionToSpawn| explosion_entity(ev2),
            ));
        }
        k = k + 1;
    }
    w.pending.clear();
    proof {
        assert(q.take(m as int) =~= q);
    }
}

/// What one animation step does to one record: a live explosion adds the
/// elapsed time to its timer; the frame advances once per completed
/// interval (capped at the sheet length), the remainder carries over,
/// and the entity dies the moment the frame index reaches the sheet
/// length. Everything else is untouched.
pub open spec fn stepped_explosion(e: Entity, delta_us: int) -> Entity {
    if e.alive && e.tags.explosion {
        let t = e.timer.elapsed_us + delta_us;
        let completions = t / (EXPLOSION_PERIOD_US as int);
        if completions >= 1 {
            let nf = if e.frame + completions >= EXPLOSION_FRAMES {
                EXPLOSION_FRAMES as int
            } else {
                e.frame + completions
            };
            Entity {
                frame: nf as u32,
                timer: ExplosionTimer { elapsed_us: (t % (EXPLOSION_PERIOD_US as int)) as i64 },
                alive: nf < EXPLOSION_FRAMES,
                ..e
            }
        } else {
            Entity { timer: ExplosionTimer { elapsed_us: t as i64 }, ..e }
        }
    } else {
        e
    }
}

/// Advance every live explosion entity's timer by the tick's elapsed
/// time, advancing frames and destroying expired explosions.
/// Everything the animation step guarantees, from the state before the
/// call to the state after it.
pub open spec fn explosions_animated(pre: World, post: World, delta_us: int) -> bool {
    &&& post.wf()
    &&& post.entities@.len() == pre.entities@.len()
    &&& forall|j: int|
        0 <= j < pre.entities@.len() ==> post.entities@[j] == stepped_explosion(
            #[trigger] pre.entities@[j],
            delta_us,
        )
    &&& post.enemy_count == pre.enemy_count
    &&& post.player == pre.player
    &&& post.pending@ == pre.pending@
}

pub fn explosion_animation_system(w: &mut World, delta_us: i64)
    requires
        old(w).wf(),
        0 <= delta_us <= TIME_LIMIT_US,
    ensures
        explosions_animated(*old(w), *final(w), delta_us as int),
{
    let n = w.entities.len();
    let mut i: usize = 0;
    while i < n
        invariant
            n == w.entities@.len(),
            n == old(w).entities@.len(),
            i <= n,
            0 <= delta_us <= TIME_LIMIT_US,
            forall|j: int|
                0 <= j < i ==> w.entities@[j] == stepped_explosion(
                    #[trigger] old(w).entities@[j],
                    delta_us as int,
                ),
            forall|j: int| i <= j < n ==> w.entities@[j] == old(w).entities@[j],
            forall|j: int| 0 <= j < n ==> (#[trigger] w.entities@[j]).wf(),
            w.enemy_count == old(w).enemy_count,
            w.enemy_count == w.enemy_census(),
            w.player == old(w).player,
            w.player.on ==> w.player_census() == 1,
            !w.player.on ==> w.player_census() == 0,
            w.pending@ == old(w).pending@,
        decreases n - i,
    {
        let e = w.entities[i];
        if e.alive && e.tags.explosion {
            let t: i64 = e.timer.elapsed_us + delta_us;
            let completions: i64 = t / EXPLOSION_PERIOD_US;
            let ne: Entity;
            if completions >= 1 {
                let nf: u32 = if e.frame as i64 + completions >= EXPLOSION_FRAMES as i64 {
                    EXPLOSION_FRAMES
                } else {
                    e.frame + completions as u32
                };
                ne = Entity {
                    frame: nf,
                    timer: ExplosionTimer { elapsed_us: t % EXPLOSION_PERIOD_US },
                    alive: nf < EXPLOSION_FRAMES,
                    ..e
                };
            } else {
                ne = Entity { timer: ExplosionTimer { elapsed_us: t }, ..e };
            }
            proof {
                assert(ne == stepped_explosion(e, delta_us as int));
                lemma_census_update(w.entities@, |en: Entity| is_live_enemy(en), i as int, ne);
                lemma_census_update(w.entities@, |en: Entity| is_live_player(en), i as int, ne);
            }
            w.entities[i] = ne;
        }
        i = i + 1;
    }
}

/// Total of a sequence of per-step elapsed times.
pub open spec fn total_us(ds: Seq<i64>) -> int
    decreases ds.len(),
{
    if ds.len() == 0 {
        0
    } else {
        total_us(ds.drop_last()) + ds.last()
    }
}

/// The record after stepping the animation once per entry of `ds`, in
/// order.
pub open spec fn stepped_many(e: Entity, ds: Seq<i64>) -> Entity
    decreases ds.len(),
{
    if ds.len() == 0 {
        e
    } else {
        stepped_explosion(stepped_many(e, ds.drop_last()), ds.last() as int)
    }
}

/// Lifecycle of an explosion entity: created fresh (frame zero, timer
/// empty) and stepped by ticks each shorter than the timer period, it
/// stays alive exactly as long as the total elapsed time is below the
/// sheet length times the period — sixteen interval completions, 0.8
/// simulated seconds — and while alive its frame index equals the number
/// of completed intervals. It is destroyed by the sixteenth completion
/// and never earlier.
pub proof fn lemma_explosion_lifecycle(e: Entity, ds: Seq<i64>)
    requires
        e.alive,
        e.tags.explosion,
        e.frame == 0,
        e.timer.elapsed_us == 0,
        forall|k: int| 0 <= k < ds.len() ==> 0 <= #[trigger] ds[k] < EXPLOSION_PERIOD_US,
    ensures
        stepped_many(e, ds).tags == e.tags,
        stepped_many(e, ds).alive <==> total_us(ds) < EXPLOSION_FRAMES
            * EXPLOSION_PERIOD_US,
        stepped_many(e, ds).alive ==> {
            &&& stepped_many(e, ds).frame == total_us(ds) / (EXPLOSION_PERIOD_US as int)
            &&& stepped_many(e, ds).timer.elapsed_us == total_us(ds) % (
            EXPLOSION_PERIOD_US as int)
        },
        !stepped_many(e, ds).alive ==> stepped_many(e, ds).frame == EXPLOSION_FRAMES,
    decreases ds.len(),
{
    let p = EXPLOSION_PERIOD_US as int;
    if ds.len() == 0 {
        assert(total_us(ds) == 0);
        vstd::arithmetic::div_mod::lemma_basic_div(0, p);
        vstd::arithmetic::div_mod::lemma_small_mod(0nat, p as nat);
    } else {
        let ds0 = ds.drop_last();
        let d = ds.last() as int;
        let r0 = stepped_many(e, ds0);
        let t0 = total_us(ds0);
        let t = total_us(ds);
        lemma_explosion_lifecycle(e, ds0);
        assert(forall|k: int| 0 <= k < ds0.len() ==> 0 <= #[trigger] ds0[k] < EXPLOSION_PERIOD_US);
        assert(0 <= d < p);
        lemma_total_nonneg(ds0);
        if r0.alive {
            let q0 = t0 / p;
            let m0 = t0 % p;
            vstd::arithmetic::div_mod::lemma_fundamental_div_mod(t0, p);
            vstd::arithmetic::div_mod::lemma_mod_pos_bound(t0, p);
            vstd::arithmetic::div_mod::lemma_div_pos_is_pos(t0, p);
            if m0 + d >= p {
                // one interval completes this step
                assert(t == p * (q0 + 1) + (m0 + d - p));
                vstd::arithmetic::div_mod::lemma_fundamental_div_mod_converse(
                    t,
                    p,
                    q0 + 1,
                    m0 + d - p,
                );
                assert(t / p == q0 + 1 && t % p == m0 + d - p);
                if q0 + 1 < EXPLOSION_FRAMES {
                    assert(t < EXPLOSION_FRAMES * p) by (nonlinear_arith)
                        requires
                            t == p * (q0 + 1) + (m0 + d - p),
                            0 <= m0 + d - p < p,
                            q0 + 1 < EXPLOSION_FRAMES,
                            p > 0,
                    ;
                } else {
                    assert(t >= EXPLOSION_FRAMES * p) by (nonlinear_arith)
                        requires
                            t == p * (q0 + 1) + (m0 + d - p),
                            0 <= m0 + d - p,
                            q0 + 1 >= EXPLOSION_FRAMES,
                            p > 0,
                    ;
                }
            } else {
                // no completion: only the timer advances
                assert(t == p * q0 + (m0 + d));
                vstd::arithmetic::div_mod::lemma_fundamental_div_mod_converse(
                    t,
                    p,
                    q0,
                    m0 + d,
                );
                assert(t / p == q0 && t % p == m0 + d);
                assert(t < EXPLOSION_FRAMES * p) by (nonlinear_arith)
                    requires
                        t == p * q0 + (m0 + d),
                        0 <= m0 + d < p,
                        q0 < EXPLOSION_FRAMES,
                        p > 0,
                ;
            }
        } else {
            // a dead explosion stays dead and keeps its final frame
            assert(t0 >= EXPLOSION_FRAMES * p);
            assert(t >= EXPLOSION_FRAMES * p);
        }
    }
}

/// A sequence of non-negative elapsed times has a non-negative total.
pub proof fn lemma_total_nonneg(ds: Seq<i64>)
    requires
        forall|k: int| 0 <= k < ds.len() ==> 0 <= #[trigger] ds[k],
    ensures
        total_us(ds) >= 0,
    decreases ds.len(),
{
    if ds.len() > 0 {
        lemma_total_nonneg(ds.drop_last());
    }
}

} // verus!

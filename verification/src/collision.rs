//! The collision resolver: pairwise bounding-box passes between entity
//! categories.
//!
//! Three independent passes run each tick: player lasers against enemies,
//! enemy lasers against the player, and enemies against the player
//! directly. Destruction within a pass only clears liveness flags, and a
//! record seen dead is skipped by every later pair, so no projectile or
//! enemy is resolved twice in one tick and destroying an already
//! destroyed entity is a no-op. Iteration order across pairs is left
//! unspecified by the contracts, as the design allows.

use vstd::prelude::*;
use crate::collide::{collide, hits};
use crate::components::{Entity, ExplosionToSpawn, PlayerState};
use crate::fixed::TIME_LIMIT_US;
use crate::world::{
    census, is_live_enemy, is_live_player, lemma_census_nonzero_witness, lemma_census_pos,
    lemma_census_strict, lemma_census_two, lemma_census_update, World,
};

verus! {

/// A live projectile fired by the player.
pub open spec fn is_fp_laser(e: Entity) -> bool {
    e.alive && e.tags.laser && e.tags.from_player
}

/// A live projectile fired by an enemy.
pub open spec fn is_fe_laser(e: Entity) -> bool {
    e.alive && e.tags.laser && e.tags.from_enemy
}

/// The record with its liveness flag cleared and every other field kept.
pub open spec fn downed(e: Entity) -> Entity {
    Entity { alive: false, ..e }
}

/// The explosion event a destroyed entity leaves at its position.
pub open spec fn ev_at(e: Entity) -> ExplosionToSpawn {
    ExplosionToSpawn { x: e.x, y: e.y }
}

/// Number of live player projectiles in the store.
pub open spec fn fp_census(s: Seq<Entity>) -> nat {
    census(s, |e: Entity| is_fp_laser(e))
}

/// The event's position is that of a live enemy of the start state that
/// the pass destroyed: dead in `s1`, at the same index.
pub open spec fn enemy_event(s0: Seq<Entity>, s1: Seq<Entity>, ev: ExplosionToSpawn) -> bool {
    exists|j: int|
        0 <= j < s0.len() && j < s1.len() && is_live_enemy(#[trigger] s0[j]) && !s1[j].alive
            && ev == ev_at(s0[j])
}

/// An event witnessed by a destroyed enemy stays witnessed once further
/// records fall: death is permanent within a pass.
proof fn lemma_enemy_event_monotone(
    s0: Seq<Entity>,
    s1a: Seq<Entity>,
    s1b: Seq<Entity>,
    ev: ExplosionToSpawn,
)
    requires
        enemy_event(s0, s1a, ev),
        s1b.len() == s1a.len(),
        forall|j: int| 0 <= j < s1a.len() && !(#[trigger] s1a[j]).alive ==> !s1b[j].alive,
    ensures
        enemy_event(s0, s1b, ev),
{
    let j = choose|j: int|
        0 <= j < s0.len() && j < s1a.len() && is_live_enemy(#[trigger] s0[j]) && !s1a[j].alive
            && ev == ev_at(s0[j]);
    assert(!s1b[j].alive);
}

/// `s1` is `s0` with some records' liveness flags cleared and nothing
/// else changed.
pub open spec fn only_downs(s0: Seq<Entity>, s1: Seq<Entity>) -> bool {
    &&& s1.len() == s0.len()
    &&& forall|j: int|
        #![auto]
        0 <= j < s0.len() ==> s1[j] == s0[j] || s1[j] == downed(s0[j])
}

/// No live player projectile overlaps a live enemy anywhere in the store.
pub open spec fn no_fp_enemy_overlap(s: Seq<Entity>) -> bool {
    forall|a: int, b: int|
        0 <= a < s.len() && 0 <= b < s.len() && is_fp_laser(s[a]) && is_live_enemy(s[b])
            ==> !(#[trigger] hits(s[a], s[b]))
}

/// Resolve player projectiles against enemies. On each overlap of a live
/// projectile and a live enemy, both are destroyed, the enemy counter
/// falls, the score rises by one, and one explosion event is emitted at
/// the enemy's position. Per destroyed projectile exactly one enemy is
/// destroyed and conversely; an entity destroyed earlier in the pass is
/// skipped by every later pair. When the pass ends, no live player
/// projectile overlaps a live enemy; and if none did to begin with, the
/// pass changes nothing at all.
/// Everything the projectile-enemy pass guarantees, from the state
/// before the call to the state after it.
pub open spec fn lasers_resolved(pre: World, post: World) -> bool {
    &&& post.wf()
    &&& only_downs(pre.entities@, post.entities@)
    // only player projectiles and live enemies are touched, and a
    // touched record overlapped a live counterpart of the start state
    &&& forall|j: int|
        #![auto]
        0 <= j < pre.entities@.len() && post.entities@[j] != pre.entities@[j]
            ==> is_fp_laser(pre.entities@[j]) || is_live_enemy(pre.entities@[j])
    &&& forall|j: int|
        #![auto]
        0 <= j < pre.entities@.len() && post.entities@[j] != pre.entities@[j]
            && is_live_enemy(pre.entities@[j]) ==> exists|l: int|
            0 <= l < pre.entities@.len() && is_fp_laser(pre.entities@[l]) && #[trigger] hits(
                pre.entities@[l],
                pre.entities@[j],
            )
    &&& forall|j: int|
        #![auto]
        0 <= j < pre.entities@.len() && post.entities@[j] != pre.entities@[j]
            && is_fp_laser(pre.entities@[j]) ==> exists|b: int|
            0 <= b < pre.entities@.len() && is_live_enemy(pre.entities@[b]) && #[trigger] hits(
                pre.entities@[j],
                pre.entities@[b],
            )
    // projectiles and enemies are destroyed in pairs
    &&& pre.enemy_count - post.enemy_count == fp_census(pre.entities@) - fp_census(
        post.entities@,
    )
    // one point per destroyed enemy
    &&& post.player == (PlayerState {
        score: (pre.player.score + pre.enemy_count - post.enemy_count) as u32,
        ..pre.player
    })
    // one explosion event per destroyed enemy, at a destroyed enemy's
    // position, appended to the queue
    &&& post.pending@.len() == pre.pending@.len() + pre.enemy_count - post.enemy_count
    &&& forall|k: int|
        0 <= k < pre.pending@.len() ==> post.pending@[k] == #[trigger] pre.pending@[k]
    &&& forall|k: int|
        pre.pending@.len() <= k < post.pending@.len() ==> enemy_event(
            pre.entities@,
            post.entities@,
            #[trigger] post.pending@[k],
        )
    // afterwards no live player projectile overlaps a live enemy
    &&& no_fp_enemy_overlap(post.entities@)
    // a pass over a store without overlapping pairs changes nothing
    &&& no_fp_enemy_overlap(pre.entities@) ==> {
        &&& post.entities@ == pre.entities@
        &&& post.enemy_count == pre.enemy_count
        &&& post.player == pre.player
        &&& post.pending@ == pre.pending@
    }
    // a lone overlapping projectile-enemy pair is fully resolved:
    // both destroyed, exactly one point, exactly one explosion event
    &&& (pre.enemy_count == 1 && fp_census(pre.entities@) == 1 && !no_fp_enemy_overlap(
        pre.entities@,
    )) ==> {
        &&& post.enemy_count == 0
        &&& fp_census(post.entities@) == 0
        &&& post.player.score == pre.player.score + 1
        &&& post.pending@.len() == pre.pending@.len() + 1
    }
}

pub fn player_laser_hit_enemy_system(w: &mut World)
    requires
        old(w).wf(),
        // the score has room for every possible kill of this pass
        old(w).player.score + old(w).enemy_count <= u32::MAX,
    ensures
        lasers_resolved(*old(w), *final(w)),
{
    let ghost s0 = w.entities@;
    let n = w.entities.len();
    let mut li: usize = 0;
    while li < n
        invariant
            n == w.entities@.len(),
            s0 == old(w).entities@,
            n == s0.len(),
            li <= n,
            old(w).wf(),
            old(w).player.score + old(w).enemy_count <= u32::MAX,
            only_downs(s0, w.entities@),
            forall|j: int|
                #![auto]
                0 <= j < n && w.entities@[j] != s0[j] ==> is_fp_laser(s0[j]) || is_live_enemy(
                    s0[j],
                ),
            forall|j: int|
                #![auto]
                0 <= j < n && w.entities@[j] != s0[j] && is_live_enemy(s0[j]) ==> exists|l: int|
                    0 <= l < n && is_fp_laser(s0[l]) && #[trigger] hits(s0[l], s0[j]),
            forall|j: int|
                #![auto]
                0 <= j < n && w.entities@[j] != s0[j] && is_fp_laser(s0[j]) ==> exists|b: int|
                    0 <= b < n && is_live_enemy(s0[b]) && #[trigger] hits(s0[j], s0[b]),
            w.enemy_count == w.enemy_census(),
            old(w).enemy_count - w.enemy_count == fp_census(s0) - fp_census(w.entities@),
            w.enemy_count <= old(w).enemy_count,
            w.player == (PlayerState {
                score: (old(w).player.score + old(w).enemy_count - w.enemy_count) as u32,
                ..old(w).player
            }),
            w.player.on ==> w.player_census() == 1,
            !w.player.on ==> w.player_census() == 0,
            w.pending@.len() == old(w).pending@.len() + old(w).enemy_count - w.enemy_count,
            forall|k: int|
                0 <= k < old(w).pending@.len() ==> w.pending@[k] == #[trigger] old(w).pending@[k],
            forall|k: int|
                old(w).pending@.len() <= k < w.pending@.len() ==> enemy_event(
                    s0,
                    w.entities@,
                    #[trigger] w.pending@[k],
                ),
            forall|a: int, b: int|
                0 <= a < li && 0 <= b < n && is_fp_laser(w.entities@[a]) && is_live_enemy(
                    w.entities@[b],
                ) ==> !(#[trigger] hits(w.entities@[a], w.entities@[b])),
        decreases n - li,
    {
        let l = w.entities[li];
        if l.alive && l.tags.laser && l.tags.from_player {
            let mut ei: usize = 0;
            let mut struck: bool = false;
            while ei < n && !struck
                invariant
                    n == w.entities@.len(),
                    s0 == old(w).entities@,
                    n == s0.len(),
                    li < n,
                    ei <= n,
                    old(w).wf(),
                    old(w).player.score + old(w).enemy_count <= u32::MAX,
                    is_fp_laser(s0[li as int]),
                    struck == !w.entities@[li as int].alive,
                    only_downs(s0, w.entities@),
                    forall|j: int|
                        #![auto]
                        0 <= j < n && w.entities@[j] != s0[j] ==> is_fp_laser(s0[j])
                            || is_live_enemy(s0[j]),
                    forall|j: int|
                        #![auto]
                        0 <= j < n && w.entities@[j] != s0[j] && is_live_enemy(s0[j]) ==> exists|
                            l2: int,
                        |
                            0 <= l2 < n && is_fp_laser(s0[l2]) && #[trigger] hits(s0[l2], s0[j]),
                    forall|j: int|
                        #![auto]
                        0 <= j < n && w.entities@[j] != s0[j] && is_fp_laser(s0[j]) ==> exists|
                            b: int,
                        |
                            0 <= b < n && is_live_enemy(s0[b]) && #[trigger] hits(s0[j], s0[b]),
                    w.enemy_count == w.enemy_census(),
                    old(w).enemy_count - w.enemy_count == fp_census(s0) - fp_census(w.entities@),
                    w.enemy_count <= old(w).enemy_count,
                    w.player == (PlayerState {
                        score: (old(w).player.score + old(w).enemy_count - w.enemy_count) as u32,
                        ..old(w).player
                    }),
                    w.player.on ==> w.player_census() == 1,
                    !w.player.on ==> w.player_census() == 0,
                    w.pending@.len() == old(w).pending@.len() + old(w).enemy_count
                        - w.enemy_count,
                    forall|k: int|
                        0 <= k < old(w).pending@.len() ==> w.pending@[k] == #[trigger] old(
                            w,
                        ).pending@[k],
                    forall|k: int|
                        old(w).pending@.len() <= k < w.pending@.len() ==> enemy_event(
                            s0,
                            w.entities@,
                            #[trigger] w.pending@[k],
                        ),
                    forall|a: int, b: int|
                        0 <= a < li && 0 <= b < n && is_fp_laser(w.entities@[a]) && is_live_enemy(
                            w.entities@[b],
                        ) ==> !(#[trigger] hits(w.entities@[a], w.entities@[b])),
                    forall|b: int|
                        0 <= b < ei && !struck && is_live_enemy(w.entities@[b]) ==> !(
                        #[trigger] hits(w.entities@[li as int], w.entities@[b])),
                decreases n - ei,
            {
                let lcur = w.entities[li];
                let en = w.entities[ei];
                if en.alive && en.tags.enemy {
                    if collide(&lcur, &en) {
                        let ghost epre = w.entities@;
                        // destroy the enemy
                        let dead_enemy = Entity { alive: false, ..en };
                        proof {
                            lemma_census_pos(
                                w.entities@,
                                |e: Entity| is_live_enemy(e),
                                ei as int,
                            );
                            lemma_census_update(
                                w.entities@,
                                |e: Entity| is_live_enemy(e),
                                ei as int,
                                dead_enemy,
                            );
                            lemma_census_update(
                                w.entities@,
                                |e: Entity| is_live_player(e),
                                ei as int,
                                dead_enemy,
                            );
                            lemma_census_update(
                                w.entities@,
                                |e: Entity| is_fp_laser(e),
                                ei as int,
                                dead_enemy,
                            );
                        }
                        w.entities[ei] = dead_enemy;
                        w.enemy_count = w.enemy_count - 1;
                        // destroy the projectile
                        let dead_laser = Entity { alive: false, ..lcur };
                        proof {
                            lemma_census_update(
                                w.entities@,
                                |e: Entity| is_live_enemy(e),
                                li as int,
                                dead_laser,
                            );
                            lemma_census_update(
                                w.entities@,
                                |e: Entity| is_live_player(e),
                                li as int,
                                dead_laser,
                            );
                            lemma_census_update(
                                w.entities@,
                                |e: Entity| is_fp_laser(e),
                                li as int,
                                dead_laser,
                            );
                        }
                        w.entities[li] = dead_laser;
                        struck = true;
                        // score the kill and record the explosion
                        self_add_score(w);
                        w.pending.push(ExplosionToSpawn { x: en.x, y: en.y });
                        proof {
                            assert(hits(s0[li as int], s0[ei as int]));
                            assert(is_live_enemy(s0[ei as int]));
                            assert(w.pending@.last() == ev_at(s0[ei as int]));
                            assert(!w.entities@[ei as int].alive);
                            assert(enemy_event(s0, w.entities@, w.pending@.last()));
                            // events of earlier kills keep their witness:
                            // their enemies stay dead
                            assert forall|k: int|
                                old(w).pending@.len() <= k < w.pending@.len() - 1 implies enemy_event(
                                s0,
                                w.entities@,
                                #[trigger] w.pending@[k],
                            ) by {
                                lemma_enemy_event_monotone(s0, epre, w.entities@, w.pending@[k]);
                            }
                        }
                    }
                }
                ei = ei + 1;
            }
        }
        li = li + 1;
    }
    proof {
        assert forall|j: int| 0 <= j < w.entities@.len() implies (
        #[trigger] w.entities@[j]).wf() by {
            assert(w.entities@[j] == s0[j] || w.entities@[j] == downed(s0[j]));
            assert(s0[j].wf());
        }
        finish_player_laser_pass(old(w), w, s0);
    }
}

/// Add the kill to the score. Separated so the overflow argument stands
/// in one place: the headroom precondition leaves room for every enemy.
fn self_add_score(w: &mut World)
    requires
        old(w).player.score < u32::MAX,
    ensures
        *final(w) == (World {
            player: (PlayerState {
                score: (old(w).player.score + 1) as u32,
                ..old(w).player
            }),
            ..*old(w)
        }),
{
    w.player.score = w.player.score + 1;
}

/// Closing argument of the projectile-enemy pass: derive the
/// quiescence and lone-pair clauses from the loop's invariants.
proof fn finish_player_laser_pass(w0: &World, w1: &World, s0: Seq<Entity>)
    requires
        s0 == w0.entities@,
        w0.wf(),
        only_downs(s0, w1.entities@),
        forall|j: int|
            #![auto]
            0 <= j < s0.len() && w1.entities@[j] != s0[j] ==> is_fp_laser(s0[j]) || is_live_enemy(
                s0[j],
            ),
        forall|j: int|
            #![auto]
            0 <= j < s0.len() && w1.entities@[j] != s0[j] && is_live_enemy(s0[j]) ==> exists|
                l: int,
            |
                0 <= l < s0.len() && is_fp_laser(s0[l]) && #[trigger] hits(s0[l], s0[j]),
        forall|j: int|
            #![auto]
            0 <= j < s0.len() && w1.entities@[j] != s0[j] && is_fp_laser(s0[j]) ==> exists|b: int|
                0 <= b < s0.len() && is_live_enemy(s0[b]) && #[trigger] hits(s0[j], s0[b]),
        w1.enemy_count == w1.enemy_census(),
        w0.enemy_count - w1.enemy_count == fp_census(s0) - fp_census(w1.entities@),
        w1.enemy_count <= w0.enemy_count,
        w1.player == (PlayerState {
            score: (w0.player.score + w0.enemy_count - w1.enemy_count) as u32,
            ..w0.player
        }),
        w1.pending@.len() == w0.pending@.len() + w0.enemy_count - w1.enemy_count,
        forall|k: int| 0 <= k < w0.pending@.len() ==> w1.pending@[k] == #[trigger] w0.pending@[k],
        no_fp_enemy_overlap(w1.entities@),
        w0.player.score + w0.enemy_count <= u32::MAX,
    ensures
        no_fp_enemy_overlap(s0) ==> {
            &&& w1.entities@ =~= s0
            &&& w1.enemy_count == w0.enemy_count
            &&& w1.player == w0.player
            &&& w1.pending@ =~= w0.pending@
        },
        (w0.enemy_count == 1 && fp_census(s0) == 1 && !no_fp_enemy_overlap(s0)) ==> {
            &&& w1.enemy_count == 0
            &&& fp_census(w1.entities@) == 0
            &&& w1.player.score == w0.player.score + 1
            &&& w1.pending@.len() == w0.pending@.len() + 1
        },
{
    let s1 = w1.entities@;
    if no_fp_enemy_overlap(s0) {
        // nothing can have been destroyed: a destroyed record would
        // witness an overlapping pair of the start state
        assert forall|j: int| 0 <= j < s0.len() implies s1[j] == s0[j] by {
            if s1[j] != s0[j] {
                if is_live_enemy(s0[j]) {
                    let l = choose|l: int|
                        0 <= l < s0.len() && is_fp_laser(s0[l]) && #[trigger] hits(s0[l], s0[j]);
                    assert(false);
                } else {
                    assert(is_fp_laser(s0[j]));
                    let b = choose|b: int|
                        0 <= b < s0.len() && is_live_enemy(s0[b]) && #[trigger] hits(s0[j], s0[b]);
                    assert(false);
                }
            }
        }
        assert(s1 =~= s0);
        assert(w1.enemy_census() == w0.enemy_census());
        assert(w1.pending@.len() == w0.pending@.len());
        assert(w1.pending@ =~= w0.pending@);
    }
    if w0.enemy_count == 1 && fp_census(s0) == 1 && !no_fp_enemy_overlap(s0) {
        // some pair overlaps, so the pass cannot have left everything
        // untouched: with one projectile and one enemy, both must fall
        if w1.enemy_count == w0.enemy_count {
            // then no projectile fell either, so the store is unchanged,
            // and the overlapping pair of the start state still overlaps
            assert(fp_census(s1) == fp_census(s0));
            assert forall|j: int| 0 <= j < s0.len() implies s1[j] == s0[j] by {
                if s1[j] != s0[j] {
                    if is_live_enemy(s0[j]) {
                        lemma_census_strict(s0, s1, |e: Entity| is_live_enemy(e), j);
                        assert(false);
                    } else {
                        assert(is_fp_laser(s0[j]));
                        lemma_census_strict(s0, s1, |e: Entity| is_fp_laser(e), j);
                        assert(false);
                    }
                }
            }
            assert(s1 =~= s0);
            assert(no_fp_enemy_overlap(s1) == no_fp_enemy_overlap(s0));
            assert(false);
        }
        assert(w1.enemy_count == 0);
    }
}

/// Some live enemy projectile overlaps the live player.
pub open spec fn some_fe_player_overlap(s: Seq<Entity>) -> bool {
    exists|a: int, b: int|
        0 <= a < s.len() && 0 <= b < s.len() && is_fe_laser(s[a]) && is_live_player(s[b])
            && #[trigger] hits(s[a], s[b])
}

/// Some live enemy overlaps the live player.
pub open spec fn some_enemy_player_overlap(s: Seq<Entity>) -> bool {
    exists|a: int, b: int|
        0 <= a < s.len() && 0 <= b < s.len() && is_live_enemy(s[a]) && is_live_player(s[b])
            && #[trigger] hits(s[b], s[a])
}

/// Resolve enemy projectiles against the player. The store holds at most
/// one live player; if some live enemy projectile overlaps it, the player
/// and exactly one such projectile are destroyed, the death is recorded
/// with the current time, one explosion event is emitted at the player's
/// position, and the scan stops (first hit wins). With no live player or
/// no overlapping projectile, nothing changes.
/// Everything the projectile-player pass guarantees, from the state
/// before the call to the state after it.
pub open spec fn player_struck(pre: World, post: World, now_us: i64) -> bool {
    &&& post.wf()
    &&& pre.player.on && some_fe_player_overlap(pre.entities@) ==> exists|a: int, b: int|
        0 <= a < pre.entities@.len() && 0 <= b < pre.entities@.len() && is_fe_laser(
            pre.entities@[a],
        ) && is_live_player(pre.entities@[b]) && #[trigger] hits(
            pre.entities@[a],
            pre.entities@[b],
        ) && post.entities@ == pre.entities@.update(b, downed(pre.entities@[b])).update(
            a,
            downed(pre.entities@[a]),
        ) && post.player == (PlayerState {
            on: false,
            last_shot: now_us,
            score: pre.player.score,
        }) && post.pending@ == pre.pending@.push(ev_at(pre.entities@[b]))
    &&& !(pre.player.on && some_fe_player_overlap(pre.entities@)) ==> post == pre
    &&& post.enemy_count == pre.enemy_count
}

pub fn enemy_laser_hit_player_system(w: &mut World, now_us: i64)
    requires
        old(w).wf(),
        0 <= now_us <= TIME_LIMIT_US,
    ensures
        player_struck(*old(w), *final(w), now_us),
{
    let n = w.entities.len();
    let ghost s0 = w.entities@;
    // locate the live player, if any
    let mut pi: usize = 0;
    let mut found: bool = false;
    while pi < n && !found
        invariant
            n == w.entities@.len(),
            *w == *old(w),
            pi <= n,
            old(w).wf(),
            s0 == old(w).entities@,
            !found ==> forall|j: int| 0 <= j < pi ==> !is_live_player(#[trigger] w.entities@[j]),
            found ==> pi < n && is_live_player(w.entities@[pi as int]),
        decreases n - pi + (if found { 0int } else { 1int }),
    {
        let e = w.entities[pi];
        if e.alive && e.tags.player {
            found = true;
        } else {
            pi = pi + 1;
        }
    }
    if !found {
        proof {
            if w.player.on {
                lemma_census_nonzero_witness(w.entities@, |en: Entity| is_live_player(en));
            }
            if some_fe_player_overlap(s0) {
                let (a, b) = choose|a: int, b: int|
                    0 <= a < s0.len() && 0 <= b < s0.len() && is_fe_laser(s0[a]) && is_live_player(
                        s0[b],
                    ) && #[trigger] hits(s0[a], s0[b]);
                lemma_census_pos(s0, |en: Entity| is_live_player(en), b);
            }
        }
        return ;
    }
    let p = w.entities[pi];
    proof {
        lemma_census_pos(s0, |en: Entity| is_live_player(en), pi as int);
    }
    let mut i: usize = 0;
    while i < n
        invariant
            n == w.entities@.len(),
            *w == *old(w),
            i <= n,
            old(w).wf(),
            0 <= now_us <= TIME_LIMIT_US,
            s0 == old(w).entities@,
            pi < n,
            p == s0[pi as int],
            is_live_player(p),
            old(w).player.on,
            forall|j: int|
                0 <= j < i && is_fe_laser(#[trigger] s0[j]) ==> !hits(s0[j], s0[pi as int]),
        decreases n - i,
    {
        let l = w.entities[i];
        if l.alive && l.tags.laser && l.tags.from_enemy {
            if collide(&l, &p) {
                let dead_player = Entity { alive: false, ..p };
                proof {
                    lemma_census_update(
                        w.entities@,
                        |e: Entity| is_live_enemy(e),
                        pi as int,
                        dead_player,
                    );
                    lemma_census_update(
                        w.entities@,
                        |e: Entity| is_live_player(e),
                        pi as int,
                        dead_player,
                    );
                }
                w.entities[pi] = dead_player;
                let dead_laser = Entity { alive: false, ..l };
                proof {
                    lemma_census_update(
                        w.entities@,
                        |e: Entity| is_live_enemy(e),
                        i as int,
                        dead_laser,
                    );
                    lemma_census_update(
                        w.entities@,
                        |e: Entity| is_live_player(e),
                        i as int,
                        dead_laser,
                    );
                }
                w.entities[i] = dead_laser;
                w.player.shot(now_us);
                w.pending.push(ExplosionToSpawn { x: p.x, y: p.y });
                proof {
                    assert(hits(s0[i as int], s0[pi as int]));
                    assert(some_fe_player_overlap(s0));
                    assert forall|j: int| 0 <= j < w.entities@.len() implies (
                    #[trigger] w.entities@[j]).wf() by {
                        assert(s0[j].wf());
                    }
                }
                return ;
            }
        }
        i = i + 1;
    }
    proof {
        // no enemy projectile overlaps the one live player, so the
        // overlap premise is false
        if some_fe_player_overlap(s0) {
            let (a, b) = choose|a: int, b: int|
                0 <= a < s0.len() && 0 <= b < s0.len() && is_fe_laser(s0[a]) && is_live_player(
                    s0[b],
                ) && #[trigger] hits(s0[a], s0[b]);
            if b != pi as int {
                lemma_census_two(s0, |en: Entity| is_live_player(en), b, pi as int);
            }
            assert(false);
        }
    }
}

/// Resolve direct enemy contact with the player. If some live enemy
/// overlaps the live player, both are destroyed, the enemy counter
/// falls, the death is recorded with the current time, one explosion
/// event is emitted at each destroyed entity's position, and the scan
/// stops (first hit wins). With no live player or no overlapping enemy,
/// nothing changes.
/// Everything the direct enemy-player pass guarantees, from the state
/// before the call to the state after it.
pub open spec fn player_rammed(pre: World, post: World, now_us: i64) -> bool {
    &&& post.wf()
    &&& pre.player.on && some_enemy_player_overlap(pre.entities@) ==> exists|a: int, b: int|
        0 <= a < pre.entities@.len() && 0 <= b < pre.entities@.len() && is_live_enemy(
            pre.entities@[a],
        ) && is_live_player(pre.entities@[b]) && #[trigger] hits(
            pre.entities@[b],
            pre.entities@[a],
        ) && post.entities@ == pre.entities@.update(b, downed(pre.entities@[b])).update(
            a,
            downed(pre.entities@[a]),
        ) && post.player == (PlayerState {
            on: false,
            last_shot: now_us,
            score: pre.player.score,
        }) && post.pending@ == pre.pending@.push(ev_at(pre.entities@[b])).push(
            ev_at(pre.entities@[a]),
        ) && post.enemy_count == pre.enemy_count - 1
    &&& !(pre.player.on && some_enemy_player_overlap(pre.entities@)) ==> post == pre
}

pub fn enemy_player_collision_system(w: &mut World, now_us: i64)
    requires
        old(w).wf(),
        0 <= now_us <= TIME_LIMIT_US,
    ensures
        player_rammed(*old(w), *final(w), now_us),
{
    let n = w.entities.len();
    let ghost s0 = w.entities@;
    let mut pi: usize = 0;
    let mut found: bool = false;
    while pi < n && !found
        invariant
            n == w.entities@.len(),
            *w == *old(w),
            pi <= n,
            old(w).wf(),
            s0 == old(w).entities@,
            !found ==> forall|j: int| 0 <= j < pi ==> !is_live_player(#[trigger] w.entities@[j]),
            found ==> pi < n && is_live_player(w.entities@[pi as int]),
        decreases n - pi + (if found { 0int } else { 1int }),
    {
        let e = w.entities[pi];
        if e.alive && e.tags.player {
            found = true;
        } else {
            pi = pi + 1;
        }
    }
    if !found {
        proof {
            if w.player.on {
                lemma_census_nonzero_witness(w.entities@, |en: Entity| is_live_player(en));
            }
            if some_enemy_player_overlap(s0) {
                let (a, b) = choose|a: int, b: int|
                    0 <= a < s0.len() && 0 <= b < s0.len() && is_live_enemy(s0[a])
                        && is_live_player(s0[b]) && #[trigger] hits(s0[b], s0[a]);
                lemma_census_pos(s0, |en: Entity| is_live_player(en), b);
            }
        }
        return ;
    }
    let p = w.entities[pi];
    proof {
        lemma_census_pos(s0, |en: Entity| is_live_player(en), pi as int);
    }
    let mut i: usize = 0;
    while i < n
        invariant
            n == w.entities@.len(),
            *w == *old(w),
            i <= n,
            old(w).wf(),
            0 <= now_us <= TIME_LIMIT_US,
            s0 == old(w).entities@,
            pi < n,
            p == s0[pi as int],
            is_live_player(p),
            old(w).player.on,
            forall|j: int|
                0 <= j < i && is_live_enemy(#[trigger] s0[j]) ==> !hits(s0[pi as int], s0[j]),
        decreases n - i,
    {
        let en = w.entities[i];
        if en.alive && en.tags.enemy {
            if collide(&p, &en) {
                let dead_player = Entity { alive: false, ..p };
                proof {
                    lemma_census_update(
                        w.entities@,
                        |e: Entity| is_live_enemy(e),
                        pi as int,
                        dead_player,
                    );
                    lemma_census_update(
                        w.entities@,
                        |e: Entity| is_live_player(e),
                        pi as int,
                        dead_player,
                    );
                }
                w.entities[pi] = dead_player;
                let dead_enemy = Entity { alive: false, ..en };
                proof {
                    lemma_census_pos(w.entities@, |e: Entity| is_live_enemy(e), i as int);
                    lemma_census_update(
                        w.entities@,
                        |e: Entity| is_live_enemy(e),
                        i as int,
                        dead_enemy,
                    );
                    lemma_census_update(
                        w.entities@,
                        |e: Entity| is_live_player(e),
                        i as int,
                        dead_enemy,
                    );
                }
                w.entities[i] = dead_enemy;
                w.enemy_count = w.enemy_count - 1;
                w.player.shot(now_us);
                w.pending.push(ExplosionToSpawn { x: p.x, y: p.y });
                w.pending.push(ExplosionToSpawn { x: en.x, y: en.y });
                proof {
                    assert(hits(s0[pi as int], s0[i as int]));
                    assert(some_enemy_player_overlap(s0));
                    assert forall|j: int| 0 <= j < w.entities@.len() implies (
                    #[trigger] w.entities@[j]).wf() by {
                        assert(s0[j].wf());
                    }
                }
                return ;
            }
        }
        i = i + 1;
    }
    proof {
        if some_enemy_player_overlap(s0) {
            let (a, b) = choose|a: int, b: int|
                0 <= a < s0.len() && 0 <= b < s0.len() && is_live_enemy(s0[a]) && is_live_player(
                    s0[b],
                ) && #[trigger] hits(s0[b], s0[a]);
            if b != pi as int {
                lemma_census_two(s0, |en: Entity| is_live_player(en), b, pi as int);
            }
            assert(false);
        }
    }
}

} // verus!

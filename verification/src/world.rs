//! The entity store and the cross-cutting invariants the systems preserve.
//!
//! The store owns a flat collection of [`Entity`] records; a handle is an
//! index into it. Destruction clears the liveness flag and never reuses a
//! record, so a handle observed dead stays dead for the rest of the run and
//! a system can never act on the same entity twice in one tick.

use vstd::prelude::*;
use crate::components::{Entity, ExplosionToSpawn, PlayerState};
use crate::fixed::TIME_LIMIT_US;

verus! {

/// True for a record the enemy census counts.
pub open spec fn is_live_enemy(e: Entity) -> bool {
    e.alive && e.tags.enemy
}

/// True for a record the player census counts.
pub open spec fn is_live_player(e: Entity) -> bool {
    e.alive && e.tags.player
}

/// Number of entries of `s` satisfying `f`.
pub open spec fn census(s: Seq<Entity>, f: spec_fn(Entity) -> bool) -> nat
    decreases s.len(),
{
    if s.len() == 0 {
        0
    } else {
        census(s.drop_last(), f) + (if f(s.last()) { 1nat } else { 0nat })
    }
}

/// A census never exceeds the number of entries.
pub proof fn lemma_census_le_len(s: Seq<Entity>, f: spec_fn(Entity) -> bool)
    ensures
        census(s, f) <= s.len(),
    decreases s.len(),
{
    if s.len() > 0 {
        lemma_census_le_len(s.drop_last(), f);
    }
}

/// An entry satisfying the predicate puts the census above zero.
pub proof fn lemma_census_pos(s: Seq<Entity>, f: spec_fn(Entity) -> bool, i: int)
    requires
        0 <= i < s.len(),
        f(s[i]),
    ensures
        census(s, f) >= 1,
    decreases s.len(),
{
    if i < s.len() - 1 {
        lemma_census_pos(s.drop_last(), f, i);
    }
}

/// A positive census yields a witness entry satisfying the predicate.
pub proof fn lemma_census_nonzero_witness(s: Seq<Entity>, f: spec_fn(Entity) -> bool)
    requires
        census(s, f) > 0,
    ensures
        exists|i: int| 0 <= i < s.len() && f(#[trigger] s[i]),
    decreases s.len(),
{
    if s.len() > 0 {
        if f(s.last()) {
            assert(f(s[s.len() - 1]));
        } else {
            lemma_census_nonzero_witness(s.drop_last(), f);
            let i = choose|i: int| 0 <= i < s.drop_last().len() && f(#[trigger] s.drop_last()[i]);
            assert(f(s[i]));
        }
    }
}

/// Appending one entry raises the census by one exactly when the entry
/// satisfies the predicate.
pub proof fn lemma_census_push(s: Seq<Entity>, f: spec_fn(Entity) -> bool, e: Entity)
    ensures
        census(s.push(e), f) == census(s, f) + (if f(e) { 1nat } else { 0nat }),
{
    assert(s.push(e).drop_last() =~= s);
    assert(s.push(e).last() == e);
}

/// Replacing the entry at `i` shifts the census by the change in the
/// predicate at that entry alone.
pub proof fn lemma_census_update(s: Seq<Entity>, f: spec_fn(Entity) -> bool, i: int, e: Entity)
    requires
        0 <= i < s.len(),
    ensures
        census(s.update(i, e), f) == census(s, f) + (if f(e) { 1int } else { 0int }) - (
        if f(s[i]) {
            1int
        } else {
            0int
        }),
    decreases s.len(),
{
    let t = s.update(i, e);
    if i == s.len() - 1 {
        assert(t.drop_last() =~= s.drop_last());
        assert(t.last() == e);
    } else {
        assert(t.drop_last() =~= s.drop_last().update(i, e));
        assert(t.last() == s.last());
        lemma_census_update(s.drop_last(), f, i, e);
    }
}

/// Two distinct entries satisfying the predicate put the census at two
/// or more.
pub proof fn lemma_census_two(s: Seq<Entity>, f: spec_fn(Entity) -> bool, i: int, j: int)
    requires
        0 <= i < s.len(),
        0 <= j < s.len(),
        i != j,
        f(s[i]),
        f(s[j]),
    ensures
        census(s, f) >= 2,
    decreases s.len(),
{
    let lo = if i < j { i } else { j };
    let hi = if i < j { j } else { i };
    if hi == s.len() - 1 {
        lemma_census_pos(s.drop_last(), f, lo);
    } else {
        lemma_census_two(s.drop_last(), f, lo, hi);
    }
}

/// If every entry satisfying `f` in `s1` also satisfies it at the same
/// index in `s0`, the census cannot grow.
pub proof fn lemma_census_dominated(s0: Seq<Entity>, s1: Seq<Entity>, f: spec_fn(Entity) -> bool)
    requires
        s1.len() == s0.len(),
        forall|j: int| 0 <= j < s0.len() && f(#[trigger] s1[j]) ==> f(s0[j]),
    ensures
        census(s1, f) <= census(s0, f),
    decreases s0.len(),
{
    if s0.len() > 0 {
        assert(forall|j: int|
            0 <= j < s0.len() - 1 && f(#[trigger] s1.drop_last()[j]) ==> f(s0.drop_last()[j]));
        lemma_census_dominated(s0.drop_last(), s1.drop_last(), f);
    }
}

/// As [`lemma_census_dominated`], and some entry dropped out of the
/// census: the census strictly falls.
pub proof fn lemma_census_strict(
    s0: Seq<Entity>,
    s1: Seq<Entity>,
    f: spec_fn(Entity) -> bool,
    j0: int,
)
    requires
        s1.len() == s0.len(),
        forall|j: int| 0 <= j < s0.len() && f(#[trigger] s1[j]) ==> f(s0[j]),
        0 <= j0 < s0.len(),
        f(s0[j0]),
        !f(s1[j0]),
    ensures
        census(s1, f) < census(s0, f),
    decreases s0.len(),
{
    assert(forall|j: int|
        0 <= j < s0.len() - 1 && f(#[trigger] s1.drop_last()[j]) ==> f(s0.drop_last()[j]));
    if j0 == s0.len() - 1 {
        lemma_census_dominated(s0.drop_last(), s1.drop_last(), f);
    } else {
        lemma_census_strict(s0.drop_last(), s1.drop_last(), f, j0);
    }
}

/// The whole simulation state one tick acts on: the entity store, the
/// live-enemy counter, the player lifecycle record, and the queue of
/// pending explosion events.
pub struct World {
    pub entities: Vec<Entity>,
    pub enemy_count: u32,
    pub player: PlayerState,
    pub pending: Vec<ExplosionToSpawn>,
}

impl World {
    /// Number of live enemy-tagged records.
    pub open spec fn enemy_census(self) -> nat {
        census(self.entities@, |e: Entity| is_live_enemy(e))
    }

    /// Number of live player-tagged records.
    pub open spec fn player_census(self) -> nat {
        census(self.entities@, |e: Entity| is_live_player(e))
    }

    /// The invariant every system preserves:
    /// every stored record is well-formed, the enemy counter equals the
    /// live-enemy census, and the player flag mirrors the live-player
    /// census (`on` holds exactly when one player entity is live).
    pub open spec fn wf(self) -> bool {
        &&& forall|i: int| 0 <= i < self.entities@.len() ==> (#[trigger] self.entities@[i]).wf()
        &&& self.enemy_count == self.enemy_census()
        &&& self.player.on ==> self.player_census() == 1
        &&& !self.player.on ==> self.player_census() == 0
        &&& -1 <= self.player.last_shot <= TIME_LIMIT_US
    }

    /// An empty world in the startup state.
    pub fn new() -> (w: World)
        ensures
            w.wf(),
            w.entities@.len() == 0,
            w.enemy_count == 0,
            w.player == (PlayerState { on: false, last_shot: -1i64, score: 0 }),
            w.pending@.len() == 0,
    {
        let w = World {
            entities: Vec::new(),
            enemy_count: 0,
            player: PlayerState { on: false, last_shot: -1, score: 0 },
            pending: Vec::new(),
        };
        proof {
            assert(w.entities@.len() == 0);
            assert(w.enemy_census() == 0);
            assert(w.player_census() == 0);
        }
        w
    }

    /// The live-enemy counter always matches the number of live
    /// enemy-tagged entities: population drift cannot occur in any
    /// reachable state.
    pub proof fn lemma_enemy_count_matches(self)
        requires
            self.wf(),
        ensures
            self.enemy_count == self.enemy_census(),
    {
    }

    /// At most one entity is ever tagged as the player.
    pub proof fn lemma_at_most_one_player(self)
        requires
            self.wf(),
        ensures
            self.player_census() <= 1,
    {
    }

    /// Current score, as the UI reads it each frame.
    pub fn score(&self) -> (s: u32)
        ensures
            s == self.player.score,
    {
        self.player.score
    }

    /// Append a record to the store, keeping the enemy counter in sync.
    /// Returns the new record's handle.
    pub fn spawn(&mut self, e: Entity) -> (h: usize)
        requires
            old(self).wf(),
            e.wf(),
            old(self).entities@.len() < u32::MAX as usize,
            // a live player may only be added through the player spawner,
            // which flips the state flag in the same step
            !(e.alive && e.tags.player),
        ensures
            final(self).wf(),
            h == old(self).entities@.len(),
            final(self).entities@ == old(self).entities@.push(e),
            final(self).enemy_count == old(self).enemy_count + (
            if is_live_enemy(e) {
                1int
            } else {
                0int
            }),
            final(self).player == old(self).player,
            final(self).pending@ == old(self).pending@,
    {
        proof {
            lemma_census_push(self.entities@, |en: Entity| is_live_enemy(en), e);
            lemma_census_push(self.entities@, |en: Entity| is_live_player(en), e);
            lemma_census_le_len(self.entities@, |en: Entity| is_live_enemy(en));
        }
        let h = self.entities.len();
        if e.alive && e.tags.enemy {
            self.enemy_count = self.enemy_count + 1;
        }
        self.entities.push(e);
        h
    }

    /// Move the record at `i` to a new in-range position, leaving every
    /// other field alone. The outer loop uses this to drive motion that
    /// is computed outside the core, such as the enemies' orbit sway.
    pub fn set_position(&mut self, i: usize, x: i64, y: i64)
        requires
            old(self).wf(),
            i < old(self).entities@.len(),
            -crate::fixed::POS_LIMIT <= x <= crate::fixed::POS_LIMIT,
            -crate::fixed::POS_LIMIT <= y <= crate::fixed::POS_LIMIT,
        ensures
            final(self).wf(),
            final(self).entities@ == old(self).entities@.update(
                i as int,
                (Entity { x, y, ..old(self).entities@[i as int] }),
            ),
            final(self).enemy_count == old(self).enemy_count,
            final(self).player == old(self).player,
            final(self).pending@ == old(self).pending@,
    {
        let e = self.entities[i];
        let ne = Entity { x, y, ..e };
        proof {
            lemma_census_update(self.entities@, |en: Entity| is_live_enemy(en), i as int, ne);
            lemma_census_update(self.entities@, |en: Entity| is_live_player(en), i as int, ne);
        }
        self.entities[i] = ne;
    }

    /// Clear the liveness flag of the record at `i`, decrementing the
    /// enemy counter when a live enemy goes. Destroying an already dead
    /// record is a no-op, so destruction is idempotent.
    pub fn despawn(&mut self, i: usize)
        requires
            old(self).wf(),
            i < old(self).entities@.len(),
        ensures
            final(self).wf(),
            final(self).entities@ == old(self).entities@.update(
                i as int,
                (Entity { alive: false, ..old(self).entities@[i as int] }),
            ),
            final(self).enemy_count == old(self).enemy_count - (
            if is_live_enemy(old(self).entities@[i as int]) {
                1int
            } else {
                0int
            }),
            final(self).player == (PlayerState {
                on: old(self).player.on && !is_live_player(old(self).entities@[i as int]),
                ..old(self).player
            }),
            final(self).pending@ == old(self).pending@,
    {
        let ghost s0 = self.entities@;
        let e = self.entities[i];
        let dead = Entity { alive: false, ..e };
        proof {
            lemma_census_update(s0, |en: Entity| is_live_enemy(en), i as int, dead);
            lemma_census_update(s0, |en: Entity| is_live_player(en), i as int, dead);
        }
        if e.alive && e.tags.enemy {
            self.enemy_count = self.enemy_count - 1;
        }
        if e.alive && e.tags.player {
            self.player.on = false;
        }
        self.entities[i] = dead;
    }
}

} // verus!

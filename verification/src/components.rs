//! Entity records and the data attached to them.
//!
//! Every game object is one [`Entity`] record: a liveness flag, a set of
//! category tags, and the component fields the systems read and write.
//! Category membership is a bitset of flags rather than separate marker
//! types, so multi-tag queries (a projectile is both a laser and
//! player-owned) are plain field tests.

use vstd::prelude::*;
use crate::fixed::POS_LIMIT;

verus! {

/// Sprite scale applied to every spawned archetype, in milli (500 = 0.5).
pub const SPRITE_SCALE: i64 = 500;

/// Largest width or height a sprite bounding box may have, in milli-units.
pub const SIZE_LIMIT: i64 = 1_000_000;

/// Largest transform scale, in milli (1_000_000 = a factor of 1000).
pub const SCALE_LIMIT: i64 = 1_000_000;

/// Largest velocity magnitude per axis, in milli direction units.
pub const VEL_LIMIT: i64 = 1_000_000;

/// Largest mass, in milli-kilograms.
pub const MASS_LIMIT: i64 = 1_000_000;

/// Number of cells in the explosion sprite sheet; an explosion entity
/// expires when its animation frame reaches this index.
pub const EXPLOSION_FRAMES: u32 = 16;

/// Period of the repeating explosion animation timer, in microseconds
/// (0.05 s per frame advance).
pub const EXPLOSION_PERIOD_US: i64 = 50_000;

/// Category tags of one entity. An entity may hold several tags; the
/// well-formedness predicate keeps the combinations meaningful.
#[derive(Clone, Copy, Debug, PartialEq, Eq, Structural)]
pub struct Tags {
    pub player: bool,
    pub enemy: bool,
    pub laser: bool,
    pub from_player: bool,
    pub from_enemy: bool,
    pub explosion: bool,
}

impl Tags {
    /// A tag set with every flag cleared.
    pub open spec fn none_spec() -> Tags {
        Tags {
            player: false,
            enemy: false,
            laser: false,
            from_player: false,
            from_enemy: false,
            explosion: false,
        }
    }

    /// Only combinations the archetypes produce: lasers are owned by
    /// exactly one side, and the player, enemy, laser and explosion
    /// categories are mutually exclusive.
    pub open spec fn wf(self) -> bool {
        &&& self.player ==> !self.enemy && !self.laser && !self.explosion
        &&& self.enemy ==> !self.player && !self.laser && !self.explosion
        &&& self.laser ==> !self.player && !self.enemy && !self.explosion
        &&& self.explosion ==> !self.player && !self.enemy && !self.laser
        &&& self.from_player ==> self.laser
        &&& self.from_enemy ==> self.laser
        &&& !(self.from_player && self.from_enemy)
    }
}

/// Per-tick displacement rate in milli direction units per axis, scaled by
/// a global speed constant at integration time.
#[derive(Clone, Copy, Debug, PartialEq, Eq, Structural)]
pub struct Velocity {
    pub x: i64,
    pub y: i64,
}

/// Heading in milli-radians, used to orient sprites and resolve firing and
/// thrust direction. Mapping logic keeps it in `[0, tau)`; callers that
/// write it directly should normalize with [`crate::input::normalize_heading`].
#[derive(Clone, Copy, Debug, PartialEq, Eq, Structural)]
pub struct Orientation {
    pub theta: i64,
}

impl Default for Orientation {
    /// The default heading points straight up.
    fn default() -> (r: Orientation)
        ensures
            r.theta == 0,
    {
        Orientation { theta: 0 }
    }
}

/// Marks an entity as moved by the integrator; `auto_despawn` asks for
/// destruction once the entity leaves the visible bounds plus a margin.
#[derive(Clone, Copy, Debug, PartialEq, Eq, Structural)]
pub struct Movable {
    pub auto_despawn: bool,
}

/// Axis-aligned bounding box of a sprite, full width and height in
/// milli-units, set at spawn time from a per-archetype constant.
#[derive(Clone, Copy, Debug, PartialEq, Eq, Structural)]
pub struct SpriteSize {
    pub w: i64,
    pub h: i64,
}

/// Visible viewport bounds in milli-units, read for despawn-margin checks
/// and spawn positioning.
#[derive(Clone, Copy, Debug, PartialEq, Eq, Structural)]
pub struct WinSize {
    pub w: i64,
    pub h: i64,
}

impl WinSize {
    /// Bounds the systems rely on: non-negative and small enough that the
    /// margin arithmetic stays exact.
    pub open spec fn wf(self) -> bool {
        0 <= self.w <= POS_LIMIT && 0 <= self.h <= POS_LIMIT
    }
}

/// Progress of the repeating explosion animation timer toward its next
/// completion, in microseconds.
#[derive(Clone, Copy, Debug, PartialEq, Eq, Structural)]
pub struct ExplosionTimer {
    pub elapsed_us: i64,
}

impl Default for ExplosionTimer {
    /// A fresh timer with no progress toward the first completion.
    fn default() -> (r: ExplosionTimer)
        ensures
            r.elapsed_us == 0,
    {
        ExplosionTimer { elapsed_us: 0 }
    }
}

/// A pending request to spawn an explosion at a position, emitted by the
/// collision resolver and consumed by the explosion lifecycle in the same
/// tick. Kept in an event queue, never in the entity store.
#[derive(Clone, Copy, Debug, PartialEq, Eq, Structural)]
pub struct ExplosionToSpawn {
    pub x: i64,
    pub y: i64,
}

/// Process-wide player lifecycle state: alive flag, timestamp of the last
/// death in microseconds (-1 = never shot), and the cumulative score.
#[derive(Clone, Copy, Debug, PartialEq, Eq, Structural)]
pub struct PlayerState {
    pub on: bool,
    pub last_shot: i64,
    pub score: u32,
}

impl Default for PlayerState {
    /// Startup state: not alive, never shot, zero score.
    fn default() -> (r: PlayerState)
        ensures
            r == (PlayerState { on: false, last_shot: -1i64, score: 0 }),
    {
        PlayerState { on: false, last_shot: -1, score: 0 }
    }
}

impl PlayerState {
    /// Record a death at `time_us`: the player is gone and the respawn
    /// cooldown starts counting from this timestamp.
    pub fn shot(&mut self, time_us: i64)
        ensures
            *final(self) == (PlayerState { on: false, last_shot: time_us, score: old(self).score }),
    {
        self.on = false;
        self.last_shot = time_us;
    }

    /// Record a respawn: the player is live again and the death timestamp
    /// returns to its never-shot sentinel.
    pub fn spawned(&mut self)
        ensures
            *final(self) == (PlayerState { on: true, last_shot: -1i64, score: old(self).score }),
    {
        self.on = true;
        self.last_shot = -1;
    }
}

/// One game object: liveness, category tags, and all component fields.
/// Destruction only clears `alive`; a dead record is never read again.
#[derive(Clone, Copy, Debug, PartialEq, Eq, Structural)]
pub struct Entity {
    pub alive: bool,
    pub tags: Tags,
    /// Position in milli-units; `z` is a render-order layer, not physics.
    pub x: i64,
    pub y: i64,
    pub z: i64,
    /// Transform scale in milli (1000 = unscaled).
    pub scale: i64,
    /// Sprite rotation in milli-radians, snapped from the orientation.
    pub rotation: i64,
    pub orientation: Orientation,
    pub vel: Velocity,
    pub movable: Option<Movable>,
    pub size: SpriteSize,
    /// Current animation frame of an explosion entity.
    pub frame: u32,
    pub timer: ExplosionTimer,
    /// Mass in milli-kilograms; positive for bodies the force accumulator
    /// visits, zero for everything else.
    pub mass: i64,
    /// Per-tick thrust contribution in milli-newtons, set by the input
    /// mapper, combined into `force` by the accumulator.
    pub thrust_x: i64,
    pub thrust_y: i64,
    /// Net external force in milli-newtons, overwritten once per tick.
    pub force_x: i64,
    pub force_y: i64,
}

impl Entity {
    /// True for an entity the integrator moves.
    pub open spec fn is_movable(self) -> bool {
        self.movable is Some
    }

    /// True for an entity destroyed once it leaves the visible bounds.
    pub open spec fn despawns(self) -> bool {
        match self.movable {
            Some(m) => m.auto_despawn,
            None => false,
        }
    }

    /// Field bounds and tag sanity that every stored record keeps, live or
    /// dead. The bounds keep all products of the collision and force
    /// formulas inside the machine range; the player never auto-despawns,
    /// which ties its lifetime to [`PlayerState`] alone.
    pub open spec fn wf(self) -> bool {
        &&& self.tags.wf()
        &&& self.tags.player ==> !self.despawns()
        &&& -POS_LIMIT <= self.x <= POS_LIMIT
        &&& -POS_LIMIT <= self.y <= POS_LIMIT
        &&& 0 <= self.size.w <= SIZE_LIMIT
        &&& 0 <= self.size.h <= SIZE_LIMIT
        &&& 0 <= self.scale <= SCALE_LIMIT
        &&& -VEL_LIMIT <= self.vel.x <= VEL_LIMIT
        &&& -VEL_LIMIT <= self.vel.y <= VEL_LIMIT
        &&& 0 <= self.mass <= MASS_LIMIT
        &&& self.frame <= EXPLOSION_FRAMES
        &&& self.alive && self.tags.explosion ==> self.frame < EXPLOSION_FRAMES
        &&& 0 <= self.timer.elapsed_us < EXPLOSION_PERIOD_US
    }

    /// A dead record with every field zeroed, the base the archetype
    /// constructors build on.
    pub open spec fn blank_spec() -> Entity {
        Entity {
            alive: false,
            tags: Tags::none_spec(),
            x: 0,
            y: 0,
            z: 0,
            scale: 1000,
            rotation: 0,
            orientation: Orientation { theta: 0 },
            vel: Velocity { x: 0, y: 0 },
            movable: None,
            size: SpriteSize { w: 0, h: 0 },
            frame: 0,
            timer: ExplosionTimer { elapsed_us: 0 },
            mass: 0,
            thrust_x: 0,
            thrust_y: 0,
            force_x: 0,
            force_y: 0,
        }
    }

    pub fn blank() -> (r: Entity)
        ensures
            r == Entity::blank_spec(),
    {
        Entity {
            alive: false,
            tags: Tags {
                player: false,
                enemy: false,
                laser: false,
                from_player: false,
                from_enemy: false,
                explosion: false,
            },
            x: 0,
            y: 0,
            z: 0,
            scale: 1000,
            rotation: 0,
            orientation: Orientation { theta: 0 },
            vel: Velocity { x: 0, y: 0 },
            movable: None,
            size: SpriteSize { w: 0, h: 0 },
            frame: 0,
            timer: ExplosionTimer { elapsed_us: 0 },
            mass: 0,
            thrust_x: 0,
            thrust_y: 0,
            force_x: 0,
            force_y: 0,
        }
    }
}

} // verus!

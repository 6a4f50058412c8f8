//! Mapping decoded input state onto the player entity.
//!
//! The keyboard mapper turns held direction keys into a unit velocity and
//! aim keys into one of four cardinal headings. The gamepad path feeds in
//! an analog stick vector and a trigger for thrust, and an aim angle that
//! the caller has already resolved from the right stick (turning a stick
//! vector into an angle is trigonometry done at the edge); this module
//! applies the sprite-orientation offset and normalizes the heading.

use vstd::prelude::*;
use crate::components::{Entity, Orientation, Velocity};
use crate::world::{is_live_enemy, is_live_player, lemma_census_update, World};

verus! {

/// A full turn in milli-radians.
pub const TAU_MRAD: i64 = 6_283;

/// The four cardinal headings, in milli-radians: up is zero, and the
/// angle grows counter-clockwise.
pub const HEADING_UP: i64 = 0;
pub const HEADING_LEFT: i64 = 1_571;
pub const HEADING_DOWN: i64 = 3_142;
pub const HEADING_RIGHT: i64 = 4_712;

/// Offset between the aim angle convention and the sprite's resting
/// orientation, in milli-radians (a quarter turn). Its value follows the
/// sprite art, not the mapping logic.
pub const HEADING_SPRITE_OFFSET_MRAD: i64 = 1_571;

/// Thrust per milli of heading when the primary trigger is held, in
/// milli-newtons.
pub const PRIMARY_THRUST_FACTOR: i64 = 100_000;

/// Thrust per milli of stick deflection, in milli-newtons.
pub const SECONDARY_THRUST_FACTOR: i64 = 10_000;

/// Held direction and aim keys, already decoded by the caller.
#[derive(Clone, Copy, Debug, PartialEq, Eq, Structural)]
pub struct KeyState {
    pub move_left: bool,
    pub move_right: bool,
    pub move_up: bool,
    pub move_down: bool,
    pub aim_up: bool,
    pub aim_down: bool,
    pub aim_left: bool,
    pub aim_right: bool,
}

/// Bring a heading into `[0, tau)`, keeping its angle modulo a full turn.
pub fn normalize_heading(theta_mrad: i64) -> (r: i64)
    requires
        theta_mrad > i64::MIN,
    ensures
        r == (theta_mrad as int) % (TAU_MRAD as int),
        0 <= r < TAU_MRAD,
{
    if theta_mrad >= 0 {
        theta_mrad % TAU_MRAD
    } else {
        let m: i64 = (-theta_mrad) % TAU_MRAD;
        proof {
            let t = theta_mrad as int;
            let q = (-t) / (TAU_MRAD as int);
            vstd::arithmetic::div_mod::lemma_fundamental_div_mod(-t, TAU_MRAD as int);
            vstd::arithmetic::div_mod::lemma_mod_pos_bound(-t, TAU_MRAD as int);
            if m == 0 {
                vstd::arithmetic::div_mod::lemma_fundamental_div_mod_converse(
                    t,
                    TAU_MRAD as int,
                    -q,
                    0,
                );
            } else {
                vstd::arithmetic::div_mod::lemma_fundamental_div_mod_converse(
                    t,
                    TAU_MRAD as int,
                    -q - 1,
                    TAU_MRAD - m,
                );
            }
        }
        if m == 0 {
            0
        } else {
            TAU_MRAD - m
        }
    }
}

/// Resolve the acute angle of the aim stick into a full heading in
/// `[0, tau)` from the signs of the stick's axes: first quadrant as is,
/// second mirrored off a half turn, third past it, fourth short of a
/// full turn. The acute angle itself comes from the caller, since
/// computing it from the stick vector is trigonometry done at the edge.
pub fn quadrant_heading(acute_mrad: i64, x_neg: bool, y_neg: bool) -> (theta: i64)
    requires
        0 <= acute_mrad <= HEADING_LEFT,
    ensures
        theta == (if !y_neg {
            if !x_neg {
                acute_mrad as int
            } else {
                HEADING_DOWN - acute_mrad
            }
        } else {
            if x_neg {
                HEADING_DOWN + acute_mrad
            } else {
                TAU_MRAD - acute_mrad
            }
        }),
        0 <= theta <= TAU_MRAD,
{
    if !y_neg {
        if !x_neg {
            acute_mrad
        } else {
            HEADING_DOWN - acute_mrad
        }
    } else {
        if x_neg {
            HEADING_DOWN + acute_mrad
        } else {
            TAU_MRAD - acute_mrad
        }
    }
}

/// The velocity the held movement keys ask for, in milli direction
/// units: left wins over right, up over down, idle axes are zero.
pub open spec fn keyed_velocity(k: KeyState) -> Velocity {
    Velocity {
        x: if k.move_left {
            -1000i64
        } else if k.move_right {
            1000i64
        } else {
            0i64
        },
        y: if k.move_up {
            1000i64
        } else if k.move_down {
            -1000i64
        } else {
            0i64
        },
    }
}

/// The heading the held aim keys ask for, or `None` to keep the current
/// one; up wins over down, down over right, right over left.
pub open spec fn keyed_heading(k: KeyState) -> Option<i64> {
    if k.aim_up {
        Some(HEADING_UP)
    } else if k.aim_down {
        Some(HEADING_DOWN)
    } else if k.aim_right {
        Some(HEADING_RIGHT)
    } else if k.aim_left {
        Some(HEADING_LEFT)
    } else {
        None
    }
}

/// What the keyboard mapper does to one record: a live player takes the
/// keyed velocity, and the keyed heading when one is held; everything
/// else is untouched.
pub open spec fn keyed(e: Entity, k: KeyState) -> Entity {
    if e.alive && e.tags.player {
        Entity {
            vel: keyed_velocity(k),
            orientation: match keyed_heading(k) {
                Some(t) => Orientation { theta: t },
                None => e.orientation,
            },
            ..e
        }
    } else {
        e
    }
}

/// Everything the keyboard mapper guarantees, from the state before the
/// call to the state after it.
pub open spec fn keyboard_mapped(pre: World, post: World, k: KeyState) -> bool {
    &&& post.wf()
    &&& post.entities@.len() == pre.entities@.len()
    &&& forall|j: int|
        0 <= j < pre.entities@.len() ==> post.entities@[j] == keyed(
            #[trigger] pre.entities@[j],
            k,
        )
    &&& post.enemy_count == pre.enemy_count
    &&& post.player == pre.player
    &&& post.pending@ == pre.pending@
}

/// Apply the held keys to the live player: velocity from the movement
/// keys, heading from the aim keys.
pub fn player_keyboard_event_system(w: &mut World, k: KeyState)
    requires
        old(w).wf(),
    ensures
        keyboard_mapped(*old(w), *final(w), k),
{
    let n = w.entities.len();
    let mut i: usize = 0;
    while i < n
        invariant
            n == w.entities@.len(),
            n == old(w).entities@.len(),
            i <= n,
            forall|j: int|
                0 <= j < i ==> w.entities@[j] == keyed(#[trigger] old(w).entities@[j], k),
            forall|j: int| i <= j < n ==> w.entities@[j] == old(w).entities@[j],
            forall|j: int| 0 <= j < n ==> (#[trigger] w.entities@[j]).wf(),
            w.enemy_count == old(w).enemy_count,
            w.enemy_count == w.enemy_census(),
            w.player == old(w).player,
            w.player.on ==> w.player_census() == 1,
            !w.player.on ==> w.player_census() == 0,
            w.pending@ == old(w).pending@,
        decreases n - i,
    {
        let e = w.entities[i];
        if e.alive && e.tags.player {
            let vx: i64 = if k.move_left {
                -1000
            } else if k.move_right {
                1000
            } else {
                0
            };
            let vy: i64 = if k.move_up {
                1000
            } else if k.move_down {
                -1000
            } else {
                0
            };
            let theta: i64 = if k.aim_up {
                HEADING_UP
            } else if k.aim_down {
                HEADING_DOWN
            } else if k.aim_right {
                HEADING_RIGHT
            } else if k.aim_left {
                HEADING_LEFT
            } else {
                e.orientation.theta
            };
            let ne = Entity {
                vel: Velocity { x: vx, y: vy },
                orientation: Orientation { theta },
                ..e
            };
            proof {
                assert(ne == keyed(e, k));
                lemma_census_update(w.entities@, |en: Entity| is_live_enemy(en), i as int, ne);
                lemma_census_update(w.entities@, |en: Entity| is_live_player(en), i as int, ne);
            }
            w.entities[i] = ne;
        }
        i = i + 1;
    }
}

/// The thrust the gamepad state asks for, in milli-newtons: the primary
/// trigger overrides the stick and pushes along the heading unit vector;
/// otherwise the stick deflection thrusts directly.
pub open spec fn thrust_of(
    stick_x: i64,
    stick_y: i64,
    trigger: bool,
    dir_x: i64,
    dir_y: i64,
) -> (int, int) {
    if trigger {
        (dir_x * PRIMARY_THRUST_FACTOR, dir_y * PRIMARY_THRUST_FACTOR)
    } else {
        (stick_x * SECONDARY_THRUST_FACTOR, stick_y * SECONDARY_THRUST_FACTOR)
    }
}

/// What the gamepad mapper does to one record: a live player takes the
/// requested thrust, and, when an aim angle came in, the offset and
/// normalized heading with the sprite rotation snapped to it.
pub open spec fn padded(
    e: Entity,
    tx: int,
    ty: int,
    aim: Option<i64>,
) -> Entity {
    if e.alive && e.tags.player {
        let t = match aim {
            Some(theta) => ((theta - HEADING_SPRITE_OFFSET_MRAD) % (TAU_MRAD as int)) as i64,
            None => e.orientation.theta,
        };
        let rot = match aim {
            Some(theta) => ((theta - HEADING_SPRITE_OFFSET_MRAD) % (TAU_MRAD as int)) as i64,
            None => e.rotation,
        };
        Entity {
            thrust_x: tx as i64,
            thrust_y: ty as i64,
            orientation: Orientation { theta: t },
            rotation: rot,
            ..e
        }
    } else {
        e
    }
}

/// Apply the gamepad state to the live player: thrust from the stick and
/// trigger (the heading unit vector `(dir_x, dir_y)` is resolved by the
/// caller), and, when the right stick aims, the offset, normalized
/// heading. The stick is a deflection in milli per axis, the aim an
/// angle in milli-radians.
/// Everything the gamepad mapper guarantees, from the state before the
/// call to the state after it.
pub open spec fn gamepad_mapped(
    pre: World,
    post: World,
    stick_x: i64,
    stick_y: i64,
    trigger: bool,
    dir_x: i64,
    dir_y: i64,
    aim: Option<i64>,
) -> bool {
    &&& post.wf()
    &&& post.entities@.len() == pre.entities@.len()
    &&& forall|j: int|
        0 <= j < pre.entities@.len() ==> post.entities@[j] == padded(
            #[trigger] pre.entities@[j],
            thrust_of(stick_x, stick_y, trigger, dir_x, dir_y).0,
            thrust_of(stick_x, stick_y, trigger, dir_x, dir_y).1,
            aim,
        )
    &&& post.enemy_count == pre.enemy_count
    &&& post.player == pre.player
    &&& post.pending@ == pre.pending@
}

pub fn gamepad_input_system(
    w: &mut World,
    stick_x: i64,
    stick_y: i64,
    trigger: bool,
    dir_x: i64,
    dir_y: i64,
    aim: Option<i64>,
)
    requires
        old(w).wf(),
        -1000 <= stick_x <= 1000,
        -1000 <= stick_y <= 1000,
        -1000 <= dir_x <= 1000,
        -1000 <= dir_y <= 1000,
        match aim {
            Some(t) => i64::MIN + TAU_MRAD < t < i64::MAX - TAU_MRAD,
            None => true,
        },
    ensures
        gamepad_mapped(*old(w), *final(w), stick_x, stick_y, trigger, dir_x, dir_y, aim),
{
    let tx: i64 = if trigger {
        dir_x * PRIMARY_THRUST_FACTOR
    } else {
        stick_x * SECONDARY_THRUST_FACTOR
    };
    let ty: i64 = if trigger {
        dir_y * PRIMARY_THRUST_FACTOR
    } else {
        stick_y * SECONDARY_THRUST_FACTOR
    };
    let n = w.entities.len();
    let mut i: usize = 0;
    while i < n
        invariant
            n == w.entities@.len(),
            n == old(w).entities@.len(),
            i <= n,
            tx == thrust_of(stick_x, stick_y, trigger, dir_x, dir_y).0,
            ty == thrust_of(stick_x, stick_y, trigger, dir_x, dir_y).1,
            match aim {
                Some(t) => i64::MIN + TAU_MRAD < t < i64::MAX - TAU_MRAD,
                None => true,
            },
            forall|j: int|
                0 <= j < i ==> w.entities@[j] == padded(
                    #[trigger] old(w).entities@[j],
                    tx as int,
                    ty as int,
                    aim,
                ),
            forall|j: int| i <= j < n ==> w.entities@[j] == old(w).entities@[j],
            forall|j: int| 0 <= j < n ==> (#[trigger] w.entities@[j]).wf(),
            w.enemy_count == old(w).enemy_count,
            w.enemy_count == w.enemy_census(),
            w.player == old(w).player,
            w.player.on ==> w.player_census() == 1,
            !w.player.on ==> w.player_census() == 0,
            w.pending@ == old(w).pending@,
        decreases n - i,
    {
        let e = w.entities[i];
        if e.alive && e.tags.player {
            let theta: i64;
            let rot: i64;
            match aim {
                Some(t) => {
                    let nt = normalize_heading(t - HEADING_SPRITE_OFFSET_MRAD);
                    theta = nt;
                    rot = nt;
                },
                None => {
                    theta = e.orientation.theta;
                    rot = e.rotation;
                },
            }
            let ne = Entity {
                thrust_x: tx,
                thrust_y: ty,
                orientation: Orientation { theta },
                rotation: rot,
                ..e
            };
            proof {
                assert(ne == padded(e, tx as int, ty as int, aim));
                lemma_census_update(w.entities@, |en: Entity| is_live_enemy(en), i as int, ne);
                lemma_census_update(w.entities@, |en: Entity| is_live_player(en), i as int, ne);
            }
            w.entities[i] = ne;
        }
        i = i + 1;
    }
}

} // verus!

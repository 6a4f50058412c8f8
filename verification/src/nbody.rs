//! The n-body force accumulator of the physics variant.
//!
//! For every unordered pair of live massive bodies, a gravitational-style
//! attraction `mass_a * mass_b * G / distance_squared` (scaled to be
//! visible at game scale) is resolved into axis components along the line
//! between the pair and accumulated onto both bodies with opposite signs.
//! Once per tick each body's external-force field is overwritten with the
//! single authoritative composition: its thrust contribution plus its
//! accumulated gravity. Coincident bodies (distance zero) contribute no
//! force, an explicit guard against a division by zero.

use vstd::prelude::*;
use crate::components::Entity;
use crate::fixed::POS_LIMIT;
use crate::world::{is_live_enemy, is_live_player, lemma_census_update, World};

verus! {

/// Gravity numerator: with masses in milli-kilograms and distances in
/// milli-units, the force in milli-newtons between two bodies is
/// `m_a * m_b * GRAV_MILLI / d2`. Folds the physical constant together
/// with the large game-scale multiplier.
pub const GRAV_MILLI: i64 = 66_740;

/// Largest value a pair force can take per axis, used for the machine
/// bounds: both masses at the cap and the distance at one milli-unit.
pub const PAIR_FORCE_LIMIT: i64 = 66_740_000_000_000_000;

/// Floor of the square root, as a mathematical function.
pub open spec fn sqrt_floor(n: nat) -> nat
    decreases n,
{
    if n == 0 {
        0
    } else {
        let s = sqrt_floor((n - 1) as nat);
        if (s + 1) * (s + 1) <= n {
            s + 1
        } else {
            s
        }
    }
}

/// `sqrt_floor(n)` is the unique `r` with `r * r <= n < (r + 1) * (r + 1)`.
pub proof fn lemma_sqrt_floor_bounds(n: nat)
    ensures
        sqrt_floor(n) * sqrt_floor(n) <= n,
        (sqrt_floor(n) + 1) * (sqrt_floor(n) + 1) > n,
    decreases n,
{
    if n > 0 {
        lemma_sqrt_floor_bounds((n - 1) as nat);
        let s = sqrt_floor((n - 1) as nat);
        assert(s * s <= n - 1);
        assert((s + 1) * (s + 1) > n - 1);
        if (s + 1) * (s + 1) <= n {
            assert(sqrt_floor(n) == s + 1);
            assert((s + 2) * (s + 2) > n) by (nonlinear_arith)
                requires
                    (s + 1) * (s + 1) > n - 1,
                    s >= 0,
            ;
            assert((sqrt_floor(n) + 1) * (sqrt_floor(n) + 1) == (s + 2) * (s + 2));
        } else {
            assert(sqrt_floor(n) == s);
        }
    } else {
        assert(sqrt_floor(n) == 0);
        assert(sqrt_floor(n) * sqrt_floor(n) <= n && (sqrt_floor(n) + 1) * (sqrt_floor(n) + 1)
            > n) by (nonlinear_arith)
            requires
                sqrt_floor(n) == 0 && n == 0,
        ;
    }
}

/// Any `r` inside the square-root window equals `sqrt_floor(n)`.
pub proof fn lemma_sqrt_floor_unique(n: nat, r: nat)
    requires
        r * r <= n,
        (r + 1) * (r + 1) > n,
    ensures
        r == sqrt_floor(n),
{
    lemma_sqrt_floor_bounds(n);
    let s = sqrt_floor(n);
    if r < s {
        assert((r + 1) * (r + 1) <= s * s) by (nonlinear_arith)
            requires
                r + 1 <= s,
                r >= 0,
        ;
    }
    if s < r {
        assert((s + 1) * (s + 1) <= r * r) by (nonlinear_arith)
            requires
                s + 1 <= r,
                s >= 0,
        ;
    }
}

/// Floor of the square root, by bisection.
pub fn isqrt_u128(n: u128) -> (r: u128)
    ensures
        r == sqrt_floor(n as nat),
        r * r <= n,
        (r + 1) * (r + 1) > n,
{
    let mut lo: u128 = 0;
    let mut hi: u128 = 18_446_744_073_709_551_616;  // 2^64: (2^64)^2 exceeds any u128
    proof {
        assert((hi as int) * (hi as int) > n) by (nonlinear_arith)
            requires
                hi == 18_446_744_073_709_551_616u128 && n <= u128::MAX,
        ;
    }
    while hi - lo > 1
        invariant
            0 <= lo < hi,
            hi <= 18_446_744_073_709_551_616,
            (lo as int) * (lo as int) <= n as int,
            (hi as int) * (hi as int) > n as int,
        decreases hi - lo,
    {
        let mid: u128 = lo + (hi - lo) / 2;
        proof {
            assert((mid as int) * (mid as int) <= (u128::MAX) as int) by (nonlinear_arith)
                requires
                    0 <= mid < 18_446_744_073_709_551_616u128,
            ;
        }
        let sq: u128 = mid * mid;
        if sq <= n {
            lo = mid;
        } else {
            hi = mid;
        }
    }
    proof {
        lemma_sqrt_floor_unique(n as nat, lo as nat);
    }
    lo
}

/// The fields of one record that the force formulas read.
pub struct BodyView {
    pub x: int,
    pub y: int,
    pub m: int,
}

/// Read a record's position and mass as a body.
pub open spec fn body_view(e: Entity) -> BodyView {
    BodyView { x: e.x as int, y: e.y as int, m: e.mass as int }
}

/// A record the force accumulator visits: live and carrying mass.
pub open spec fn is_body(e: Entity) -> bool {
    e.alive && e.mass > 0
}

/// Magnitude of the attraction between two bodies, in milli-newtons:
/// zero for coincident bodies.
pub open spec fn pair_force_mag(a: BodyView, b: BodyView) -> int {
    let dx = a.x - b.x;
    let dy = a.y - b.y;
    let d2 = dx * dx + dy * dy;
    if d2 == 0 {
        0
    } else {
        (a.m * b.m * GRAV_MILLI) / d2
    }
}

/// Axis component along `u` of the force `b` exerts on `a`: the
/// magnitude resolved by the ratio of the axis delta to the distance,
/// signed toward `b`.
pub open spec fn pair_comp(u_delta: int, d2: int, f: int) -> int {
    if d2 == 0 {
        0
    } else {
        let d = sqrt_floor(d2 as nat) as int;
        let mag = (f * (if u_delta >= 0 {
            u_delta
        } else {
            -u_delta
        })) / d;
        if u_delta >= 0 {
            -mag
        } else {
            mag
        }
    }
}

/// X component of the force `b` exerts on `a`.
pub open spec fn pair_fx(a: BodyView, b: BodyView) -> int {
    let dx = a.x - b.x;
    let dy = a.y - b.y;
    pair_comp(dx, dx * dx + dy * dy, pair_force_mag(a, b))
}

/// Y component of the force `b` exerts on `a`.
pub open spec fn pair_fy(a: BodyView, b: BodyView) -> int {
    let dx = a.x - b.x;
    let dy = a.y - b.y;
    pair_comp(dy, dx * dx + dy * dy, pair_force_mag(a, b))
}

/// Sign antisymmetry of one axis component: negating the axis delta
/// negates the component.
pub proof fn lemma_pair_comp_antisym(u: int, d2: int, f: int)
    requires
        d2 >= 0,
    ensures
        pair_comp(-u, d2, f) == -pair_comp(u, d2, f),
{
    if d2 != 0 {
        lemma_sqrt_floor_bounds(d2 as nat);
        let d = sqrt_floor(d2 as nat) as int;
        assert(d >= 1) by (nonlinear_arith)
            requires
                d >= 0 && (d + 1) * (d + 1) > d2 && d2 >= 1,
        ;
        if u == 0 {
            assert(f * 0 == 0) by (nonlinear_arith);
            assert(0int / d == 0) by {
                vstd::arithmetic::div_mod::lemma_basic_div(0, d);
            }
        } else if u > 0 {
            assert(f * (-(-u)) == f * u) by (nonlinear_arith);
        }
    }
}

/// Newton's third law, exactly: the force `a` exerts on `b` is the
/// negation of the force `b` exerts on `a`, component by component.
pub proof fn lemma_pair_antisymmetric(a: BodyView, b: BodyView)
    ensures
        pair_fx(b, a) == -pair_fx(a, b),
        pair_fy(b, a) == -pair_fy(a, b),
{
    let dx = a.x - b.x;
    let dy = a.y - b.y;
    let d2 = dx * dx + dy * dy;
    let d2r = (b.x - a.x) * (b.x - a.x) + (b.y - a.y) * (b.y - a.y);
    assert(d2 >= 0 && d2r == d2) by (nonlinear_arith)
        requires
            d2 == (a.x - b.x) * (a.x - b.x) + (a.y - b.y) * (a.y - b.y) && d2r == (b.x - a.x) * (
            b.x - a.x) + (b.y - a.y) * (b.y - a.y),
    ;
    assert(b.m * a.m * GRAV_MILLI == a.m * b.m * GRAV_MILLI) by (nonlinear_arith);
    assert(pair_force_mag(b, a) == pair_force_mag(a, b));
    let f = pair_force_mag(a, b);
    assert(pair_fx(b, a) == pair_comp(-dx, d2, f));
    assert(pair_fy(b, a) == pair_comp(-dy, d2, f));
    lemma_pair_comp_antisym(dx, d2, f);
    lemma_pair_comp_antisym(dy, d2, f);
}

/// Compute the force `b` exerts on `a`, exactly as the spec states it.
pub fn pair_force(a: &Entity, b: &Entity) -> (r: (i64, i64))
    requires
        a.wf(),
        b.wf(),
    ensures
        r.0 == pair_fx(body_view(*a), body_view(*b)),
        r.1 == pair_fy(body_view(*a), body_view(*b)),
        -PAIR_FORCE_LIMIT <= r.0 <= PAIR_FORCE_LIMIT,
        -PAIR_FORCE_LIMIT <= r.1 <= PAIR_FORCE_LIMIT,
{
    let dx: i64 = a.x - b.x;
    let dy: i64 = a.y - b.y;
    let dx128: i128 = dx as i128;
    let dy128: i128 = dy as i128;
    proof {
        assert(0 <= dx128 * dx128 <= 4_000_000_000_000_000_000_000_000_000_000 && 0 <= dy128
            * dy128 <= 4_000_000_000_000_000_000_000_000_000_000) by (nonlinear_arith)
            requires
                -2_000_000_000_000_000 <= dx128 <= 2_000_000_000_000_000
                    && -2_000_000_000_000_000 <= dy128 <= 2_000_000_000_000_000,
        ;
    }
    let d2: i128 = dx128 * dx128 + dy128 * dy128;
    if d2 == 0 {
        proof {
            assert(pair_comp(dx as int, d2 as int, pair_force_mag(body_view(*a), body_view(*b)))
                == 0);
        }
        return (0, 0);
    }
    proof {
        assert(0 <= (a.mass as i128) * (b.mass as i128) <= 1_000_000_000_000) by (nonlinear_arith)
            requires
                0 <= a.mass <= 1_000_000 && 0 <= b.mass <= 1_000_000,
        ;
        assert(0 <= (a.mass as i128) * (b.mass as i128) * (GRAV_MILLI as i128)
            <= 66_740_000_000_000_000) by (nonlinear_arith)
            requires
                0 <= (a.mass as i128) * (b.mass as i128) <= 1_000_000_000_000,
        ;
    }
    let mprod: i128 = (a.mass as i128) * (b.mass as i128) * (GRAV_MILLI as i128);
    let f: i128 = mprod / d2;
    proof {
        vstd::arithmetic::div_mod::lemma_div_pos_is_pos(mprod as int, d2 as int);
        vstd::arithmetic::div_mod::lemma_div_nonincreasing(mprod as int, d2 as int);
        assert(0 <= f <= 66_740_000_000_000_000);
    }
    let dsq: u128 = isqrt_u128(d2 as u128);
    proof {
        // bodies a positive distance apart
        if dsq == 0 {
            assert(false) by (nonlinear_arith)
                requires
                    dsq == 0 && (dsq as int + 1) * (dsq as int + 1) > d2 as int && d2 >= 1,
            ;
        }
        assert(dsq <= 4_000_000_000_000_000) by (nonlinear_arith)
            requires
                dsq as int * (dsq as int) <= 8_000_000_000_000_000_000_000_000_000_000 && dsq
                    >= 1,
        ;
    }
    let d: i128 = dsq as i128;
    let adx: i128 = if dx128 >= 0 {
        dx128
    } else {
        -dx128
    };
    let ady: i128 = if dy128 >= 0 {
        dy128
    } else {
        -dy128
    };
    proof {
        assert(adx * adx == dx128 * dx128 && ady * ady == dy128 * dy128) by (nonlinear_arith)
            requires
                (adx == dx128 || adx == -dx128) && (ady == dy128 || ady == -dy128),
        ;
        // each axis delta is at most the distance
        assert(adx <= d && ady <= d) by (nonlinear_arith)
            requires
                adx >= 0 && ady >= 0 && d >= 1 && (d + 1) * (d + 1) > d2 && d2 == adx * adx + ady
                    * ady,
        ;
        assert(0 <= f * adx <= 266_960_000_000_000_000_000_000_000_000_000 && 0 <= f * ady
            <= 266_960_000_000_000_000_000_000_000_000_000) by (nonlinear_arith)
            requires
                0 <= f <= 66_740_000_000_000_000 && 0 <= adx <= 4_000_000_000_000_000 && 0 <= ady
                    <= 4_000_000_000_000_000,
        ;
    }
    let magx: i128 = (f * adx) / d;
    let magy: i128 = (f * ady) / d;
    proof {
        vstd::arithmetic::div_mod::lemma_div_pos_is_pos((f * adx) as int, d as int);
        vstd::arithmetic::div_mod::lemma_div_pos_is_pos((f * ady) as int, d as int);
        assert(f * adx <= f * d && f * ady <= f * d) by (nonlinear_arith)
            requires
                0 <= f && adx <= d && ady <= d,
        ;
        vstd::arithmetic::div_mod::lemma_div_is_ordered((f * adx) as int, (f * (d as int)) as int, d as int);
        vstd::arithmetic::div_mod::lemma_div_is_ordered((f * ady) as int, (f * (d as int)) as int, d as int);
        vstd::arithmetic::div_mod::lemma_div_by_multiple(f as int, d as int);
        assert(0 <= magx <= f && 0 <= magy <= f);
    }
    let fx: i64 = if dx >= 0 {
        -(magx as i64)
    } else {
        magx as i64
    };
    let fy: i64 = if dy >= 0 {
        -(magy as i64)
    } else {
        magy as i64
    };
    (fx, fy)
}


/// Accumulated gravity along x on the record at `i` from the bodies
/// before `k`, in store order.
pub open spec fn net_fx_upto(s: Seq<Entity>, i: int, k: int) -> int
    decreases k,
{
    if k <= 0 {
        0
    } else {
        net_fx_upto(s, i, k - 1) + (if k - 1 != i && is_body(s[k - 1]) {
            pair_fx(body_view(s[i]), body_view(s[k - 1]))
        } else {
            0
        })
    }
}

/// Accumulated gravity along y, as [`net_fx_upto`].
pub open spec fn net_fy_upto(s: Seq<Entity>, i: int, k: int) -> int
    decreases k,
{
    if k <= 0 {
        0
    } else {
        net_fy_upto(s, i, k - 1) + (if k - 1 != i && is_body(s[k - 1]) {
            pair_fy(body_view(s[i]), body_view(s[k - 1]))
        } else {
            0
        })
    }
}

/// Net gravity on the record at `i` from every other body in the store.
pub open spec fn net_fx(s: Seq<Entity>, i: int) -> int {
    net_fx_upto(s, i, s.len() as int)
}

pub open spec fn net_fy(s: Seq<Entity>, i: int) -> int {
    net_fy_upto(s, i, s.len() as int)
}

/// Saturate an unbounded force into the machine range.
pub open spec fn sat_i64(v: int) -> int {
    if v > i64::MAX {
        i64::MAX as int
    } else if v < i64::MIN {
        i64::MIN as int
    } else {
        v
    }
}

/// What the accumulator writes to the record at `j`: for a body, the
/// external-force field becomes thrust plus accumulated gravity (the one
/// authoritative composition of the tick); everything else is untouched.
pub open spec fn forced(s: Seq<Entity>, j: int) -> Entity {
    let e = s[j];
    if is_body(e) {
        Entity {
            force_x: sat_i64(e.thrust_x + net_fx(s, j)) as i64,
            force_y: sat_i64(e.thrust_y + net_fy(s, j)) as i64,
            ..e
        }
    } else {
        e
    }
}

/// For every unordered pair of live massive bodies, accumulate the pair
/// attraction onto both with opposite signs, and overwrite each body's
/// external-force field with its thrust plus its accumulated gravity.
pub fn apply_gravitational_forces(w: &mut World)
    requires
        old(w).wf(),
    ensures
        final(w).wf(),
        final(w).entities@.len() == old(w).entities@.len(),
        forall|j: int|
            #![trigger final(w).entities@[j]]
            0 <= j < old(w).entities@.len() ==> final(w).entities@[j] == forced(
                old(w).entities@,
                j,
            ),
        final(w).enemy_count == old(w).enemy_count,
        final(w).player == old(w).player,
        final(w).pending@ == old(w).pending@,
{
    let ghost s0 = w.entities@;
    let n = w.entities.len();
    let mut i: usize = 0;
    while i < n
        invariant
            n == w.entities@.len(),
            s0 == old(w).entities@,
            n == s0.len(),
            i <= n,
            old(w).wf(),
            forall|j: int|
                #![trigger w.entities@[j]]
                0 <= j < i ==> w.entities@[j] == forced(s0, j),
            forall|j: int| i <= j < n ==> w.entities@[j] == s0[j],
            forall|j: int| 0 <= j < n ==> (#[trigger] w.entities@[j]).wf(),
            w.enemy_count == old(w).enemy_count,
            w.enemy_count == w.enemy_census(),
            w.player == old(w).player,
            w.player.on ==> w.player_census() == 1,
            !w.player.on ==> w.player_census() == 0,
            w.pending@ == old(w).pending@,
        decreases n - i,
    {
        let e = w.entities[i];
        if e.alive && e.mass > 0 {
            let mut ax: i128 = e.thrust_x as i128;
            let mut ay: i128 = e.thrust_y as i128;
            let mut j: usize = 0;
            while j < n
                invariant
                    n == w.entities@.len(),
                    s0 == old(w).entities@,
                    n == s0.len(),
                    i < n,
                    j <= n,
                    old(w).wf(),
                    e == w.entities@[i as int],
                    e == s0[i as int],
                    forall|k: int|
                        #![trigger w.entities@[k]]
                        0 <= k < i ==> w.entities@[k] == forced(s0, k),
                    forall|k: int| i <= k < n ==> w.entities@[k] == s0[k],
                    forall|k: int| 0 <= k < n ==> (#[trigger] w.entities@[k]).wf(),
                    ax == e.thrust_x + net_fx_upto(s0, i as int, j as int),
                    ay == e.thrust_y + net_fy_upto(s0, i as int, j as int),
                    i64::MIN - j * PAIR_FORCE_LIMIT <= ax <= i64::MAX + j * PAIR_FORCE_LIMIT,
                    i64::MIN - j * PAIR_FORCE_LIMIT <= ay <= i64::MAX + j * PAIR_FORCE_LIMIT,
                decreases n - j,
            {
                if j != i {
                    let o = w.entities[j];
                    if o.alive && o.mass > 0 {
                        proof {
                            // earlier writes touched only force fields, so
                            // the body view of `o` is that of the start state
                            assert(body_view(o) == body_view(s0[j as int]));
                            assert(is_body(s0[j as int]));
                        }
                        let f = pair_force(&e, &o);
                        proof {
                            assert(pair_fx(body_view(e), body_view(o)) == pair_fx(
                                body_view(s0[i as int]),
                                body_view(s0[j as int]),
                            ));
                            assert(pair_fy(body_view(e), body_view(o)) == pair_fy(
                                body_view(s0[i as int]),
                                body_view(s0[j as int]),
                            ));
                        }
                        ax = ax + (f.0 as i128);
                        ay = ay + (f.1 as i128);
                    } else {
                        proof {
                            assert(!is_body(s0[j as int]));
                        }
                    }
                }
                j = j + 1;
            }
            let fx: i64 = if ax > (i64::MAX as i128) {
                i64::MAX
            } else if ax < (i64::MIN as i128) {
                i64::MIN
            } else {
                ax as i64
            };
            let fy: i64 = if ay > (i64::MAX as i128) {
                i64::MAX
            } else if ay < (i64::MIN as i128) {
                i64::MIN
            } else {
                ay as i64
            };
            let ne = Entity { force_x: fx, force_y: fy, ..e };
            proof {
                assert(ne == forced(s0, i as int));
                lemma_census_update(w.entities@, |en: Entity| is_live_enemy(en), i as int, ne);
                lemma_census_update(w.entities@, |en: Entity| is_live_player(en), i as int, ne);
            }
            w.entities[i] = ne;
        } else {
            proof {
                assert(w.entities@[i as int] == forced(s0, i as int));
            }
        }
        i = i + 1;
    }
}


/// Sum, over the bodies before `k` other than `m`, of the x force each
/// exerts on the record at `m`.
pub open spec fn col_fx(s: Seq<Entity>, m: int, k: int) -> int
    decreases k,
{
    if k <= 0 {
        0
    } else {
        col_fx(s, m, k - 1) + (if k - 1 != m && is_body(s[k - 1]) {
            pair_fx(body_view(s[k - 1]), body_view(s[m]))
        } else {
            0
        })
    }
}

pub open spec fn col_fy(s: Seq<Entity>, m: int, k: int) -> int
    decreases k,
{
    if k <= 0 {
        0
    } else {
        col_fy(s, m, k - 1) + (if k - 1 != m && is_body(s[k - 1]) {
            pair_fy(body_view(s[k - 1]), body_view(s[m]))
        } else {
            0
        })
    }
}

/// What the bodies before `k` receive from `m` is the negation of what
/// they exert on `m`: antisymmetry summed.
proof fn lemma_col_is_neg_net(s: Seq<Entity>, m: int, k: int)
    ensures
        col_fx(s, m, k) == -net_fx_upto(s, m, k),
        col_fy(s, m, k) == -net_fy_upto(s, m, k),
    decreases k,
{
    if k > 0 {
        lemma_col_is_neg_net(s, m, k - 1);
        if k - 1 != m && is_body(s[k - 1]) {
            lemma_pair_antisymmetric(body_view(s[m]), body_view(s[k - 1]));
        }
    }
}

/// Sum, over the bodies before `k`, of each body's accumulated gravity
/// from the bodies before `m`.
pub open spec fn sum_net_fx(s: Seq<Entity>, k: int, m: int) -> int
    decreases k,
{
    if k <= 0 {
        0
    } else {
        sum_net_fx(s, k - 1, m) + (if is_body(s[k - 1]) {
            net_fx_upto(s, k - 1, m)
        } else {
            0
        })
    }
}

pub open spec fn sum_net_fy(s: Seq<Entity>, k: int, m: int) -> int
    decreases k,
{
    if k <= 0 {
        0
    } else {
        sum_net_fy(s, k - 1, m) + (if is_body(s[k - 1]) {
            net_fy_upto(s, k - 1, m)
        } else {
            0
        })
    }
}

/// Widening the inner range by one adds exactly the forces that the body
/// at `m` exerts on the bodies before `k`.
proof fn lemma_sum_net_widen(s: Seq<Entity>, k: int, m: int)
    requires
        0 <= m,
    ensures
        sum_net_fx(s, k, m + 1) == sum_net_fx(s, k, m) + (if is_body(s[m]) {
            col_fx(s, m, k)
        } else {
            0
        }),
        sum_net_fy(s, k, m + 1) == sum_net_fy(s, k, m) + (if is_body(s[m]) {
            col_fy(s, m, k)
        } else {
            0
        }),
    decreases k,
{
    if k > 0 {
        lemma_sum_net_widen(s, k - 1, m);
    }
}

/// Growing both ranges together changes nothing: the forces the new body
/// receives cancel the forces it exerts.
proof fn lemma_sum_net_step(s: Seq<Entity>, k: int)
    requires
        0 <= k,
    ensures
        sum_net_fx(s, k + 1, k + 1) == sum_net_fx(s, k, k),
        sum_net_fy(s, k + 1, k + 1) == sum_net_fy(s, k, k),
{
    lemma_sum_net_widen(s, k, k);
    lemma_col_is_neg_net(s, k, k);
    assert(net_fx_upto(s, k, k + 1) == net_fx_upto(s, k, k));
    assert(net_fy_upto(s, k, k + 1) == net_fy_upto(s, k, k));
}

proof fn lemma_sum_net_zero(s: Seq<Entity>, k: int)
    requires
        0 <= k,
    ensures
        sum_net_fx(s, k, k) == 0,
        sum_net_fy(s, k, k) == 0,
    decreases k,
{
    if k > 0 {
        lemma_sum_net_zero(s, k - 1);
        lemma_sum_net_step(s, k - 1);
    }
}

/// Momentum balance of the accumulator: over any store, the accumulated
/// gravity vectors of all bodies sum to the zero vector, exactly. In
/// particular two bodies of equal mass at symmetric positions receive
/// equal-magnitude, oppositely-directed forces.
pub proof fn lemma_forces_balance(s: Seq<Entity>)
    ensures
        sum_net_fx(s, s.len() as int, s.len() as int) == 0,
        sum_net_fy(s, s.len() as int, s.len() as int) == 0,
{
    lemma_sum_net_zero(s, s.len() as int);
}

/// The two-body case of the balance, stated directly: each body's net
/// gravity is the exact negation of the other's.
pub proof fn lemma_two_bodies_opposed(s: Seq<Entity>)
    requires
        s.len() == 2,
        is_body(s[0]),
        is_body(s[1]),
    ensures
        net_fx(s, 0) == -net_fx(s, 1),
        net_fy(s, 0) == -net_fy(s, 1),
{
    assert(net_fx_upto(s, 0, 0) == 0);
    assert(net_fy_upto(s, 0, 0) == 0);
    assert(net_fx_upto(s, 1, 0) == 0);
    assert(net_fy_upto(s, 1, 0) == 0);
    assert(net_fx_upto(s, 0, 1) == 0);
    assert(net_fx_upto(s, 0, 2) == pair_fx(body_view(s[0]), body_view(s[1])));
    assert(net_fy_upto(s, 0, 1) == 0);
    assert(net_fy_upto(s, 0, 2) == pair_fy(body_view(s[0]), body_view(s[1])));
    assert(net_fx_upto(s, 1, 1) == pair_fx(body_view(s[1]), body_view(s[0])));
    assert(net_fx_upto(s, 1, 2) == net_fx_upto(s, 1, 1));
    assert(net_fy_upto(s, 1, 1) == pair_fy(body_view(s[1]), body_view(s[0])));
    assert(net_fy_upto(s, 1, 2) == net_fy_upto(s, 1, 1));
    lemma_pair_antisymmetric(body_view(s[0]), body_view(s[1]));
}


/// Magnitude of the fixed pull toward the origin, in milli-newtons.
pub const CENTRAL_PULL_MILLI: i64 = 10_000;

/// X component of the fixed-magnitude pull toward the origin felt at a
/// position.
pub open spec fn central_fx(x: int, y: int) -> int {
    pair_comp(x, x * x + y * y, CENTRAL_PULL_MILLI as int)
}

pub open spec fn central_fy(x: int, y: int) -> int {
    pair_comp(y, x * x + y * y, CENTRAL_PULL_MILLI as int)
}

/// What the central pull writes to the record at `j`: a body away from
/// the origin has its external force overwritten with the pull toward
/// the origin; a body at the origin, and everything else, is untouched.
pub open spec fn centered(s: Seq<Entity>, j: int) -> Entity {
    let e = s[j];
    if is_body(e) && e.x * e.x + e.y * e.y != 0 {
        Entity {
            force_x: central_fx(e.x as int, e.y as int) as i64,
            force_y: central_fy(e.x as int, e.y as int) as i64,
            ..e
        }
    } else {
        e
    }
}

/// The pull toward the origin felt at `(x, y)`, exactly as the spec
/// states it.
pub fn central_force(x: i64, y: i64) -> (r: (i64, i64))
    requires
        -POS_LIMIT <= x <= POS_LIMIT,
        -POS_LIMIT <= y <= POS_LIMIT,
    ensures
        r.0 == central_fx(x as int, y as int),
        r.1 == central_fy(x as int, y as int),
{
    let x128: i128 = x as i128;
    let y128: i128 = y as i128;
    proof {
        assert(0 <= x128 * x128 <= 1_000_000_000_000_000_000_000_000_000_000 && 0 <= y128 * y128
            <= 1_000_000_000_000_000_000_000_000_000_000) by (nonlinear_arith)
            requires
                -1_000_000_000_000_000 <= x128 <= 1_000_000_000_000_000 && -1_000_000_000_000_000
                    <= y128 <= 1_000_000_000_000_000,
        ;
    }
    let d2: i128 = x128 * x128 + y128 * y128;
    if d2 == 0 {
        return (0, 0);
    }
    let dsq: u128 = isqrt_u128(d2 as u128);
    proof {
        if dsq == 0 {
            assert(false) by (nonlinear_arith)
                requires
                    dsq == 0 && (dsq as int + 1) * (dsq as int + 1) > d2 as int && d2 >= 1,
            ;
        }
        assert(dsq <= 2_000_000_000_000_000) by (nonlinear_arith)
            requires
                dsq as int * (dsq as int) <= 2_000_000_000_000_000_000_000_000_000_000 && dsq
                    >= 1,
        ;
    }
    let d: i128 = dsq as i128;
    let ax: i128 = if x128 >= 0 {
        x128
    } else {
        -x128
    };
    let ay: i128 = if y128 >= 0 {
        y128
    } else {
        -y128
    };
    let f: i128 = CENTRAL_PULL_MILLI as i128;
    proof {
        assert(ax * ax == x128 * x128 && ay * ay == y128 * y128) by (nonlinear_arith)
            requires
                (ax == x128 || ax == -x128) && (ay == y128 || ay == -y128),
        ;
        assert(ax <= d && ay <= d) by (nonlinear_arith)
            requires
                ax >= 0 && ay >= 0 && d >= 1 && (d + 1) * (d + 1) > d2 && d2 == ax * ax + ay * ay,
        ;
        assert(0 <= f * ax <= 20_000_000_000_000_000_000 && 0 <= f * ay
            <= 20_000_000_000_000_000_000) by (nonlinear_arith)
            requires
                f == 10_000 && 0 <= ax <= 2_000_000_000_000_000 && 0 <= ay
                    <= 2_000_000_000_000_000,
        ;
    }
    let magx: i128 = (f * ax) / d;
    let magy: i128 = (f * ay) / d;
    proof {
        vstd::arithmetic::div_mod::lemma_div_pos_is_pos((f * ax) as int, d as int);
        vstd::arithmetic::div_mod::lemma_div_pos_is_pos((f * ay) as int, d as int);
        assert(f * ax <= f * d && f * ay <= f * d) by (nonlinear_arith)
            requires
                0 <= f && ax <= d && ay <= d,
        ;
        vstd::arithmetic::div_mod::lemma_div_is_ordered((f * ax) as int, (f * (d as int)) as int, d as int);
        vstd::arithmetic::div_mod::lemma_div_is_ordered((f * ay) as int, (f * (d as int)) as int, d as int);
        vstd::arithmetic::div_mod::lemma_div_by_multiple(f as int, d as int);
        assert(0 <= magx <= f && 0 <= magy <= f);
    }
    let fx: i64 = if x >= 0 {
        -(magx as i64)
    } else {
        magx as i64
    };
    let fy: i64 = if y >= 0 {
        -(magy as i64)
    } else {
        magy as i64
    };
    (fx, fy)
}

/// Overwrite every body's external force with a fixed-magnitude pull
/// toward the origin, guarding a body exactly at the origin. A
/// standalone alternative to the pairwise accumulator.
pub fn apply_central_gravity(w: &mut World)
    requires
        old(w).wf(),
    ensures
        final(w).wf(),
        final(w).entities@.len() == old(w).entities@.len(),
        forall|j: int|
            #![trigger final(w).entities@[j]]
            0 <= j < old(w).entities@.len() ==> final(w).entities@[j] == centered(
                old(w).entities@,
                j,
            ),
        final(w).enemy_count == old(w).enemy_count,
        final(w).player == old(w).player,
        final(w).pending@ == old(w).pending@,
{
    let ghost s0 = w.entities@;
    let n = w.entities.len();
    let mut i: usize = 0;
    while i < n
        invariant
            n == w.entities@.len(),
            s0 == old(w).entities@,
            n == s0.len(),
            i <= n,
            old(w).wf(),
            forall|j: int|
                #![trigger w.entities@[j]]
                0 <= j < i ==> w.entities@[j] == centered(s0, j),
            forall|j: int| i <= j < n ==> w.entities@[j] == s0[j],
            forall|j: int| 0 <= j < n ==> (#[trigger] w.entities@[j]).wf(),
            w.enemy_count == old(w).enemy_count,
            w.enemy_count == w.enemy_census(),
            w.player == old(w).player,
            w.player.on ==> w.player_census() == 1,
            !w.player.on ==> w.player_census() == 0,
            w.pending@ == old(w).pending@,
        decreases n - i,
    {
        let e = w.entities[i];
        if e.alive && e.mass > 0 {
            let f = central_force(e.x, e.y);
            let d2_zero: bool = e.x == 0 && e.y == 0;
            proof {
                assert((e.x as int) * (e.x as int) + (e.y as int) * (e.y as int) == 0 <==> (e.x
                    == 0 && e.y == 0)) by (nonlinear_arith);
            }
            if !d2_zero {
                let ne = Entity { force_x: f.0, force_y: f.1, ..e };
                proof {
                    assert(ne == centered(s0, i as int));
                    lemma_census_update(
                        w.entities@,
                        |en: Entity| is_live_enemy(en),
                        i as int,
                        ne,
                    );
                    lemma_census_update(
                        w.entities@,
                        |en: Entity| is_live_player(en),
                        i as int,
                        ne,
                    );
                }
                w.entities[i] = ne;
            } else {
                proof {
                    assert(w.entities@[i as int] == centered(s0, i as int));
                }
            }
        } else {
            proof {
                assert(w.entities@[i as int] == centered(s0, i as int));
            }
        }
        i = i + 1;
    }
}


/// The archetype of a free rigid body of the physics variant: massive,
/// at a position, with no tags and no force yet.
pub open spec fn body_entity(x: i64, y: i64, mass: i64) -> Entity {
    Entity { alive: true, x, y, mass, ..Entity::blank_spec() }
}

/// Add one massive body to the store, as the physics scene setup does
/// for each ball or box it lays out.
pub fn spawn_body(w: &mut World, x: i64, y: i64, mass: i64) -> (h: usize)
    requires
        old(w).wf(),
        -POS_LIMIT <= x <= POS_LIMIT,
        -POS_LIMIT <= y <= POS_LIMIT,
        0 <= mass <= crate::components::MASS_LIMIT,
        old(w).entities@.len() < u32::MAX as usize,
    ensures
        final(w).wf(),
        h == old(w).entities@.len(),
        final(w).entities@ == old(w).entities@.push(body_entity(x, y, mass)),
        final(w).enemy_count == old(w).enemy_count,
        final(w).player == old(w).player,
        final(w).pending@ == old(w).pending@,
{
    let e = Entity { alive: true, x, y, mass, ..Entity::blank() };
    proof {
        assert(e == body_entity(x, y, mass));
    }
    w.spawn(e)
}

} // verus!

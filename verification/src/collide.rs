//! Axis-aligned bounding-box overlap between two sprites.
//!
//! Two boxes overlap when, on each axis, the distance between their centres
//! is strictly below the sum of their scaled half-extents:
//! `|dx| < (halfwidth_a + halfwidth_b)` and `|dy| < (halfheight_a + halfheight_b)`.
//! A sprite's half-extent is half its stored size times its transform scale.
//! With sizes and scales both in milli, the half-extent sum in milli-units
//! is `(w_a * s_a + w_b * s_b) / 2000`; the test multiplies through instead
//! of dividing, so it is exact.

use vstd::prelude::*;
use crate::components::Entity;
use crate::fixed::POS_LIMIT;

verus! {

/// Absolute value of the difference, as a mathematical integer.
pub open spec fn abs_diff(a: int, b: int) -> int {
    if a >= b {
        a - b
    } else {
        b - a
    }
}

/// The overlap predicate on raw fields: centre positions in milli-units,
/// full sizes in milli-units, transform scales in milli.
pub open spec fn aabb_overlap(
    ax: int,
    ay: int,
    aw: int,
    ah: int,
    asc: int,
    bx: int,
    by: int,
    bw: int,
    bh: int,
    bsc: int,
) -> bool {
    &&& 2000 * abs_diff(ax, bx) < aw * asc + bw * bsc
    &&& 2000 * abs_diff(ay, by) < ah * asc + bh * bsc
}

/// Overlap of two entities' scaled sprite bounding boxes.
pub open spec fn hits(a: Entity, b: Entity) -> bool {
    aabb_overlap(
        a.x as int,
        a.y as int,
        a.size.w as int,
        a.size.h as int,
        a.scale as int,
        b.x as int,
        b.y as int,
        b.size.w as int,
        b.size.h as int,
        b.scale as int,
    )
}

/// Decide whether the scaled bounding boxes of `a` and `b` overlap.
pub fn collide(a: &Entity, b: &Entity) -> (r: bool)
    requires
        a.wf(),
        b.wf(),
    ensures
        r == hits(*a, *b),
{
    let dx: i64 = if a.x >= b.x {
        a.x - b.x
    } else {
        b.x - a.x
    };
    let dy: i64 = if a.y >= b.y {
        a.y - b.y
    } else {
        b.y - a.y
    };
    proof {
        assert(a.size.w * a.scale <= 1_000_000_000_000 && a.size.w * a.scale >= 0)
            by (nonlinear_arith)
            requires
                0 <= a.size.w <= 1_000_000 && 0 <= a.scale <= 1_000_000,
        ;
        assert(a.size.h * a.scale <= 1_000_000_000_000 && a.size.h * a.scale >= 0)
            by (nonlinear_arith)
            requires
                0 <= a.size.h <= 1_000_000 && 0 <= a.scale <= 1_000_000,
        ;
        assert(b.size.w * b.scale <= 1_000_000_000_000 && b.size.w * b.scale >= 0)
            by (nonlinear_arith)
            requires
                0 <= b.size.w <= 1_000_000 && 0 <= b.scale <= 1_000_000,
        ;
        assert(b.size.h * b.scale <= 1_000_000_000_000 && b.size.h * b.scale >= 0)
            by (nonlinear_arith)
            requires
                0 <= b.size.h <= 1_000_000 && 0 <= b.scale <= 1_000_000,
        ;
        assert(dx <= 2 * POS_LIMIT && dy <= 2 * POS_LIMIT);
    }
    let wsum: i64 = a.size.w * a.scale + b.size.w * b.scale;
    let hsum: i64 = a.size.h * a.scale + b.size.h * b.scale;
    2000 * dx < wsum && 2000 * dy < hsum
}

} // verus!

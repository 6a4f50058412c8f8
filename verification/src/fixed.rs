//! Fixed-point arithmetic helpers shared by the simulation systems.
//!
//! Distances are in milli-units (1000 = one world unit), time in
//! microseconds, masses in milli-kilograms. The helpers here pin down the
//! exact integer semantics, truncating division and clamping, that the
//! system contracts are stated over.

use vstd::prelude::*;

verus! {

/// One second expressed in microseconds.
pub const MICROS_PER_SEC: i64 = 1_000_000;

/// Largest magnitude a stored coordinate may take, in milli-units.
/// Keeps every product that the collision and force formulas build inside
/// the machine range.
pub const POS_LIMIT: i64 = 1_000_000_000_000_000;

/// Largest timestamp the simulation clock may reach, in microseconds
/// (about 126 years). Keeps every cooldown comparison free of overflow.
pub const TIME_LIMIT_US: i64 = 4_000_000_000_000_000;

/// Division that truncates toward zero, the behaviour of `/` on the
/// machine integers, defined here for non-zero positive divisors.
pub open spec fn div_trunc(a: int, b: int) -> int
    recommends
        b > 0,
{
    if a >= 0 {
        a / b
    } else {
        -((-a) / b)
    }
}

/// Clamp `a` into `[-POS_LIMIT, POS_LIMIT]`.
pub open spec fn clamp_pos(a: int) -> int {
    if a > POS_LIMIT {
        POS_LIMIT as int
    } else if a < -POS_LIMIT {
        -POS_LIMIT as int
    } else {
        a
    }
}

/// Exact displacement of one integration step: `v * speed * tick / 1s`,
/// truncated toward zero. `v` is a direction rate in milli-units, `speed`
/// a global scale in units per second, `tick_us` the step in microseconds.
pub open spec fn step_delta(v: int, speed: int, tick_us: int) -> int {
    div_trunc(v * speed * tick_us, MICROS_PER_SEC as int)
}

/// Clamp a sum into the coordinate range.
pub fn clamp_pos_i64(a: i64) -> (r: i64)
    ensures
        r == clamp_pos(a as int),
{
    if a > POS_LIMIT {
        POS_LIMIT
    } else if a < -POS_LIMIT {
        -POS_LIMIT
    } else {
        a
    }
}

/// Exact integration step in milli-units, `step_delta` made executable.
pub fn scaled_step(v: i64, speed: i64, tick_us: i64) -> (r: i64)
    requires
        -1_000_000 <= v <= 1_000_000,
        0 <= speed <= 100_000,
        0 < tick_us <= 10_000_000,
    ensures
        r == step_delta(v as int, speed as int, tick_us as int),
        -1_000_000_000_000 <= r <= 1_000_000_000_000,
{
    proof {
        assert(-100_000_000_000 <= v * speed <= 100_000_000_000) by (nonlinear_arith)
            requires
                -1_000_000 <= v <= 1_000_000 && 0 <= speed <= 100_000,
        ;
        assert(-1_000_000_000_000_000_000 <= v * speed * tick_us <= 1_000_000_000_000_000_000)
            by (nonlinear_arith)
            requires
                -100_000_000_000 <= v * speed <= 100_000_000_000 && 0 < tick_us <= 10_000_000,
        ;
    }
    let prod: i64 = v * speed * tick_us;
    let r = div_trunc_i64(prod, MICROS_PER_SEC);
    proof {
        let p = v * speed * tick_us;
        if p >= 0 {
            assert(p / (MICROS_PER_SEC as int) <= 1_000_000_000_000) by (nonlinear_arith)
                requires
                    0 <= p <= 1_000_000_000_000_000_000,
            ;
        } else {
            assert((-p) / (MICROS_PER_SEC as int) <= 1_000_000_000_000) by (nonlinear_arith)
                requires
                    0 < -p <= 1_000_000_000_000_000_000,
            ;
        }
    }
    r
}

/// Truncating division of `a` by a positive divisor `b`.
pub fn div_trunc_i64(a: i64, b: i64) -> (r: i64)
    requires
        b > 0,
        a > i64::MIN,
    ensures
        r == div_trunc(a as int, b as int),
{
    if a >= 0 {
        let q: i64 = a / b;
        q
    } else {
        let m: i64 = -a;
        let q: i64 = m / b;
        -q
    }
}

} // verus!

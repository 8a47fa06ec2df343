//! Fixed-point arithmetic for the simulation.
//!
//! Ghost division (`/` on `int`) is Euclidean, while `i64` division
//! truncates toward zero, so the model is written over an explicit
//! truncating division. On top of it stand the two velocity rules of the
//! ball: the 1.05 speed-up applied on player hits, and the renormalization
//! to unit speed applied on a round reset, whose integer square root is
//! computed by binary search.

use vstd::prelude::*;
use vstd::arithmetic::div_mod::lemma_div_is_ordered;
use vstd::arithmetic::div_mod::lemma_div_by_multiple;
use vstd::arithmetic::div_mod::lemma_div_nonincreasing;
use crate::config::DIV_ARG_LIMIT;
use crate::config::HIT_NUDGE;
use crate::config::NORM_INPUT_LIMIT;
use crate::config::SCALE;
use crate::config::SPEED_LIMIT;
use crate::config::SPEEDUP_DEN;
use crate::config::SPEEDUP_NUM;

verus! {

/// Quotient of `a` by `d`, rounded toward zero, as `i64` division rounds.
pub open spec fn div_trunc(a: int, d: int) -> int
    recommends
        d > 0,
{
    if a >= 0 {
        a / d
    } else {
        -((-a) / d)
    }
}

/// A velocity component after the 1.05 speed-up of a player hit.
pub open spec fn scale_up(v: int) -> int {
    div_trunc(SPEEDUP_NUM * v, SPEEDUP_DEN as int)
}

/// The integer square root: the largest `r` with `r * r <= n`.
pub open spec fn sqrt_floor(n: nat) -> nat
    decreases n,
{
    if n == 0 {
        0
    } else {
        let r = sqrt_floor((n - 1) as nat);
        if n >= (r + 1) * (r + 1) {
            r + 1
        } else {
            r
        }
    }
}

/// `sqrt_floor(n)` squares to at most `n`, and is the largest such number.
pub proof fn lemma_sqrt_floor_bounds(n: nat)
    ensures
        sqrt_floor(n) * sqrt_floor(n) <= n,
        n < (sqrt_floor(n) + 1) * (sqrt_floor(n) + 1),
    decreases n,
{
    if n == 0 {
        let s = sqrt_floor(n);
        assert(n < (s + 1) * (s + 1)) by (nonlinear_arith)
            requires
                s == 0,
                n == 0,
        ;
    } else {
        lemma_sqrt_floor_bounds((n - 1) as nat);
        let r = sqrt_floor((n - 1) as nat);
        if n >= (r + 1) * (r + 1) {
            assert(sqrt_floor(n) == r + 1);
            assert(n == (r + 1) * (r + 1));
            assert((r + 1) * (r + 1) < (r + 2) * (r + 2)) by (nonlinear_arith)
                requires
                    r >= 0,
            ;
        } else {
            assert(sqrt_floor(n) == r);
        }
    }
}

/// Any `r` whose square brackets `n` is `sqrt_floor(n)`.
pub proof fn lemma_sqrt_floor_unique(n: nat, r: nat)
    requires
        r * r <= n,
        n < (r + 1) * (r + 1),
    ensures
        r == sqrt_floor(n),
{
    lemma_sqrt_floor_bounds(n);
    let s = sqrt_floor(n);
    if r < s {
        assert((r + 1) * (r + 1) <= s * s) by (nonlinear_arith)
            requires
                0 <= r,
                r < s,
        ;
    }
    if s < r {
        assert((s + 1) * (s + 1) <= r * r) by (nonlinear_arith)
            requires
                0 <= s,
                s < r,
        ;
    }
}

/// Length of the velocity vector `(vx, vy)`, rounded down.
pub open spec fn speed_norm(vx: int, vy: int) -> nat {
    sqrt_floor((vx * vx + vy * vy) as nat)
}

/// Horizontal component of `(vx, vy)` renormalized to unit speed; a zero
/// vector falls back to the unit vector pointing right.
pub open spec fn normalized_vx(vx: int, vy: int) -> int {
    let n = speed_norm(vx, vy);
    if n == 0 {
        SCALE as int
    } else {
        div_trunc(vx * SCALE, n as int)
    }
}

/// Vertical component of `(vx, vy)` renormalized to unit speed; a zero
/// vector falls back to the unit vector pointing right.
pub open spec fn normalized_vy(vx: int, vy: int) -> int {
    let n = speed_norm(vx, vy);
    if n == 0 {
        0
    } else {
        div_trunc(vy * SCALE, n as int)
    }
}

/// Executable truncating division by a positive divisor.
pub fn div_trunc_i64(a: i64, d: i64) -> (r: i64)
    requires
        0 < d,
        -DIV_ARG_LIMIT <= a <= DIV_ARG_LIMIT,
    ensures
        r == div_trunc(a as int, d as int),
        -DIV_ARG_LIMIT <= r <= DIV_ARG_LIMIT,
{
    let m: u64 = if a >= 0 {
        a as u64
    } else {
        (-a) as u64
    };
    let q: u64 = m / (d as u64);
    proof {
        lemma_div_nonincreasing(m as int, d as int);
        assert(q <= m);
    }
    if a >= 0 {
        q as i64
    } else {
        -(q as i64)
    }
}

/// A velocity component after the 1.05 speed-up of a player hit.
pub fn mul_speedup(v: i64) -> (r: i64)
    requires
        -SPEED_LIMIT - HIT_NUDGE <= v <= SPEED_LIMIT + HIT_NUDGE,
    ensures
        r == scale_up(v as int),
        -NORM_INPUT_LIMIT + HIT_NUDGE <= r <= NORM_INPUT_LIMIT - HIT_NUDGE,
{
    let r = div_trunc_i64(v * SPEEDUP_NUM, SPEEDUP_DEN);
    proof {
        if v >= 0 {
            lemma_div_is_ordered(SPEEDUP_NUM * v, SPEEDUP_NUM * (SPEED_LIMIT + HIT_NUDGE) as int,
                SPEEDUP_DEN as int);
        } else {
            lemma_div_is_ordered(-(SPEEDUP_NUM * v), SPEEDUP_NUM * (SPEED_LIMIT + HIT_NUDGE) as int,
                SPEEDUP_DEN as int);
        }
    }
    r
}

/// Executable integer square root by binary search.
pub fn isqrt(n: u64) -> (r: u64)
    requires
        n < 4_000_000_000_000_000_000,
    ensures
        r * r <= n,
        n < (r + 1) * (r + 1),
        r == sqrt_floor(n as nat),
        r <= 2_000_000_000,
{
    let mut lo: u64 = 0;
    let mut hi: u64 = 2_000_000_000;
    assert(hi * hi == 4_000_000_000_000_000_000) by (nonlinear_arith)
        requires
            hi == 2_000_000_000,
    ;
    while hi - lo > 1
        invariant
            lo < hi <= 2_000_000_000,
            lo * lo <= n,
            n < hi * hi,
        decreases hi - lo,
    {
        let mid: u64 = lo + (hi - lo) / 2;
        assert(lo < mid < hi);
        assert(mid * mid <= 4_000_000_000_000_000_000) by (nonlinear_arith)
            requires
                0 <= mid <= 2_000_000_000,
        ;
        if mid * mid <= n {
            lo = mid;
        } else {
            hi = mid;
        }
    }
    proof {
        lemma_sqrt_floor_unique(n as nat, lo as nat);
    }
    lo
}

/// The velocity `(vx, vy)` renormalized to unit speed, direction kept; a
/// zero vector falls back to the unit vector pointing right.
pub fn normalize_velocity(vx: i64, vy: i64) -> (r: (i64, i64))
    requires
        -NORM_INPUT_LIMIT <= vx <= NORM_INPUT_LIMIT,
        -NORM_INPUT_LIMIT <= vy <= NORM_INPUT_LIMIT,
    ensures
        r.0 == normalized_vx(vx as int, vy as int),
        r.1 == normalized_vy(vx as int, vy as int),
        -SCALE <= r.0 <= SCALE,
        -SCALE <= r.1 <= SCALE,
{
    assert(0 <= vx * vx <= 1_210_000_000_000_000_000) by (nonlinear_arith)
        requires
            -NORM_INPUT_LIMIT <= vx <= NORM_INPUT_LIMIT,
    ;
    assert(0 <= vy * vy <= 1_210_000_000_000_000_000) by (nonlinear_arith)
        requires
            -NORM_INPUT_LIMIT <= vy <= NORM_INPUT_LIMIT,
    ;
    let sx: i64 = vx * vx;
    let sy: i64 = vy * vy;
    let n2: i64 = sx + sy;
    let n: u64 = isqrt(n2 as u64);
    if n == 0 {
        proof {
            assert(vx * vx + vy * vy == 0 ==> vx == 0 && vy == 0) by (nonlinear_arith);
        }
        (SCALE, 0)
    } else {
        proof {
            lemma_component_below_norm(vx as int, vy as int, n as int);
            lemma_component_below_norm(vy as int, vx as int, n as int);
        }
        let px: i64 = div_trunc_i64(vx * SCALE, n as i64);
        let py: i64 = div_trunc_i64(vy * SCALE, n as i64);
        proof {
            lemma_unit_component_bound(vx as int, n as int);
            lemma_unit_component_bound(vy as int, n as int);
        }
        (px, py)
    }
}

/// A component of a vector is at most the rounded-down length of the
/// vector, so long as the length is not rounded below the component's
/// magnitude; here `n` brackets the squared length from both sides.
proof fn lemma_component_below_norm(a: int, b: int, n: int)
    requires
        n >= 0,
        n * n <= a * a + b * b,
        a * a + b * b < (n + 1) * (n + 1),
    ensures
        -n <= a <= n,
{
    assert(-n <= a <= n) by (nonlinear_arith)
        requires
            n >= 0,
            a * a + b * b < (n + 1) * (n + 1),
    ;
}

/// A component no longer than the norm divides to at most `SCALE`.
proof fn lemma_unit_component_bound(a: int, n: int)
    requires
        0 < n,
        -n <= a <= n,
    ensures
        -SCALE <= div_trunc(a * SCALE, n) <= SCALE,
{
    if a >= 0 {
        lemma_div_is_ordered(a * SCALE, n * SCALE, n);
        lemma_div_by_multiple(SCALE as int, n);
        assert(n * SCALE == SCALE * n) by (nonlinear_arith);
        assert(a * SCALE / n >= 0) by {
            vstd::arithmetic::div_mod::lemma_div_pos_is_pos(a * SCALE, n);
            assert(a * SCALE >= 0) by (nonlinear_arith)
                requires
                    a >= 0,
                    SCALE > 0,
            ;
        }
    } else {
        assert(-(a * SCALE) == (-a) * SCALE) by (nonlinear_arith);
        lemma_div_is_ordered((-a) * SCALE, n * SCALE, n);
        lemma_div_by_multiple(SCALE as int, n);
        assert(n * SCALE == SCALE * n) by (nonlinear_arith);
        assert((-a) * SCALE / n >= 0) by {
            vstd::arithmetic::div_mod::lemma_div_pos_is_pos((-a) * SCALE, n);
            assert((-a) * SCALE >= 0) by (nonlinear_arith)
                requires
                    a < 0,
                    SCALE > 0,
            ;
        }
    }
}

} // verus!

//! Axis-aligned bounding-box overlap test.
//!
//! Rectangles are described by center point and full size. Two rectangles
//! overlap exactly when they intersect on both axes with strict inequality:
//! `|dx| < (w1 + w2) / 2` and `|dy| < (h1 + h2) / 2`. The comparisons are
//! written doubled so that odd size sums lose nothing to division.

use vstd::prelude::*;
use crate::config::COORD_LIMIT;

verus! {

/// Absolute value of a mathematical integer.
pub open spec fn abs_int(v: int) -> int {
    if v < 0 {
        -v
    } else {
        v
    }
}

/// Whether two axis-aligned rectangles, given as center and full size,
/// overlap on both axes (strictly).
pub open spec fn rects_overlap(
    ax: int,
    ay: int,
    aw: int,
    ah: int,
    bx: int,
    by: int,
    bw: int,
    bh: int,
) -> bool {
    2 * abs_int(ax - bx) < aw + bw && 2 * abs_int(ay - by) < ah + bh
}

/// Executable overlap test for two axis-aligned rectangles given as center
/// and full size.
pub fn aabb_overlap(
    ax: i64,
    ay: i64,
    aw: i64,
    ah: i64,
    bx: i64,
    by: i64,
    bw: i64,
    bh: i64,
) -> (r: bool)
    requires
        -2 * COORD_LIMIT <= ax <= 2 * COORD_LIMIT,
        -2 * COORD_LIMIT <= ay <= 2 * COORD_LIMIT,
        -2 * COORD_LIMIT <= bx <= 2 * COORD_LIMIT,
        -2 * COORD_LIMIT <= by <= 2 * COORD_LIMIT,
        0 <= aw <= COORD_LIMIT,
        0 <= ah <= COORD_LIMIT,
        0 <= bw <= COORD_LIMIT,
        0 <= bh <= COORD_LIMIT,
    ensures
        r == rects_overlap(ax as int, ay as int, aw as int, ah as int, bx as int, by as int,
            bw as int, bh as int),
{
    let dx: i64 = ax - bx;
    let adx: i64 = if dx < 0 {
        -dx
    } else {
        dx
    };
    let dy: i64 = ay - by;
    let ady: i64 = if dy < 0 {
        -dy
    } else {
        dy
    };
    2 * adx < aw + bw && 2 * ady < ah + bh
}

} // verus!

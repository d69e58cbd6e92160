//! Integer 2-D geometry: the fixed-point coordinate system, axis-aligned
//! bounding-box overlap, and the center-distance proximity test.

use vstd::prelude::*;

verus! {

/// Subunits per world unit.  Positions and sizes are stored in subunits so
/// that every per-tick displacement is exact integer arithmetic.
pub const SUBUNIT: i64 = 10_000;

/// Workspace bound on coordinates.  Simulation updates clamp into this range;
/// it is far beyond anything reachable in play and exists only so that the
/// arithmetic below is proved free of overflow.
pub const POS_LIMIT: i64 = 100_000_000_000_000_000;

/// Workspace bound on collider sizes and distance thresholds, in subunits.
pub const SIZE_LIMIT: i64 = 1_000_000_000;

/// Largest wall-clock delta, in milliseconds, that a single simulation tick
/// accepts.  A frame longer than a minute is treated as a caller error; the
/// bound keeps every per-tick displacement within `i64`.
pub const DT_MAX: i64 = 60_000;

/// `x` forced into `[lo, hi]`.
pub open spec fn spec_clamp(x: int, lo: int, hi: int) -> int {
    if x < lo {
        lo
    } else if x > hi {
        hi
    } else {
        x
    }
}

/// `x` forced into `[lo, hi]`.
pub fn clamp_i64(x: i64, lo: i64, hi: i64) -> (r: i64)
    requires
        lo <= hi,
    ensures
        r == spec_clamp(x as int, lo as int, hi as int),
{
    if x < lo {
        lo
    } else if x > hi {
        hi
    } else {
        x
    }
}

/// Axis-aligned overlap of two rectangles given by center and size: the
/// rectangles intersect with positive area on both axes.  The test
/// short-circuits in the separating-axis style: disjoint on either axis
/// means no overlap.
pub open spec fn spec_aabb_overlap(
    ax: int, ay: int, aw: int, ah: int,
    bx: int, by: int, bw: int, bh: int,
) -> bool {
    &&& ax - aw / 2 < bx + bw / 2
    &&& ax + aw / 2 > bx - bw / 2
    &&& ay - ah / 2 < by + bh / 2
    &&& ay + ah / 2 > by - bh / 2
}

/// The two centers lie strictly closer than `t`, compared on squared
/// distances so that no square root is needed.
pub open spec fn spec_within_distance(ax: int, ay: int, bx: int, by: int, t: int) -> bool {
    (ax - bx) * (ax - bx) + (ay - by) * (ay - by) < t * t
}

/// Axis-aligned bounding-box collision between two rectangles given by
/// center coordinates and sizes (width, height).
pub fn collide(
    ax: i64, ay: i64, aw: i64, ah: i64,
    bx: i64, by: i64, bw: i64, bh: i64,
) -> (r: bool)
    requires
        -POS_LIMIT <= ax <= POS_LIMIT,
        -POS_LIMIT <= ay <= POS_LIMIT,
        -POS_LIMIT <= bx <= POS_LIMIT,
        -POS_LIMIT <= by <= POS_LIMIT,
        0 <= aw <= SIZE_LIMIT,
        0 <= ah <= SIZE_LIMIT,
        0 <= bw <= SIZE_LIMIT,
        0 <= bh <= SIZE_LIMIT,
    ensures
        r == spec_aabb_overlap(
            ax as int, ay as int, aw as int, ah as int,
            bx as int, by as int, bw as int, bh as int,
        ),
{
    let a_half_w = aw / 2;
    let a_half_h = ah / 2;
    let b_half_w = bw / 2;
    let b_half_h = bh / 2;
    ax - a_half_w < bx + b_half_w && ax + a_half_w > bx - b_half_w
        && ay - a_half_h < by + b_half_h && ay + a_half_h > by - b_half_h
}

/// Whether the two centers are strictly closer than `threshold`.
pub fn within_distance(ax: i64, ay: i64, bx: i64, by: i64, threshold: i64) -> (r: bool)
    requires
        -POS_LIMIT <= ax <= POS_LIMIT,
        -POS_LIMIT <= ay <= POS_LIMIT,
        -POS_LIMIT <= bx <= POS_LIMIT,
        -POS_LIMIT <= by <= POS_LIMIT,
        0 < threshold <= SIZE_LIMIT,
    ensures
        r == spec_within_distance(ax as int, ay as int, bx as int, by as int, threshold as int),
{
    let dx = ax - bx;
    let dy = ay - by;
    if dx >= threshold || -dx >= threshold || dy >= threshold || -dy >= threshold {
        proof {
            assert((dx as int) * (dx as int) + (dy as int) * (dy as int)
                >= (threshold as int) * (threshold as int)) by (nonlinear_arith)
                requires
                    dx >= threshold || -dx >= threshold || dy >= threshold || -dy >= threshold,
                    threshold > 0;
        }
        false
    } else {
        proof {
            assert(0 <= (dx as int) * (dx as int)
                < (threshold as int) * (threshold as int)
                && 0 <= (dy as int) * (dy as int)
                < (threshold as int) * (threshold as int)
                && (threshold as int) * (threshold as int)
                <= (SIZE_LIMIT as int) * (SIZE_LIMIT as int)) by (nonlinear_arith)
                requires
                    -threshold < dx < threshold,
                    -threshold < dy < threshold,
                    0 < threshold <= SIZE_LIMIT;
        }
        dx * dx + dy * dy < threshold * threshold
    }
}

} // verus!

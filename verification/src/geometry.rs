//! Points and the two proximity rules that the shapes share.

use vstd::prelude::*;
use crate::number::{add_coordinate, sat32};

verus! {

/// How close, in grid units, a pointer has to be to a line to hit it, and how
/// close to a corner, an edge or an end point to take hold of it.
pub const TOLERANCE: i64 = 5;

/// Whether two positions on one axis are less than the tolerance apart.
pub open spec fn near(a: int, b: int) -> bool {
    -TOLERANCE < a - b < TOLERANCE
}

/// Whether `p` is near `q` on both axes.
pub open spec fn near_point(p: (i32, i32), q: (i32, i32)) -> bool {
    near(p.0 as int, q.0 as int) && near(p.1 as int, q.1 as int)
}

/// The point moved by `(dx, dy)`, each coordinate stopping at the edge of
/// its range.
pub open spec fn shifted(p: (i32, i32), dx: i32, dy: i32) -> (i32, i32) {
    (sat32(p.0 + dx), sat32(p.1 + dy))
}

/// An optional point moved by `(dx, dy)`; a point that is not set stays so.
pub open spec fn shifted_if_set(p: Option<(i32, i32)>, dx: i32, dy: i32) -> Option<(i32, i32)> {
    match p {
        Some(q) => Some(shifted(q, dx, dy)),
        None => None,
    }
}

/// Whether `(x, y)` hits the segment from `o` to `e`: its foot on the line
/// through `o` and `e` lies on the segment, and its distance from that foot is
/// at most the tolerance.
///
/// With `d = e - o` and `p = (x, y) - o`, the foot is `o + t d` for
/// `t = (p . d) / |d|^2`, so it lies on the segment when
/// `0 <= p . d <= |d|^2`. The distance from the foot is `|p x d| / |d|`, so
/// it is at most the tolerance when `(p x d)^2 <= tolerance^2 |d|^2`. A
/// segment whose ends coincide is hit by nothing.
///
/// The products make this nonlinear: a proof that needs its value for given
/// points asserts it `by (nonlinear_arith)`.
pub open spec fn hits_segment(o: (i32, i32), e: (i32, i32), x: int, y: int) -> bool {
    let dx = e.0 - o.0;
    let dy = e.1 - o.1;
    let px = x - o.0;
    let py = y - o.1;
    let length2 = dx * dx + dy * dy;
    let along = px * dx + py * dy;
    let across = px * dy - py * dx;
    &&& length2 > 0
    &&& 0 <= along <= length2
    &&& across * across <= TOLERANCE * TOLERANCE * length2
}

/// Whether two positions on one axis are less than the tolerance apart.
pub fn is_near(a: i64, b: i64) -> (r: bool)
    ensures
        r == near(a as int, b as int),
{
    let gap: i128 = a as i128 - b as i128;
    -(TOLERANCE as i128) < gap && gap < TOLERANCE as i128
}

/// Whether `p` is near `q` on both axes.
pub fn is_near_point(p: (i32, i32), q: (i32, i32)) -> (r: bool)
    ensures
        r == near_point(p, q),
{
    is_near(p.0 as i64, q.0 as i64) && is_near(p.1 as i64, q.1 as i64)
}

/// Moves a point by `(dx, dy)`.
pub fn shift(p: (i32, i32), dx: i32, dy: i32) -> (r: (i32, i32))
    ensures
        r == shifted(p, dx, dy),
{
    (add_coordinate(p.0, dx), add_coordinate(p.1, dy))
}

/// Moves a point by `(dx, dy)`, if it is set.
pub fn shift_if_set(p: Option<(i32, i32)>, dx: i32, dy: i32) -> (r: Option<(i32, i32)>)
    ensures
        r == shifted_if_set(p, dx, dy),
{
    match p {
        Some(q) => Some(shift(q, dx, dy)),
        None => None,
    }
}

/// The hit test of a segment, in whole numbers throughout.
pub fn segment_hit(o: (i32, i32), e: (i32, i32), x: i32, y: i32) -> (r: bool)
    ensures
        r == hits_segment(o, e, x as int, y as int),
{
    let dx: i128 = e.0 as i128 - o.0 as i128;
    let dy: i128 = e.1 as i128 - o.1 as i128;
    let px: i128 = x as i128 - o.0 as i128;
    let py: i128 = y as i128 - o.1 as i128;
    proof {
        lemma_product_bound(dx as int, dx as int);
        lemma_product_bound(dy as int, dy as int);
        lemma_product_bound(px as int, dx as int);
        lemma_product_bound(py as int, dy as int);
        lemma_product_bound(px as int, dy as int);
        lemma_product_bound(py as int, dx as int);
    }
    let length2: i128 = dx * dx + dy * dy;
    let along: i128 = px * dx + py * dy;
    let across: i128 = px * dy - py * dx;
    if length2 <= 0 || along < 0 || along > length2 {
        return false;
    }
    // The square of `across` need not fit in 128 bits. Where `across` is
    // beyond this limit, its square is beyond anything that the right-hand
    // side can reach, and the point is too far from the line.
    let limit: i128 = 0x10_0000_0000;
    if across > limit || across < -limit {
        assert(across * across > TOLERANCE * TOLERANCE * length2) by (nonlinear_arith)
            requires
                across > 0x10_0000_0000 || across < -0x10_0000_0000,
                length2 <= 2 * (0x1_0000_0000 * 0x1_0000_0000),
                TOLERANCE == 5,
        ;
        return false;
    }
    assert(0 <= across * across <= 0x10_0000_0000 * 0x10_0000_0000) by (nonlinear_arith)
        requires
            -0x10_0000_0000 <= across <= 0x10_0000_0000,
    ;
    let reach: i128 = TOLERANCE as i128;
    across * across <= reach * reach * length2
}

/// The product of two differences of coordinates stays far inside 128 bits.
proof fn lemma_product_bound(a: int, b: int)
    requires
        -0x1_0000_0000 < a < 0x1_0000_0000,
        -0x1_0000_0000 < b < 0x1_0000_0000,
    ensures
        -(0x1_0000_0000 * 0x1_0000_0000) <= a * b <= 0x1_0000_0000 * 0x1_0000_0000,
{
    assert(-(0x1_0000_0000 * 0x1_0000_0000) <= a * b <= 0x1_0000_0000 * 0x1_0000_0000)
        by (nonlinear_arith)
        requires
            -0x1_0000_0000 < a < 0x1_0000_0000,
            -0x1_0000_0000 < b < 0x1_0000_0000,
    ;
}

} // verus!

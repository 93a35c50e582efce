//! Exact evaluation of the two orientation determinants.

use vstd::prelude::*;
use crate::primitives::Point;

verus! {

/// Handle witnessing that the predicate machinery is ready for use.
///
/// The determinants are evaluated in exact integer arithmetic, so there is
/// no process-wide table to set up: `init` is idempotent, free of side
/// effects, and safe to call from any number of threads.
pub struct Library {}

impl Library {
    pub fn init() -> Library {
        Library {}
    }
}

/// The sign of an integer: 1, 0, or -1.
pub open spec fn sign_of(t: int) -> int {
    if t > 0 {
        1
    } else if t < 0 {
        -1
    } else {
        0
    }
}

/// The orientation determinant of the points (ax, ay), (bx, by), (cx, cy):
/// positive when the third point lies to the left of the directed line from
/// the first point to the second, negative to the right, zero exactly on it.
pub open spec fn orient2d_det(ax: int, ay: int, bx: int, by: int, cx: int, cy: int) -> int {
    (ax - cx) * (by - cy) - (ay - cy) * (bx - cx)
}

/// Largest coordinate magnitude accepted by `orient2d`: the widest machine
/// integer must hold the difference of the two corner products.
pub const MAX_ORIENT2D_COORD: i64 = 0x2000_0000_0000_0000;

pub open spec fn orient2d_coord_in_range(x: i64) -> bool {
    -MAX_ORIENT2D_COORD <= x <= MAX_ORIENT2D_COORD
}

pub open spec fn orient2d_point_in_range(p: Point) -> bool {
    orient2d_coord_in_range(p.x) && orient2d_coord_in_range(p.y)
}

/// Magnitude bound on a product from magnitude bounds on its factors.
proof fn lemma_mul_bounds(x: int, y: int, bx: int, by: int)
    by (nonlinear_arith)
    requires
        0 <= bx,
        0 <= by,
        -bx <= x <= bx,
        -by <= y <= by,
    ensures
        -(bx * by) <= x * y <= bx * by,
{
}

/// Returns the exact value of the orientation determinant for the directed
/// line a -> b and the query point c.
pub fn orient2d(a: &Point, b: &Point, c: &Point) -> (r: i128)
    requires
        orient2d_point_in_range(*a),
        orient2d_point_in_range(*b),
        orient2d_point_in_range(*c),
    ensures
        r == orient2d_det(a.x as int, a.y as int, b.x as int, b.y as int, c.x as int, c.y as int),
{
    let acx: i128 = a.x as i128 - c.x as i128;
    let acy: i128 = a.y as i128 - c.y as i128;
    let bcx: i128 = b.x as i128 - c.x as i128;
    let bcy: i128 = b.y as i128 - c.y as i128;
    proof {
        lemma_mul_bounds(acx as int, bcy as int, 0x4000_0000_0000_0000, 0x4000_0000_0000_0000);
        lemma_mul_bounds(acy as int, bcx as int, 0x4000_0000_0000_0000, 0x4000_0000_0000_0000);
    }
    acx * bcy - acy * bcx
}

/// The circumcircle determinant of the query point (dx, dy) against the
/// circle through (ax, ay), (bx, by), (cx, cy): for a counterclockwise
/// triple it is positive when the query point lies strictly inside the
/// circle, negative strictly outside, zero exactly on it. Clockwise triples
/// give the reversed sign; collinear triples still yield the deterministic
/// sign of the same algebraic expression.
pub open spec fn incircle_det(
    ax: int, ay: int, bx: int, by: int, cx: int, cy: int, dx: int, dy: int,
) -> int {
    let adx: int = ax - dx;
    let ady: int = ay - dy;
    let bdx: int = bx - dx;
    let bdy: int = by - dy;
    let cdx: int = cx - dx;
    let cdy: int = cy - dy;
    let adsq: int = adx * adx + ady * ady;
    let bdsq: int = bdx * bdx + bdy * bdy;
    let cdsq: int = cdx * cdx + cdy * cdy;
    adx * (bdy * cdsq - cdy * bdsq) - ady * (bdx * cdsq - cdx * bdsq) + adsq * (bdx * cdy - cdx
        * bdy)
}

/// Largest coordinate magnitude accepted by `incircle`: the determinant is
/// of fourth degree in the coordinates and must fit the widest machine
/// integer.
pub const MAX_INCIRCLE_COORD: i64 = 0x2000_0000;

pub open spec fn incircle_coord_in_range(x: i64) -> bool {
    -MAX_INCIRCLE_COORD <= x <= MAX_INCIRCLE_COORD
}

pub open spec fn incircle_point_in_range(p: Point) -> bool {
    incircle_coord_in_range(p.x) && incircle_coord_in_range(p.y)
}

/// Returns the exact value of the circumcircle determinant for the circle
/// through a, b, c and the query point d.
pub fn incircle(a: &Point, b: &Point, c: &Point, d: &Point) -> (r: i128)
    requires
        incircle_point_in_range(*a),
        incircle_point_in_range(*b),
        incircle_point_in_range(*c),
        incircle_point_in_range(*d),
    ensures
        r == incircle_det(
            a.x as int, a.y as int, b.x as int, b.y as int,
            c.x as int, c.y as int, d.x as int, d.y as int,
        ),
{
    let adx: i128 = a.x as i128 - d.x as i128;
    let ady: i128 = a.y as i128 - d.y as i128;
    let bdx: i128 = b.x as i128 - d.x as i128;
    let bdy: i128 = b.y as i128 - d.y as i128;
    let cdx: i128 = c.x as i128 - d.x as i128;
    let cdy: i128 = c.y as i128 - d.y as i128;
    proof {
        lemma_mul_bounds(adx as int, adx as int, 0x4000_0000, 0x4000_0000);
        lemma_mul_bounds(ady as int, ady as int, 0x4000_0000, 0x4000_0000);
        lemma_mul_bounds(bdx as int, bdx as int, 0x4000_0000, 0x4000_0000);
        lemma_mul_bounds(bdy as int, bdy as int, 0x4000_0000, 0x4000_0000);
        lemma_mul_bounds(cdx as int, cdx as int, 0x4000_0000, 0x4000_0000);
        lemma_mul_bounds(cdy as int, cdy as int, 0x4000_0000, 0x4000_0000);
    }
    let adsq: i128 = adx * adx + ady * ady;
    let bdsq: i128 = bdx * bdx + bdy * bdy;
    let cdsq: i128 = cdx * cdx + cdy * cdy;
    proof {
        lemma_mul_bounds(bdy as int, cdsq as int, 0x4000_0000, 0x2000_0000_0000_0000);
        lemma_mul_bounds(cdy as int, bdsq as int, 0x4000_0000, 0x2000_0000_0000_0000);
        lemma_mul_bounds(bdx as int, cdsq as int, 0x4000_0000, 0x2000_0000_0000_0000);
        lemma_mul_bounds(cdx as int, bdsq as int, 0x4000_0000, 0x2000_0000_0000_0000);
        lemma_mul_bounds(bdx as int, cdy as int, 0x4000_0000, 0x4000_0000);
        lemma_mul_bounds(cdx as int, bdy as int, 0x4000_0000, 0x4000_0000);
    }
    let m1: i128 = bdy * cdsq - cdy * bdsq;
    let m2: i128 = bdx * cdsq - cdx * bdsq;
    let m3: i128 = bdx * cdy - cdx * bdy;
    proof {
        lemma_mul_bounds(
            adx as int, m1 as int,
            0x4000_0000, 0x1000_0000_0000_0000_0000_0000,
        );
        lemma_mul_bounds(
            ady as int, m2 as int,
            0x4000_0000, 0x1000_0000_0000_0000_0000_0000,
        );
        lemma_mul_bounds(
            adsq as int, m3 as int,
            0x2000_0000_0000_0000, 0x4000_0000_0000_0000,
        );
    }
    adx * m1 - ady * m2 + adsq * m3
}

/// One factor distributes over a difference.
proof fn lemma_scale_diff(k: int, x: int, y: int)
    by (nonlinear_arith)
    ensures
        k * x - k * y == k * (x - y),
{
}

/// Scaling both factors of a product scales the product by the square.
proof fn lemma_scale_product(k: int, u: int, v: int)
    by (nonlinear_arith)
    ensures
        (k * u) * (k * v) == (k * k) * (u * v),
{
}

/// A common factor distributes over a difference of products.
proof fn lemma_factor_diff(m: int, s: int, t: int)
    by (nonlinear_arith)
    ensures
        m * s - m * t == m * (s - t),
{
}

/// Multiplying by a positive factor preserves the sign.
proof fn lemma_pos_factor_keeps_sign(m: int, d: int)
    by (nonlinear_arith)
    requires
        0 < m,
    ensures
        d > 0 ==> m * d > 0,
        d < 0 ==> m * d < 0,
        d == 0 ==> m * d == 0,
{
}

/// The square of a nonzero integer is positive.
proof fn lemma_square_positive(k: int)
    by (nonlinear_arith)
    requires
        k != 0,
    ensures
        0 < k * k,
{
}

/// A product with a zero factor is zero.
proof fn lemma_mul_zero(x: int, y: int)
    by (nonlinear_arith)
    requires
        x == 0 || y == 0,
    ensures
        x * y == 0,
{
}

/// Scaling all three points about the origin by one positive factor leaves
/// the sign of the orientation determinant unchanged: the scaled determinant
/// is the original times the square of the factor.
pub proof fn lemma_orient2d_scale_invariant(
    ax: int, ay: int, bx: int, by: int, cx: int, cy: int, k: int,
)
    requires
        0 < k,
    ensures
        orient2d_det(k * ax, k * ay, k * bx, k * by, k * cx, k * cy) == k * k * orient2d_det(
            ax, ay, bx, by, cx, cy,
        ),
        sign_of(orient2d_det(k * ax, k * ay, k * bx, k * by, k * cx, k * cy)) == sign_of(
            orient2d_det(ax, ay, bx, by, cx, cy),
        ),
{
    let u1: int = ax - cx;
    let v1: int = by - cy;
    let u2: int = ay - cy;
    let v2: int = bx - cx;
    lemma_scale_diff(k, ax, cx);
    lemma_scale_diff(k, by, cy);
    lemma_scale_diff(k, ay, cy);
    lemma_scale_diff(k, bx, cx);
    lemma_scale_product(k, u1, v1);
    lemma_scale_product(k, u2, v2);
    lemma_factor_diff(k * k, u1 * v1, u2 * v2);
    lemma_square_positive(k);
    lemma_pos_factor_keeps_sign(k * k, orient2d_det(ax, ay, bx, by, cx, cy));
}

/// Swapping the two line points negates the orientation determinant: the two
/// calls classify opposite sides, and are exactly zero together on
/// degenerate input.
pub proof fn lemma_orient2d_antisymmetric(ax: int, ay: int, bx: int, by: int, cx: int, cy: int)
    ensures
        orient2d_det(bx, by, ax, ay, cx, cy) == -orient2d_det(ax, ay, bx, by, cx, cy),
        sign_of(orient2d_det(bx, by, ax, ay, cx, cy)) == -sign_of(
            orient2d_det(ax, ay, bx, by, cx, cy),
        ),
{
    assert((bx - cx) * (ay - cy) - (by - cy) * (ax - cx) == -((ax - cx) * (by - cy) - (ay - cy)
        * (bx - cx))) by (nonlinear_arith);
}

/// The orientation determinant is exactly zero precisely when the three
/// points are algebraically collinear: the cross product of the second point
/// minus the first and the third point minus the first vanishes.
pub proof fn lemma_orient2d_zero_iff_collinear(
    ax: int, ay: int, bx: int, by: int, cx: int, cy: int,
)
    ensures
        orient2d_det(ax, ay, bx, by, cx, cy) == 0 <==> (bx - ax) * (cy - ay) == (by - ay) * (cx
            - ax),
{
    assert((ax - cx) * (by - cy) - (ay - cy) * (bx - cx) == (bx - ax) * (cy - ay) - (by - ay)
        * (cx - ax)) by (nonlinear_arith);
}

/// Two coincident points among the three force an exactly zero orientation
/// determinant.
pub proof fn lemma_orient2d_degenerate(ax: int, ay: int, bx: int, by: int, cx: int, cy: int)
    requires
        (ax == bx && ay == by) || (ax == cx && ay == cy) || (bx == cx && by == cy),
    ensures
        orient2d_det(ax, ay, bx, by, cx, cy) == 0,
{
    assert((ax - cx) * (by - cy) - (ay - cy) * (bx - cx) == 0) by (nonlinear_arith)
        requires
            (ax == bx && ay == by) || (ax == cx && ay == cy) || (bx == cx && by == cy),
    ;
}

/// The circumcircle determinant vanishes when the first point is repeated as
/// the second: an algebraic identity in the two remaining offset pairs and
/// the two squared norms.
proof fn lemma_incircle_repeat_second(px: int, py: int, qx: int, qy: int, s: int, t: int)
    by (nonlinear_arith)
    ensures
        px * (py * t - qy * s) - py * (px * t - qx * s) + s * (px * qy - qx * py) == 0,
{
}

/// The circumcircle determinant vanishes when the first point is repeated as
/// the third: the companion identity to `lemma_incircle_repeat_second`.
proof fn lemma_incircle_repeat_third(px: int, py: int, qx: int, qy: int, s: int, t: int)
    by (nonlinear_arith)
    ensures
        px * (qy * s - py * t) - py * (qx * s - px * t) + s * (qx * py - px * qy) == 0,
{
}

/// Two coincident points among the four force an exactly zero circumcircle
/// determinant.
pub proof fn lemma_incircle_degenerate(
    ax: int, ay: int, bx: int, by: int, cx: int, cy: int, dx: int, dy: int,
)
    requires
        (ax == bx && ay == by) || (ax == cx && ay == cy) || (bx == cx && by == cy) || (ax == dx
            && ay == dy) || (bx == dx && by == dy) || (cx == dx && cy == dy),
    ensures
        incircle_det(ax, ay, bx, by, cx, cy, dx, dy) == 0,
{
    let adx: int = ax - dx;
    let ady: int = ay - dy;
    let bdx: int = bx - dx;
    let bdy: int = by - dy;
    let cdx: int = cx - dx;
    let cdy: int = cy - dy;
    let aa: int = adx * adx + ady * ady;
    let bb: int = bdx * bdx + bdy * bdy;
    let cc: int = cdx * cdx + cdy * cdy;
    let m1: int = bdy * cc - cdy * bb;
    let m2: int = bdx * cc - cdx * bb;
    let m3: int = bdx * cdy - cdx * bdy;
    if ax == bx && ay == by {
        lemma_incircle_repeat_second(adx, ady, cdx, cdy, aa, cc);
    } else if ax == cx && ay == cy {
        lemma_incircle_repeat_third(adx, ady, bdx, bdy, aa, bb);
    } else if bx == cx && by == cy {
        lemma_mul_zero(adx, m1);
        lemma_mul_zero(ady, m2);
        lemma_mul_zero(aa, m3);
    } else if ax == dx && ay == dy {
        lemma_mul_zero(adx, adx);
        lemma_mul_zero(ady, ady);
        lemma_mul_zero(adx, m1);
        lemma_mul_zero(ady, m2);
        lemma_mul_zero(aa, m3);
    } else if bx == dx && by == dy {
        lemma_mul_zero(bdx, bdx);
        lemma_mul_zero(bdy, bdy);
        lemma_mul_zero(bdy, cc);
        lemma_mul_zero(cdy, bb);
        lemma_mul_zero(bdx, cc);
        lemma_mul_zero(cdx, bb);
        lemma_mul_zero(bdx, cdy);
        lemma_mul_zero(cdx, bdy);
        lemma_mul_zero(adx, m1);
        lemma_mul_zero(ady, m2);
        lemma_mul_zero(aa, m3);
    } else {
        lemma_mul_zero(cdx, cdx);
        lemma_mul_zero(cdy, cdy);
        lemma_mul_zero(bdy, cc);
        lemma_mul_zero(cdy, bb);
        lemma_mul_zero(bdx, cc);
        lemma_mul_zero(cdx, bb);
        lemma_mul_zero(bdx, cdy);
        lemma_mul_zero(cdx, bdy);
        lemma_mul_zero(adx, m1);
        lemma_mul_zero(ady, m2);
        lemma_mul_zero(aa, m3);
    }
}

} // verus!

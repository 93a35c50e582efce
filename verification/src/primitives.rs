//! Points, segments, and the three-way orientation classification.

use vstd::prelude::*;

verus! {

/// A planar point with exact integer coordinates.
///
/// Coordinates are plain machine integers, so every determinant the
/// predicates build from them has an exact value in a wide machine integer
/// and no rounding can misclassify a near-degenerate configuration.
#[derive(Clone, Copy, PartialEq, Eq, Structural, Debug)]
pub struct Point {
    pub x: i64,
    pub y: i64,
}

/// A directed line segment between two points.
#[derive(Clone, Copy, PartialEq, Eq, Structural, Debug)]
pub struct LineSegment {
    pub from: Point,
    pub to: Point,
}

/// Position of a point relative to a geometric primitive such as a line
/// segment or circle.
#[derive(Clone, Copy, PartialEq, Eq, Structural, Debug)]
pub enum Orientation {
    /// Inside a counterclockwise circle, or to the left of a directed line.
    /// Clockwise primitives give the reversed orientation.
    Inside,
    /// Exactly on the geometric primitive (line or circle).
    On,
    /// Outside a counterclockwise circle, or to the right of a directed line.
    /// Clockwise primitives give the reversed orientation.
    Outside,
}

/// The orientation named by the sign of an exact determinant value.
pub open spec fn orientation_of(t: int) -> Orientation {
    if t == 0 {
        Orientation::On
    } else if t > 0 {
        Orientation::Inside
    } else {
        Orientation::Outside
    }
}

impl Point {
    pub fn new(x: i64, y: i64) -> (p: Point)
        ensures
            p.x == x,
            p.y == y,
    {
        Point { x, y }
    }

    /// Relates this point to the line through two points. `Inside` means to
    /// the left, that is, the argument points followed by this point make a
    /// left turn; the classification is exact, so exactly collinear input
    /// yields `On`.
    pub fn orient_to_points(&self, p1: &Point, p2: &Point) -> (r: Orientation)
        requires
            crate::arithmetic::orient2d_point_in_range(*p1),
            crate::arithmetic::orient2d_point_in_range(*p2),
            crate::arithmetic::orient2d_point_in_range(*self),
        ensures
            r == orientation_of(
                crate::arithmetic::orient2d_det(
                    p1.x as int, p1.y as int, p2.x as int, p2.y as int, self.x as int,
                    self.y as int,
                ),
            ),
    {
        let t = crate::arithmetic::orient2d(p1, p2, self);
        Orientation::from_signed_distance(t)
    }

    /// Relates this point to the circle through three points. The three
    /// circle points must form a counterclockwise turn or the relation is
    /// reversed; exactly cocircular input yields `On`.
    pub fn orient_to_circle(&self, p1: &Point, p2: &Point, p3: &Point) -> (r: Orientation)
        requires
            crate::arithmetic::incircle_point_in_range(*p1),
            crate::arithmetic::incircle_point_in_range(*p2),
            crate::arithmetic::incircle_point_in_range(*p3),
            crate::arithmetic::incircle_point_in_range(*self),
        ensures
            r == orientation_of(
                crate::arithmetic::incircle_det(
                    p1.x as int, p1.y as int, p2.x as int, p2.y as int, p3.x as int,
                    p3.y as int, self.x as int, self.y as int,
                ),
            ),
    {
        let t = crate::arithmetic::incircle(p1, p2, p3, self);
        Orientation::from_signed_distance(t)
    }
}

impl Orientation {
    /// Constructs an `Orientation` from an exactly computed signed value:
    /// zero is `On`, positive is `Inside`, negative is `Outside`.
    pub fn from_signed_distance(t: i128) -> (r: Orientation)
        ensures
            r == orientation_of(t as int),
    {
        if t == 0 {
            Orientation::On
        } else if t > 0 {
            Orientation::Inside
        } else {
            Orientation::Outside
        }
    }
}

} // verus!

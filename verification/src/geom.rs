//! Points and rectangles, made of scalars.

use crate::scalar::Scalar;
use vstd::prelude::*;

verus! {

/// A point in the plane.
#[derive(Clone, Copy, Debug, PartialEq, Eq, Structural)]
pub struct Point2 {
    pub x: Scalar,
    pub y: Scalar,
}

impl Point2 {
    /// The point with the given coordinates.
    pub fn new(x: Scalar, y: Scalar) -> (p: Self)
        ensures
            p == (Point2 { x, y }),
    {
        Point2 { x, y }
    }
}

/// A point in space.
#[derive(Clone, Copy, Debug, PartialEq, Eq, Structural)]
pub struct Point3 {
    pub x: Scalar,
    pub y: Scalar,
    pub z: Scalar,
}

impl Point3 {
    /// The point with the given coordinates.
    pub fn new(x: Scalar, y: Scalar, z: Scalar) -> (p: Self)
        ensures
            p == (Point3 { x, y, z }),
    {
        Point3 { x, y, z }
    }
}

/// A rectangle with sides along the axes, by two opposite corners.
#[derive(Clone, Copy, Debug, PartialEq, Eq, Structural)]
pub struct AaRect {
    pub min: Point2,
    pub max: Point2,
}

impl AaRect {
    /// The four corners, starting at `min` and going round by way of
    /// (`max.x`, `min.y`).
    pub open spec fn corners(self) -> Seq<Point2> {
        seq![
            self.min,
            Point2 { x: self.max.x, y: self.min.y },
            self.max,
            Point2 { x: self.min.x, y: self.max.y },
        ]
    }

    /// Corner `i` of the four.
    pub fn corner(&self, i: usize) -> (p: Point2)
        requires
            i < 4,
        ensures
            p == self.corners()[i as int],
    {
        if i == 0 {
            self.min
        } else if i == 1 {
            Point2 { x: self.max.x, y: self.min.y }
        } else if i == 2 {
            self.max
        } else {
            Point2 { x: self.min.x, y: self.max.y }
        }
    }
}

} // verus!

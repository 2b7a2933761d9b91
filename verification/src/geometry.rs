//! Points, vectors and axis-aligned rectangles in fixed-point world
//! coordinates. The y axis points down, as on a screen.

use vstd::prelude::*;

verus! {

/// A position in the world.
#[derive(Clone, Copy, Debug, PartialEq, Eq, Structural)]
pub struct Point {
    pub x: i64,
    pub y: i64,
}

/// A displacement, per frame where it is a velocity.
#[derive(Clone, Copy, Debug, PartialEq, Eq, Structural)]
pub struct Vector {
    pub x: i64,
    pub y: i64,
}

/// An axis-aligned rectangle given by its top-left corner and its size.
#[derive(Clone, Copy, Debug, PartialEq, Eq, Structural)]
pub struct Rect {
    pub x: i64,
    pub y: i64,
    pub w: i64,
    pub h: i64,
}

impl Rect {
    /// Whether `point` lies in the rectangle, its four edges included.
    pub open spec fn covers(&self, point: Point) -> bool {
        &&& self.x <= point.x <= self.x + self.w
        &&& self.y <= point.y <= self.y + self.h
    }

    pub fn new(x: i64, y: i64, w: i64, h: i64) -> (r: Rect)
        ensures
            r == (Rect { x, y, w, h }),
    {
        Rect { x, y, w, h }
    }

    /// Point-in-rectangle test. A point on an edge counts as inside.
    pub fn contains(&self, point: Point) -> (inside: bool)
        ensures
            inside == self.covers(point),
    {
        let right: i128 = self.x as i128 + self.w as i128;
        let bottom: i128 = self.y as i128 + self.h as i128;
        point.x >= self.x && point.x as i128 <= right && point.y as i128 <= bottom && point.y
            >= self.y
    }
}

} // verus!

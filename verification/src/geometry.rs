//! Points and lines under a generic addition trait.
//!
//! `Addition<T, U>` is generic over both the right-hand side and the result,
//! so one type may carry several additions: `Point` can be added to a
//! `Point` or an `i32` to give a `Point`, and to a `Point` to give a `Line`.

use vstd::prelude::*;

verus! {

/// Addition of a `T` to `self`, producing a `U`. A type may implement this
/// several times, once per operand and result pairing.
pub trait Addition<T, U> {
    /// Whether the operands are small enough for `add` to avoid overflow.
    spec fn add_req(&self, rhs: T) -> bool;

    /// The sum that `add` returns.
    spec fn add_spec(&self, rhs: T) -> U;

    /// Adds `rhs` to `self`.
    fn add(&self, rhs: T) -> (r: U)
        requires
            self.add_req(rhs),
        ensures
            r == self.add_spec(rhs),
    ;
}

/// A point in the plane.
#[derive(Debug, Clone, Copy, PartialEq, Eq, Structural)]
pub struct Point {
    /// The horizontal coordinate.
    pub x: i32,
    /// The vertical coordinate.
    pub y: i32,
}

/// A line segment between two points.
#[derive(Debug, Clone, Copy, PartialEq, Eq, Structural)]
pub struct Line {
    /// Where the segment starts.
    pub start: Point,
    /// Where the segment ends.
    pub end: Point,
}

impl Addition<Point, Point> for Point {
    open spec fn add_req(&self, rhs: Point) -> bool {
        &&& i32::MIN <= self.x + rhs.x <= i32::MAX
        &&& i32::MIN <= self.y + rhs.y <= i32::MAX
    }

    open spec fn add_spec(&self, rhs: Point) -> Point {
        Point { x: (self.x + rhs.x) as i32, y: (self.y + rhs.y) as i32 }
    }

    fn add(&self, rhs: Point) -> (r: Point) {
        Point { x: self.x + rhs.x, y: self.y + rhs.y }
    }
}

impl Addition<i32, Point> for Point {
    open spec fn add_req(&self, rhs: i32) -> bool {
        &&& i32::MIN <= self.x + rhs <= i32::MAX
        &&& i32::MIN <= self.y + rhs <= i32::MAX
    }

    open spec fn add_spec(&self, rhs: i32) -> Point {
        Point { x: (self.x + rhs) as i32, y: (self.y + rhs) as i32 }
    }

    fn add(&self, rhs: i32) -> (r: Point) {
        Point { x: self.x + rhs, y: self.y + rhs }
    }
}

impl Addition<Point, Line> for Point {
    open spec fn add_req(&self, rhs: Point) -> bool {
        true
    }

    open spec fn add_spec(&self, rhs: Point) -> Line {
        Line { start: *self, end: rhs }
    }

    fn add(&self, rhs: Point) -> (r: Line) {
        Line { start: *self, end: rhs }
    }
}

} // verus!

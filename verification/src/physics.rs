//! The geometric value types. The library builds them, reads their fields and
//! hands them on; measuring with them is the host's work.

use vstd::prelude::*;

verus! {

/// A velocity in polar form.
#[derive(Clone, Copy, Debug, PartialEq)]
pub struct Vector<S> {
    pub direction: S,
    pub magnitude: S,
}

impl<S: Copy> Vector<S> {
    pub fn new(d: S, m: S) -> (v: Vector<S>)
        ensures
            v.direction == d,
            v.magnitude == m,
    {
        Vector { direction: d, magnitude: m }
    }

}

/// The vector that a pair `(direction, magnitude)` stands for.
impl<S: Copy> From<(S, S)> for Vector<S> {
    fn from(t: (S, S)) -> (v: Vector<S>) {
        Vector::new(t.0, t.1)
    }
}

impl<S: Copy> vstd::std_specs::convert::FromSpecImpl<(S, S)> for Vector<S> {
    open spec fn obeys_from_spec() -> bool {
        true
    }

    open spec fn from_spec(t: (S, S)) -> Vector<S> {
        Vector { direction: t.0, magnitude: t.1 }
    }
}

/// A position.
#[derive(Clone, Copy, Debug, PartialEq)]
pub struct Point<S> {
    pub x: S,
    pub y: S,
}

impl<S: Copy> Point<S> {
    pub fn new(x: S, y: S) -> (p: Point<S>)
        ensures
            p.x == x,
            p.y == y,
    {
        Point { x, y }
    }

    /// The point that a pair `(x, y)` stands for.
    pub fn from_tuple(t: (S, S)) -> (p: Point<S>)
        ensures
            p.x == t.0,
            p.y == t.1,
    {
        Point::new(t.0, t.1)
    }

    pub fn get_x(&self) -> (x: S)
        ensures
            x == self.x,
    {
        self.x
    }

    pub fn get_y(&self) -> (y: S)
        ensures
            y == self.y,
    {
        self.y
    }
}

/// The point that a pair `(x, y)` stands for.
impl<S: Copy> From<(S, S)> for Point<S> {
    fn from(t: (S, S)) -> (p: Point<S>) {
        Point::new(t.0, t.1)
    }
}

impl<S: Copy> vstd::std_specs::convert::FromSpecImpl<(S, S)> for Point<S> {
    open spec fn obeys_from_spec() -> bool {
        true
    }

    open spec fn from_spec(t: (S, S)) -> Point<S> {
        Point { x: t.0, y: t.1 }
    }
}

/// A circle: centre and radius.
#[derive(Clone, Copy, Debug, PartialEq)]
pub struct Circle<S> {
    pub x: S,
    pub y: S,
    pub r: S,
}

impl<S: Copy> Circle<S> {
    pub fn new(x: S, y: S, r: S) -> (c: Circle<S>)
        ensures
            c.x == x,
            c.y == y,
            c.r == r,
    {
        Circle { x, y, r }
    }

    pub fn get_x(&self) -> (x: S)
        ensures
            x == self.x,
    {
        self.x
    }

    pub fn get_y(&self) -> (y: S)
        ensures
            y == self.y,
    {
        self.y
    }

    pub fn get_r(&self) -> (r: S)
        ensures
            r == self.r,
    {
        self.r
    }

    /// The centre.
    pub fn get_point(&self) -> (p: Point<S>)
        ensures
            p.x == self.x,
            p.y == self.y,
    {
        Point::new(self.x, self.y)
    }
}

/// An axis-aligned box: top-left corner, width and height.
#[derive(Clone, Copy, Debug, PartialEq)]
pub struct Rectangle<S> {
    pub x: S,
    pub y: S,
    pub width: S,
    pub height: S,
}

impl<S: Copy> Rectangle<S> {
    pub fn new(x: S, y: S, w: S, h: S) -> (r: Rectangle<S>)
        ensures
            r.x == x,
            r.y == y,
            r.width == w,
            r.height == h,
    {
        Rectangle { x, y, width: w, height: h }
    }
}

/// A line segment between two points.
#[derive(Clone, Copy, Debug, PartialEq)]
pub struct Segment<S> {
    pub point0: Point<S>,
    pub point1: Point<S>,
}

impl<S: Copy> Segment<S> {
    pub fn new(start: Point<S>, end: Point<S>) -> (s: Segment<S>)
        ensures
            s.point0 == start,
            s.point1 == end,
    {
        Segment { point0: start, point1: end }
    }

    pub fn from_tuples(t0: (S, S), t1: (S, S)) -> (s: Segment<S>)
        ensures
            s.point0.x == t0.0,
            s.point0.y == t0.1,
            s.point1.x == t1.0,
            s.point1.y == t1.1,
    {
        Segment::new(Point::from_tuple(t0), Point::from_tuple(t1))
    }
}

} // verus!

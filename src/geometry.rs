use vstd::prelude::*;

verus! {

/// A point or an extent on the screen, in fixed-point units.
#[derive(Debug, Clone, Copy, PartialEq, Eq, Structural)]
pub struct Vec2 {
    pub x: i64,
    pub y: i64,
}

impl Vec2 {
    pub fn new(x: i64, y: i64) -> (r: Vec2)
        ensures
            r.x == x,
            r.y == y,
    {
        Vec2 { x, y }
    }
}

/// An axis-aligned rectangle: `position` is its centre, `size` its full extent.
#[derive(Debug, Clone, Copy, PartialEq, Eq, Structural)]
pub struct Quad {
    pub position: Vec2,
    pub size: Vec2,
}

impl Quad {
    pub fn new(position: Vec2, size: Vec2) -> (r: Quad)
        ensures
            r.position == position,
            r.size == size,
    {
        Quad { position, size }
    }
}

} // verus!

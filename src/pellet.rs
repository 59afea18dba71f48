//! The pellet the snake eats.
use vstd::prelude::*;

use crate::geometry::{Quad, Vec2};

verus! {

pub struct Pellet {
    pub quad: Quad,
    pub visible: bool,
}

impl Pellet {
    /// A hidden pellet at `position`, `radius` wide and high.
    pub fn new(position: Vec2, radius: i64) -> (r: Pellet)
        ensures
            r.quad == (Quad { position, size: Vec2 { x: radius, y: radius } }),
            !r.visible,
    {
        Pellet { quad: Quad::new(position, Vec2::new(radius, radius)), visible: false }
    }

    /// Moves the pellet to `position`, keeping its size and visibility.
    pub fn update_position(&mut self, position: Vec2)
        ensures
            final(self).quad == (Quad { position, size: old(self).quad.size }),
            final(self).visible == old(self).visible,
    {
        self.quad = Quad::new(position, self.quad.size);
    }
}

} // verus!

//! The position component.
use vstd::prelude::*;

use crate::vector2::Vector2;
use crate::fixed::Fixed;

verus! {

/// Where an entity stands in the world.
#[derive(Clone, Copy, PartialEq, Eq, Structural, Debug)]
pub struct Transform {
    pub pos: Vector2,
}

impl Transform {
    /// Overwrites the position and hands the component back for chaining.
    pub fn set_pos(&mut self, new_pos: Vector2) -> (ret: &mut Self)
        ensures
            *ret == (Transform { pos: new_pos }),
            *final(self) == *final(ret),
    {
        self.pos = new_pos;
        self
    }
}

impl Default for Transform {
    /// The origin.
    fn default() -> (r: Self)
        ensures
            r.pos.x.raw == 0,
            r.pos.y.raw == 0,
    {
        Self { pos: Vector2 { x: Fixed { raw: 0 }, y: Fixed { raw: 0 } } }
    }
}

} // verus!

//! The velocity component.
use vstd::prelude::*;

use crate::vector2::Vector2;
use crate::fixed::Fixed;

verus! {

/// How an entity moves: its velocity and a spare acceleration slot.
#[derive(Clone, Copy, PartialEq, Eq, Structural, Debug)]
pub struct Rigidbody {
    pub vel: Vector2,
    pub accel: Vector2,
}

impl Default for Rigidbody {
    /// At rest.
    fn default() -> (r: Self)
        ensures
            r.vel.x.raw == 0,
            r.vel.y.raw == 0,
            r.accel.x.raw == 0,
            r.accel.y.raw == 0,
    {
        Self {
            vel: Vector2 { x: Fixed { raw: 0 }, y: Fixed { raw: 0 } },
            accel: Vector2 { x: Fixed { raw: 0 }, y: Fixed { raw: 0 } },
        }
    }
}

} // verus!

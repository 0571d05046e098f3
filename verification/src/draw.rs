//! Draw commands: the data handed to the rendering collaborator.
//!
//! Draw passes only read component state; what they produce is an ordered
//! list of rectangle draw calls for the caller to issue.
use vstd::prelude::*;

use crate::fixed::Fixed;
use crate::vector2::Vector2;

verus! {

/// An RGBA colour with 8-bit channels.
#[derive(Clone, Copy, PartialEq, Eq, Structural, Debug)]
pub struct Color {
    pub r: u8,
    pub g: u8,
    pub b: u8,
    pub a: u8,
}

impl Color {
    /// Opaque white.
    pub fn white() -> (c: Color)
        ensures
            c == (Color { r: 255, g: 255, b: 255, a: 255 }),
    {
        Color { r: 255, g: 255, b: 255, a: 255 }
    }

    /// Opaque red.
    pub fn red() -> (c: Color)
        ensures
            c == (Color { r: 255, g: 0, b: 0, a: 255 }),
    {
        Color { r: 255, g: 0, b: 0, a: 255 }
    }
}

/// How a rectangle is drawn: filled, or stroked with a line width.
#[derive(Clone, Copy, PartialEq, Eq, Structural, Debug)]
pub enum DrawMode {
    Fill,
    Stroke(Fixed),
}

/// An axis-aligned rectangle handed to the draw call.
#[derive(Clone, Copy, PartialEq, Eq, Structural, Debug)]
pub struct Rect {
    pub x: Fixed,
    pub y: Fixed,
    pub w: Fixed,
    pub h: Fixed,
}

/// One rectangle draw call: mode, geometry, colour and destination.
#[derive(Clone, Copy, PartialEq, Eq, Structural, Debug)]
pub struct DrawCmd {
    pub mode: DrawMode,
    pub rect: Rect,
    pub color: Color,
    pub dest: Vector2,
}

} // verus!

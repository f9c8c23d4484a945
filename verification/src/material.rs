use vstd::prelude::*;

use crate::fixed::Fx;

verus! {

/// An 8-bit color, one byte per channel.
#[derive(Clone, Copy, Debug, PartialEq, Eq, Structural)]
pub struct Color {
    pub r: u8,
    pub g: u8,
    pub b: u8,
}

impl Color {
    pub fn new(r: u8, g: u8, b: u8) -> (c: Color)
        ensures
            c == (Color { r, g, b }),
    {
        Color { r, g, b }
    }

    pub fn black() -> (c: Color)
        ensures
            c == (Color { r: 0, g: 0, b: 0 }),
    {
        Color { r: 0, g: 0, b: 0 }
    }
}

/// A shading rule: one fixed color, or a three-dimensional checkerboard
/// with the given cell size, evaluated in the shape's accumulated frame.
#[derive(Clone, Copy, Debug, PartialEq, Eq, Structural)]
pub enum Material {
    Simple { color: Color },
    Checkerboard { color1: Color, color2: Color, scale: Fx },
}

impl Material {
    /// A checkerboard cell size of zero would divide by zero at shading time.
    pub open spec fn wf(self) -> bool {
        match self {
            Material::Simple { .. } => true,
            Material::Checkerboard { scale, .. } => scale.wf() && scale.raw != 0,
        }
    }
}

} // verus!

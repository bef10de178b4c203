//! Carriers for the single-precision values that flow through the scene
//! description. The renderer's shading arithmetic interprets them as IEEE-754
//! floats; this crate only stores and moves them, so each component is kept as
//! its raw 32-bit pattern and two values are equal exactly when their patterns
//! are.

use vstd::prelude::*;

verus! {

/// A three-component vector (point, direction or normal), each component the
/// bit pattern of a single-precision float.
#[derive(Debug, Clone, Copy, PartialEq, Eq, Structural)]
pub struct Vec3Bits {
    pub x: u32,
    pub y: u32,
    pub z: u32,
}

impl Vec3Bits {
    pub fn new(x: u32, y: u32, z: u32) -> (v: Vec3Bits)
        ensures
            v == (Vec3Bits { x, y, z }),
    {
        Vec3Bits { x, y, z }
    }
}

/// An RGB triple, each channel the bit pattern of a single-precision float.
#[derive(Debug, Clone, Copy, PartialEq, Eq, Structural)]
pub struct ColorBits {
    pub red: u32,
    pub green: u32,
    pub blue: u32,
}

impl ColorBits {
    pub fn new(red: u32, green: u32, blue: u32) -> (c: ColorBits)
        ensures
            c == (ColorBits { red, green, blue }),
    {
        ColorBits { red, green, blue }
    }
}

} // verus!

//! Geometric primitives of the scene description. Intersection and sampling
//! arithmetic runs on floats outside this crate; here a primitive is its
//! stored parameters, carried as bit patterns, plus the material binding that
//! the scene registry validates.

use crate::vec::Vec3Bits;
use vstd::prelude::*;

verus! {

/// Tagged variant over the supported primitive kinds.
#[derive(Debug, Clone, Copy, PartialEq, Eq, Structural)]
pub enum Geometry {
    Sphere { position: Vec3Bits, radius: u32 },
    Triangle { v0: Vec3Bits, v1: Vec3Bits, v2: Vec3Bits },
}

/// A primitive: geometry paired with the index of its material in the
/// scene's material table.
#[derive(Debug, Clone, Copy, PartialEq, Eq, Structural)]
pub struct Shape<T> {
    pub geometry: T,
    pub material_id: usize,
}

impl<T> Shape<T> {
    pub fn new(geometry: T, material_id: usize) -> (s: Shape<T>)
        ensures
            s.material_id == material_id,
            s.geometry == geometry,
    {
        Shape { geometry, material_id }
    }
}

} // verus!

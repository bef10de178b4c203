//! Lights of the scene. Sampling (illumination queries) runs on floats
//! outside this crate; here a light is its stored parameters, and the two
//! classification questions the estimators ask — delta or not, area or not —
//! are answered exactly.

use crate::vec::{ColorBits, Vec3Bits};
use vstd::prelude::*;

verus! {

/// A point light: a Dirac-delta emitter at a position.
#[derive(Debug, Clone, Copy, PartialEq, Eq, Structural)]
pub struct PointLight {
    pub intensity: ColorBits,
    pub position: Vec3Bits,
}

impl PointLight {
    pub fn new(intensity: ColorBits, position: Vec3Bits) -> (l: PointLight)
        ensures
            l.intensity == intensity,
            l.position == position,
    {
        PointLight { intensity, position }
    }
}

/// An area light: the primitive with this index emits; its material supplies
/// the radiance.
#[derive(Debug, Clone, Copy, PartialEq, Eq, Structural)]
pub struct AreaLight {
    pub shape_id: usize,
}

impl AreaLight {
    pub fn new(shape_id: usize) -> (l: AreaLight)
        ensures
            l.shape_id == shape_id,
    {
        AreaLight { shape_id }
    }
}

/// Tagged variant over the supported light kinds.
#[derive(Debug, Clone, Copy, PartialEq, Eq, Structural)]
pub enum Light {
    Point(PointLight),
    Area(AreaLight),
}

impl Light {
    /// Whether the light's sampling distribution is a Dirac delta; the
    /// multiple-importance weight is 1 for such a light.
    pub open spec fn spec_is_delta_light(self) -> bool {
        self is Point
    }

    pub fn is_delta_light(&self) -> (r: bool)
        ensures
            r == self.spec_is_delta_light(),
    {
        match self {
            Light::Point(_) => true,
            Light::Area(_) => false,
        }
    }

    /// Whether the light is bound to a scene primitive; such lights are
    /// rebuilt from the primitive table during scene preparation.
    pub open spec fn spec_is_area_light(self) -> bool {
        self is Area
    }

    pub fn is_area_light(&self) -> (r: bool)
        ensures
            r == self.spec_is_area_light(),
    {
        match self {
            Light::Point(_) => false,
            Light::Area(_) => true,
        }
    }
}

} // verus!

//! Materials of the scene. The BSDF arithmetic (evaluation and sampling of
//! the diffuse lobe) runs on floats outside this crate; what the registry
//! needs of a material is its stored reflectance and emission and whether it
//! emits, and those are exact here.

use crate::vec::ColorBits;
use vstd::prelude::*;

verus! {

/// Bit pattern of single-precision 0.0, the color with every channel zero.
pub const F32_ZERO_BITS: u32 = 0;

/// A matte (Lambertian) surface.
#[derive(Debug, Clone, Copy, PartialEq, Eq, Structural)]
pub struct MatteMaterial {
    pub reflectance: ColorBits,
}

impl MatteMaterial {
    pub fn new(reflectance: ColorBits) -> (m: MatteMaterial)
        ensures
            m.reflectance == reflectance,
    {
        MatteMaterial { reflectance }
    }
}

/// A matte surface that also emits light.
#[derive(Debug, Clone, Copy, PartialEq, Eq, Structural)]
pub struct MatteEmissiveMaterial {
    pub reflectance: ColorBits,
    pub emission: ColorBits,
}

impl MatteEmissiveMaterial {
    pub fn new(reflectance: ColorBits, emission: ColorBits) -> (m: MatteEmissiveMaterial)
        ensures
            m.reflectance == reflectance,
            m.emission == emission,
    {
        MatteEmissiveMaterial { reflectance, emission }
    }
}

/// Tagged variant over the supported material kinds.
#[derive(Debug, Clone, Copy, PartialEq, Eq, Structural)]
pub enum Material {
    Matte(MatteMaterial),
    MatteEmissive(MatteEmissiveMaterial),
}

impl Material {
    /// Whether this material contributes radiance of its own.
    pub open spec fn spec_is_emissive(self) -> bool {
        self is MatteEmissive
    }

    pub fn is_emissive(&self) -> (r: bool)
        ensures
            r == self.spec_is_emissive(),
    {
        match self {
            Material::Matte(_) => false,
            Material::MatteEmissive(_) => true,
        }
    }

    /// The emitted radiance: the stored emission for an emissive material,
    /// black for every other.
    pub open spec fn spec_emission(self) -> ColorBits {
        match self {
            Material::Matte(_) => ColorBits {
                red: F32_ZERO_BITS,
                green: F32_ZERO_BITS,
                blue: F32_ZERO_BITS,
            },
            Material::MatteEmissive(m) => m.emission,
        }
    }

    pub fn emission(&self) -> (r: ColorBits)
        ensures
            r == self.spec_emission(),
    {
        match self {
            Material::Matte(_) => ColorBits {
                red: F32_ZERO_BITS,
                green: F32_ZERO_BITS,
                blue: F32_ZERO_BITS,
            },
            Material::MatteEmissive(m) => m.emission,
        }
    }
}

} // verus!

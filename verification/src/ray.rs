//! Integer core of the self-intersection-safe ray-origin offset. The offset
//! nudges each coordinate of a hit point by a few ulps along the surface
//! normal by adding a small integer to the coordinate's IEEE-754 bit
//! pattern — for a positive float, a larger bit pattern is a larger float,
//! so stepping the pattern steps the value ordinally. The float glue around
//! this (scaling the normal, and the additive fallback for coordinates of
//! magnitude below 1/32) lives with the caller; the bit arithmetic and its
//! direction are verified here.

use vstd::prelude::*;

verus! {

/// Largest magnitude (bit pattern without the sign bit) a coordinate may
/// have: anything below the infinity pattern is a finite float.
pub const F32_MAGNITUDE_LIMIT: u32 = 0x7F800000;

/// Magnitude pattern of 1/32: below it the caller takes the additive float
/// fallback instead of stepping bit patterns.
pub const F32_ORIGIN_THRESHOLD_BITS: u32 = 0x3D000000;

/// Largest integer nudge the offset ever applies to a bit pattern; the
/// caller derives it from the normal's components, which never exceed one
/// in magnitude, times the fixed scale of 256.
pub const MAX_OFFSET_STEP: i32 = 0x10000;

/// Step a finite coordinate's bit pattern by `step` ulp-like units away
/// from the surface: added for a coordinate on the positive axis side
/// (`negative` false), subtracted on the negative side, so the nudge always
/// moves the magnitude the same way regardless of sign. The coordinate's
/// magnitude must be at least 1/32 — smaller ones take the caller's
/// additive fallback — so the step can never carry across the sign bit.
/// For a non-negative coordinate and a non-negative step the pattern never
/// decreases: the offset point never falls behind the hit point on an axis
/// whose normal component points the positive way.
pub fn offset_coord_bits(bits: u32, step: i32, negative: bool) -> (r: u32)
    requires
        bits & 0x8000_0000u32 == (if negative {
            0x8000_0000u32
        } else {
            0u32
        }),
        bits & 0x7FFF_FFFFu32 < F32_MAGNITUDE_LIMIT,
        bits & 0x7FFF_FFFFu32 >= F32_ORIGIN_THRESHOLD_BITS,
        -MAX_OFFSET_STEP <= step <= MAX_OFFSET_STEP,
    ensures
        !negative ==> r == bits + step,
        negative ==> r == bits - step,
        !negative && step >= 0 ==> bits <= r < 0x8000_0000u32,
        negative && step >= 0 ==> 0x8000_0000u32 <= r <= bits,
{
    proof {
        assert(!negative ==> F32_ORIGIN_THRESHOLD_BITS <= bits && bits < F32_MAGNITUDE_LIMIT)
            by (bit_vector)
            requires
                bits & 0x8000_0000u32 == (if negative {
                    0x8000_0000u32
                } else {
                    0u32
                }),
                bits & 0x7FFF_FFFFu32 < F32_MAGNITUDE_LIMIT,
                bits & 0x7FFF_FFFFu32 >= F32_ORIGIN_THRESHOLD_BITS,
        ;
        assert(negative ==> 0x8000_0000u32 + F32_ORIGIN_THRESHOLD_BITS <= bits && bits
            < 0x8000_0000u32 + F32_MAGNITUDE_LIMIT) by (bit_vector)
            requires
                bits & 0x8000_0000u32 == (if negative {
                    0x8000_0000u32
                } else {
                    0u32
                }),
                bits & 0x7FFF_FFFFu32 < F32_MAGNITUDE_LIMIT,
                bits & 0x7FFF_FFFFu32 >= F32_ORIGIN_THRESHOLD_BITS,
        ;
    }
    if negative {
        if step >= 0 {
            bits - (step as u32)
        } else {
            bits + ((-step) as u32)
        }
    } else {
        if step >= 0 {
            bits + (step as u32)
        } else {
            bits - ((-step) as u32)
        }
    }
}

} // verus!

//! Addressing of the image plane. The pixel accumulator itself adds float
//! colors and lives outside this crate; the row flip between image-plane
//! coordinates (y growing upward) and storage rows (row 0 on top), and the
//! row-major pixel index, are verified here.

use vstd::prelude::*;

verus! {

/// Tone-mapping operator applied when the accumulated image is encoded.
#[derive(Debug, Clone, Copy, PartialEq, Eq, Structural)]
pub enum TMOType {
    Linear,
    Gamma,
    Reinhard,
}

/// Storage row of an image-plane row: the image plane counts y upward while
/// pixels are stored with row 0 at the top, so row y lands at height - y - 1.
pub fn flip_row(y: usize, height: usize) -> (r: usize)
    requires
        y < height,
    ensures
        r == height - y - 1,
        r < height,
{
    height - y - 1
}

/// Flipping a row twice gives the row back, so the storage orientation is a
/// bijection between image-plane rows and stored rows.
pub proof fn lemma_flip_row_involution(y: int, height: int)
    requires
        0 <= y < height,
    ensures
        height - (height - y - 1) - 1 == y,
        0 <= height - y - 1 < height,
{
}

/// Index of pixel (x, y) in the row-major pixel vector of a width-wide
/// image.
pub fn pixel_index(x: usize, y: usize, width: usize, height: usize) -> (r: usize)
    requires
        x < width,
        y < height,
        width * height <= usize::MAX,
    ensures
        r == y * width + x,
        r < width * height,
{
    proof {
        assert(y * width + x < width * height) by (nonlinear_arith)
            requires
                x < width,
                y < height,
        ;
    }
    y * width + x
}

/// Distinct pixels of the image land on distinct row-major indices, so one
/// accumulator cell belongs to exactly one pixel.
pub proof fn lemma_pixel_index_injective(x1: int, y1: int, x2: int, y2: int, width: int)
    requires
        0 <= x1 < width,
        0 <= x2 < width,
        0 <= y1,
        0 <= y2,
        (x1, y1) != (x2, y2),
    ensures
        y1 * width + x1 != y2 * width + x2,
{
    if y1 == y2 {
        assert(y1 * width == y2 * width);
    } else {
        assert(y1 * width + x1 != y2 * width + x2) by (nonlinear_arith)
            requires
                0 <= x1 < width,
                0 <= x2 < width,
                y1 != y2,
                0 <= y1,
                0 <= y2,
        ;
    }
}

} // verus!

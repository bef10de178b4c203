//! Tiles of the image plane and the per-tile pixel sampler. A sampler visits
//! every pixel of its tile in row-major order exactly once, pairing each
//! visit with a fresh jitter offset drawn from the worker's generator.

use crate::pcg::{pcg_next_state, pcg_output, PCGRng};
use vstd::prelude::*;

verus! {

/// Half-open rectangle [startx, endx) x [starty, endy) in pixel coordinates.
#[derive(Debug, Clone, Copy, PartialEq, Eq, Structural)]
pub struct Tile {
    pub startx: usize,
    pub starty: usize,
    pub endx: usize,
    pub endy: usize,
}

impl Tile {
    /// A rectangle is valid when each end is not before its start.
    pub open spec fn wf(self) -> bool {
        self.startx <= self.endx && self.starty <= self.endy
    }

    pub open spec fn width(self) -> nat {
        (self.endx - self.startx) as nat
    }

    pub open spec fn height(self) -> nat {
        (self.endy - self.starty) as nat
    }

    /// Number of pixels the tile covers.
    pub open spec fn area(self) -> nat {
        self.width() * self.height()
    }

    pub open spec fn contains(self, x: int, y: int) -> bool {
        self.startx <= x < self.endx && self.starty <= y < self.endy
    }
}

/// Column of the k-th pixel of a tile in row-major visiting order.
pub open spec fn tile_pixel_x(tile: Tile, k: nat) -> int {
    tile.startx + (k % tile.width())
}

/// Row of the k-th pixel of a tile in row-major visiting order.
pub open spec fn tile_pixel_y(tile: Tile, k: nat) -> int {
    tile.starty + (k / tile.width())
}

/// Row-major order enumerates exactly the pixels of the tile: every index
/// below the area lands inside the tile, distinct indices land on distinct
/// pixels, and every pixel of the tile is reached by the index rebuilt from
/// its coordinates.
pub proof fn lemma_row_major_enumeration(tile: Tile, k: nat)
    requires
        tile.wf(),
        k < tile.area(),
    ensures
        tile.contains(tile_pixel_x(tile, k), tile_pixel_y(tile, k)),
        forall|j: nat|
            j < tile.area() && j != k ==> tile_pixel_x(tile, j) != tile_pixel_x(tile, k)
                || tile_pixel_y(tile, j) != tile_pixel_y(tile, k),
        forall|x: int, y: int|
            tile.contains(x, y) ==> {
                let idx = ((y - tile.starty) * tile.width() + (x - tile.startx)) as nat;
                idx < tile.area() && tile_pixel_x(tile, idx) == x && tile_pixel_y(tile, idx) == y
            },
{
    let w = tile.width();
    assert(w > 0) by (nonlinear_arith)
        requires
            k < tile.area(),
            tile.area() == w * tile.height(),
    ;
    assert(k % w < w && k / w >= 0 && k / w * w + k % w == k) by (nonlinear_arith)
        requires
            w > 0,
    ;
    assert(k / w < tile.height()) by (nonlinear_arith)
        requires
            w > 0,
            k < w * tile.height(),
            k / w * w + k % w == k,
            k % w < w,
    ;
    assert forall|j: nat| j < tile.area() && j != k implies tile_pixel_x(tile, j) != tile_pixel_x(
        tile,
        k,
    ) || tile_pixel_y(tile, j) != tile_pixel_y(tile, k) by {
        assert(j % w < w && j / w * w + j % w == j) by (nonlinear_arith)
            requires
                w > 0,
        ;
    }
    assert forall|x: int, y: int| tile.contains(x, y) implies {
        let idx = ((y - tile.starty) * w + (x - tile.startx)) as nat;
        idx < tile.area() && tile_pixel_x(tile, idx) == x && tile_pixel_y(tile, idx) == y
    } by {
        let r = y - tile.starty;
        let c = x - tile.startx;
        let idx = (r * w + c) as nat;
        assert(r * w + c >= 0 && r * w + c < w * tile.height() && (r * w + c) % (w as int) == c && (
        r * w + c) / (w as int) == r) by (nonlinear_arith)
            requires
                w > 0,
                0 <= r < tile.height(),
                0 <= c < w,
        ;
        assert(idx < tile.area() && tile_pixel_x(tile, idx) == x && tile_pixel_y(tile, idx) == y);
    }
}

/// One pixel visit: integer pixel coordinates plus the jitter pair, each
/// jitter the 24-bit numerator of a dyadic fraction in [0, 1).
#[derive(Debug, Clone, Copy, PartialEq, Eq, Structural)]
pub struct ImageSample {
    pub x: usize,
    pub y: usize,
    pub xp: u32,
    pub yp: u32,
}

/// Cursor over the pixels of one tile in row-major order.
pub struct ImageSampler {
    pub tile: Tile,
    pub curx: usize,
    pub cury: usize,
}

impl ImageSampler {
    pub open spec fn tile(self) -> Tile {
        self.tile
    }

    /// The cursor always rests on the next pixel to visit, or just past the
    /// last row when the tile is exhausted.
    pub open spec fn wf(self) -> bool {
        &&& self.tile.wf()
        &&& self.tile.starty <= self.cury <= self.tile.endy
        &&& self.tile.startx <= self.curx
        &&& if self.cury == self.tile.endy {
            self.curx == self.tile.startx
        } else {
            self.curx < self.tile.endx
        }
    }

    /// How many samples have been handed out so far.
    pub open spec fn emitted(self) -> nat {
        ((self.cury - self.tile.starty) * self.tile.width() + (self.curx
            - self.tile.startx)) as nat
    }

    pub fn new(tile: Tile) -> (s: ImageSampler)
        requires
            tile.wf(),
        ensures
            s.wf(),
            s.tile() == tile,
            s.emitted() == 0,
    {
        if tile.startx == tile.endx {
            ImageSampler { tile, curx: tile.startx, cury: tile.endy }
        } else {
            ImageSampler { tile, curx: tile.startx, cury: tile.starty }
        }
    }

    /// Yield the next pixel sample, or None once every pixel of the tile has
    /// been visited. The k-th sample is the k-th pixel in row-major order,
    /// and its jitter pair is exactly the next two draws of the generator.
    pub fn next(&mut self, rng: &mut PCGRng) -> (r: Option<ImageSample>)
        requires
            old(self).wf(),
        ensures
            final(self).wf(),
            final(self).tile() == old(self).tile(),
            old(self).emitted() < old(self).tile().area() ==> {
                &&& r is Some
                &&& final(self).emitted() == old(self).emitted() + 1
                &&& r->Some_0.x == tile_pixel_x(old(self).tile(), old(self).emitted())
                &&& r->Some_0.y == tile_pixel_y(old(self).tile(), old(self).emitted())
                &&& r->Some_0.xp == pcg_output(old(rng).state) >> 8u32
                &&& r->Some_0.yp == pcg_output(
                    pcg_next_state(old(rng).state, old(rng).inc),
                ) >> 8u32
                &&& r->Some_0.xp < 0x1000000 && r->Some_0.yp < 0x1000000
                &&& final(rng).state == pcg_next_state(
                    pcg_next_state(old(rng).state, old(rng).inc),
                    old(rng).inc,
                )
                &&& final(rng).inc == old(rng).inc
            },
            old(self).emitted() >= old(self).tile().area() ==> {
                &&& r is None
                &&& *final(self) == *old(self)
                &&& *final(rng) == *old(rng)
            },
    {
        proof {
            lemma_sampler_cursor(*self);
        }
        if self.cury == self.tile.endy {
            return None;
        }
        let x1 = rng.rnd_u32();
        let x2 = rng.rnd_u32();
        let xp = x1 >> 8u32;
        let yp = x2 >> 8u32;
        assert(xp < 0x1000000 && yp < 0x1000000) by (bit_vector)
            requires
                xp == x1 >> 8u32,
                yp == x2 >> 8u32,
        ;
        let img_sample = ImageSample { x: self.curx, y: self.cury, xp, yp };
        let ghost pre = *self;
        self.curx = self.curx + 1;
        if self.curx == self.tile.endx {
            self.curx = self.tile.startx;
            self.cury = self.cury + 1;
        }
        proof {
            lemma_sampler_step(pre, *self);
        }
        Some(img_sample)
    }
}

/// Relates the cursor position to the count of emitted samples: the cursor
/// has run off the rows exactly when every pixel was visited, and otherwise
/// it rests on the pixel the count points at.
proof fn lemma_sampler_cursor(s: ImageSampler)
    requires
        s.wf(),
    ensures
        (s.cury == s.tile.endy) <==> s.emitted() >= s.tile.area(),
        s.cury < s.tile.endy ==> s.emitted() < s.tile.area() && s.curx == tile_pixel_x(
            s.tile,
            s.emitted(),
        ) && s.cury == tile_pixel_y(s.tile, s.emitted()),
{
    let w = s.tile.width();
    let r = s.cury - s.tile.starty;
    let c = s.curx - s.tile.startx;
    if s.cury == s.tile.endy {
        assert(s.emitted() == w * s.tile.height()) by (nonlinear_arith)
            requires
                s.emitted() == (r * w + c) as nat,
                r == s.tile.height(),
                c == 0,
        ;
    } else {
        assert(r * w + c < w * s.tile.height() && (r * w + c) % (w as int) == c && (r * w + c) / (
        w as int) == r) by (nonlinear_arith)
            requires
                w > 0,
                0 <= r < s.tile.height(),
                0 <= c < w,
        ;
    }
}

/// Advancing the cursor by one pixel raises the emitted count by one.
proof fn lemma_sampler_step(pre: ImageSampler, post: ImageSampler)
    requires
        pre.wf(),
        pre.cury < pre.tile.endy,
        post.tile == pre.tile,
        if pre.curx + 1 == pre.tile.endx {
            post.curx == pre.tile.startx && post.cury == pre.cury + 1
        } else {
            post.curx == pre.curx + 1 && post.cury == pre.cury
        },
    ensures
        post.wf(),
        post.emitted() == pre.emitted() + 1,
{
    let w = pre.tile.width();
    let r = pre.cury - pre.tile.starty;
    let c = pre.curx - pre.tile.startx;
    if pre.curx + 1 == pre.tile.endx {
        assert((r + 1) * w == r * w + w) by (nonlinear_arith);
    }
}

} // verus!

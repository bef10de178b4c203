//! Scheduler bookkeeping. The image plane is cut into tiles; a render is the
//! set of (tile, sample-pass) jobs, each processed exactly once. Workers are
//! driven either by a fixed fan-out (every worker owns the tile indices
//! congruent to its id) or by a job queue that hands out job numbers in
//! order; both schedules are verified here, while threads, channels and the
//! wall clock stay with the caller.

use crate::img_sampling::Tile;
use vstd::arithmetic::div_mod::{
    lemma_fundamental_div_mod,
    lemma_fundamental_div_mod_converse,
    lemma_mod_bound,
};
use vstd::prelude::*;

verus! {

/// Number of tiles needed to cover `extent` pixels with tiles of
/// `tile_size` pixels: the rounded-up quotient.
pub open spec fn tiles_along(extent: nat, tile_size: nat) -> nat
    recommends
        tile_size > 0,
{
    ((extent + tile_size - 1) / (tile_size as int)) as nat
}

/// The i-th tile of the row-major tile grid over a width x height image.
pub open spec fn tile_at(width: nat, height: nat, tile_size: nat, i: nat) -> Tile
    recommends
        tile_size > 0,
{
    let cols = tiles_along(width, tile_size);
    let tx = i % cols;
    let ty = i / cols;
    Tile {
        startx: (tx * tile_size) as usize,
        starty: (ty * tile_size) as usize,
        endx: (if tx * tile_size + tile_size <= width {
            tx * tile_size + tile_size
        } else {
            width
        }) as usize,
        endy: (if ty * tile_size + tile_size <= height {
            ty * tile_size + tile_size
        } else {
            height
        }) as usize,
    }
}

/// Cut the image into a row-major grid of tiles of at most
/// `tile_size` x `tile_size` pixels; the last row and column are clipped to
/// the image border.
pub fn create_tiles(width: usize, height: usize, tile_size: usize) -> (tiles: Vec<Tile>)
    requires
        tile_size >= 1,
        width + tile_size <= usize::MAX,
        height + tile_size <= usize::MAX,
    ensures
        tiles@.len() == tiles_along(width as nat, tile_size as nat) * tiles_along(
            height as nat,
            tile_size as nat,
        ),
        forall|i: int|
            0 <= i < tiles@.len() ==> tiles@[i] == tile_at(
                width as nat,
                height as nat,
                tile_size as nat,
                i as nat,
            ),
{
    let ghost cols = tiles_along(width as nat, tile_size as nat);
    let ghost rows = tiles_along(height as nat, tile_size as nat);
    let mut tiles: Vec<Tile> = Vec::new();
    let mut y: usize = 0;
    let mut ty: usize = 0;
    proof {
        lemma_grid_index(width as nat, tile_size as nat, 0);
        lemma_grid_index(height as nat, tile_size as nat, 0);
        assert(0 * tile_size == 0) by (nonlinear_arith);
    }
    while y < height
        invariant
            tile_size >= 1,
            width + tile_size <= usize::MAX,
            height + tile_size <= usize::MAX,
            cols == tiles_along(width as nat, tile_size as nat),
            rows == tiles_along(height as nat, tile_size as nat),
            y == ty * tile_size,
            ty <= rows,
            y >= height ==> ty == rows,
            tiles@.len() == ty * cols,
            forall|i: int|
                0 <= i < tiles@.len() ==> tiles@[i] == tile_at(
                    width as nat,
                    height as nat,
                    tile_size as nat,
                    i as nat,
                ),
        decreases rows - ty,
    {
        let mut x: usize = 0;
        let mut tx: usize = 0;
        proof {
            lemma_grid_index(height as nat, tile_size as nat, ty as nat);
            lemma_grid_index(width as nat, tile_size as nat, 0);
            assert(ty * tile_size < height && 0 * tile_size == 0) by (nonlinear_arith)
                requires
                    y == ty * tile_size,
                    y < height,
            ;
        }
        while x < width
            invariant
                tile_size >= 1,
                width + tile_size <= usize::MAX,
                height + tile_size <= usize::MAX,
                cols == tiles_along(width as nat, tile_size as nat),
                rows == tiles_along(height as nat, tile_size as nat),
                y == ty * tile_size,
                ty < rows,
                y < height,
                x == tx * tile_size,
                tx <= cols,
                x >= width ==> tx == cols,
                tiles@.len() == ty * cols + tx,
                forall|i: int|
                    0 <= i < tiles@.len() ==> tiles@[i] == tile_at(
                        width as nat,
                        height as nat,
                        tile_size as nat,
                        i as nat,
                    ),
            decreases cols - tx,
        {
            let endx = if x + tile_size <= width {
                x + tile_size
            } else {
                width
            };
            let endy = if y + tile_size <= height {
                y + tile_size
            } else {
                height
            };
            let tile = Tile { startx: x, starty: y, endx, endy };
            proof {
                lemma_grid_index(width as nat, tile_size as nat, tx as nat);
                assert(tx * tile_size < width) by (nonlinear_arith)
                    requires
                        x == tx * tile_size,
                        x < width,
                ;
                let i = (ty * cols + tx) as nat;
                assert(i % cols == tx as nat && i / cols == ty as nat)
                    by (nonlinear_arith)
                    requires
                        cols > 0,
                        0 <= tx < cols,
                        0 <= ty,
                        i == ty * cols + tx,
                ;
                assert(tile == tile_at(width as nat, height as nat, tile_size as nat, i));
                assert(ty * cols + (tx + 1) == i + 1) by (nonlinear_arith)
                    requires
                        i == ty * cols + tx,
                ;
            }
            tiles.push(tile);
            let ghost old_tx = tx as int;
            x = x + tile_size;
            tx = tx + 1;
            proof {
                lemma_grid_index(width as nat, tile_size as nat, tx as nat);
                assert(tx * tile_size == old_tx * tile_size + tile_size) by (nonlinear_arith)
                    requires
                        tx == old_tx + 1,
                ;
            }
        }
        let ghost old_ty = ty as int;
        y = y + tile_size;
        ty = ty + 1;
        proof {
            lemma_grid_index(height as nat, tile_size as nat, ty as nat);
            assert(ty * tile_size == old_ty * tile_size + tile_size && (old_ty * cols + cols) == ty
                * cols) by (nonlinear_arith)
                requires
                    ty == old_ty + 1,
            ;
        }
    }
    proof {
        assert(ty * cols == rows * cols && rows * cols == cols * rows) by (nonlinear_arith)
            requires
                ty == rows,
        ;
    }
    tiles
}

/// Along one axis: the k-th grid line `k * tile_size` lies before the image
/// border exactly when k is below the tile count for that axis.
proof fn lemma_grid_index(extent: nat, tile_size: nat, k: nat)
    requires
        tile_size >= 1,
    ensures
        k * tile_size < extent <==> k < tiles_along(extent, tile_size),
{
    let c = tiles_along(extent, tile_size);
    assert(c == (extent + tile_size - 1) / (tile_size as int));
    assert((k * tile_size < extent ==> k < c) && (k < c ==> k * tile_size < extent))
        by (nonlinear_arith)
        requires
            tile_size >= 1,
            c == (extent + tile_size - 1) / (tile_size as int),
    ;
}

/// Every pixel of the image lies in exactly one tile of the grid: the tile
/// whose index is rebuilt from the pixel's coordinates, and no other.
pub proof fn lemma_tiles_cover_pixel(width: nat, height: nat, tile_size: nat, px: nat, py: nat)
    requires
        tile_size >= 1,
        px < width <= usize::MAX,
        py < height <= usize::MAX,
    ensures
        ({
            let cols = tiles_along(width, tile_size);
            let i = ((py as int) / (tile_size as int)) * cols + (px as int) / (tile_size as int);
            &&& 0 <= i < cols * tiles_along(height, tile_size)
            &&& tile_at(width, height, tile_size, i as nat).contains(px as int, py as int)
            &&& forall|j: nat|
                j < cols * tiles_along(height, tile_size) && j != i ==> !tile_at(
                    width,
                    height,
                    tile_size,
                    j,
                ).contains(px as int, py as int)
        }),
{
    let ts = tile_size as int;
    let cols = tiles_along(width, tile_size);
    let rows = tiles_along(height, tile_size);
    let tx = (px as int) / ts;
    let ty = (py as int) / ts;
    lemma_pixel_slot(px, tile_size);
    lemma_pixel_slot(py, tile_size);
    lemma_grid_index(width, tile_size, tx as nat);
    lemma_grid_index(height, tile_size, ty as nat);
    let i = ty * cols + tx;
    lemma_fundamental_div_mod_converse(i, cols as int, ty, tx);
    assert(0 <= i < rows * cols && rows * cols == cols * rows) by (nonlinear_arith)
        requires
            0 <= tx < cols,
            0 <= ty < rows,
            i == ty * cols + tx,
    ;
    assert(tile_at(width, height, tile_size, i as nat).contains(px as int, py as int));
    assert forall|j: nat|
        j < cols * rows && j != i implies !tile_at(width, height, tile_size, j).contains(
        px as int,
        py as int,
    ) by {
        let jx = (j as int) % (cols as int);
        let jy = (j as int) / (cols as int);
        lemma_mod_bound(j as int, cols as int);
        lemma_fundamental_div_mod(j as int, cols as int);
        assert(jy * cols + jx == j && jy >= 0 && jy < rows) by (nonlinear_arith)
            requires
                cols > 0,
                (cols as int) * jy + jx == j,
                0 <= jx < cols,
                0 <= j < cols * rows,
        ;
        lemma_grid_index(width, tile_size, jx as nat);
        lemma_grid_index(height, tile_size, jy as nat);
        if tile_at(width, height, tile_size, j).contains(px as int, py as int) {
            assert(jx * ts <= px < jx * ts + ts && jy * ts <= py < jy * ts + ts);
            lemma_slot_unique(px, tile_size, jx as nat);
            lemma_slot_unique(py, tile_size, jy as nat);
            assert(j == i) by (nonlinear_arith)
                requires
                    jy * cols + jx == j,
                    i == ty * cols + tx,
                    jx == tx,
                    jy == ty,
            ;
        }
    }
}

/// A pixel lies inside the slot its quotient by the tile size names.
proof fn lemma_pixel_slot(p: nat, tile_size: nat)
    requires
        tile_size >= 1,
    ensures
        ({
            let k = (p as int) / (tile_size as int);
            0 <= k && k * tile_size <= p < k * tile_size + tile_size
        }),
{
    let ts = tile_size as int;
    let k = (p as int) / ts;
    lemma_mod_bound(p as int, ts);
    lemma_fundamental_div_mod(p as int, ts);
    assert(k >= 0 && k * ts == ts * k) by (nonlinear_arith)
        requires
            ts >= 1,
            ts * k + (p as int) % ts == p,
            0 <= (p as int) % ts < ts,
    ;
}

/// Only one slot along an axis contains a given pixel.
proof fn lemma_slot_unique(p: nat, tile_size: nat, k: nat)
    requires
        tile_size >= 1,
        k * tile_size <= p < k * tile_size + tile_size,
    ensures
        k == (p as int) / (tile_size as int),
{
    let ts = tile_size as int;
    assert((k as int) * ts == (p as int) - ((p as int) - (k as int) * ts)) by (nonlinear_arith);
    lemma_fundamental_div_mod_converse(
        p as int,
        ts,
        k as int,
        (p as int) - (k as int) * ts,
    );
}

/// Tile indices owned by one worker under the fixed fan-out schedule: its
/// own id, then every `n_workers`-th index after it.
pub fn worker_tile_indices(worker: usize, n_workers: usize, n_tiles: usize) -> (r: Vec<usize>)
    requires
        worker < n_workers,
        n_tiles + n_workers <= usize::MAX,
    ensures
        forall|k: int| 0 <= k < r@.len() ==> r@[k] == worker + k * n_workers,
        forall|k: int| 0 <= k < r@.len() ==> r@[k] < n_tiles,
        worker + r@.len() * n_workers >= n_tiles,
{
    let mut r: Vec<usize> = Vec::new();
    let mut idx: usize = worker;
    proof {
        assert(r@.len() * n_workers == 0) by (nonlinear_arith)
            requires
                r@.len() == 0,
        ;
    }
    while idx < n_tiles
        invariant
            worker < n_workers,
            n_tiles + n_workers <= usize::MAX,
            idx == worker + r@.len() * n_workers,
            forall|k: int| 0 <= k < r@.len() ==> r@[k] == worker + k * n_workers,
            forall|k: int| 0 <= k < r@.len() ==> r@[k] < n_tiles,
        decreases n_tiles + n_workers - idx,
    {
        r.push(idx);
        proof {
            assert(worker + (r@.len() - 1) * n_workers + n_workers == worker + r@.len()
                * n_workers) by (nonlinear_arith);
        }
        idx = idx + n_workers;
    }
    r
}

/// Under the fixed fan-out schedule every tile index belongs to exactly one
/// worker: the one its remainder modulo the worker count names.
pub proof fn lemma_fanout_partition(t: nat, n_workers: nat, n_tiles: nat)
    requires
        n_workers >= 1,
        t < n_tiles,
    ensures
        ({
            let w = (t as int) % (n_workers as int);
            &&& 0 <= w < n_workers
            &&& ((t as int) - w) % (n_workers as int) == 0
            &&& forall|w2: int|
                0 <= w2 < n_workers && w2 != w ==> #[trigger] (((t as int) - w2) % (
                n_workers as int)) != 0
        }),
{
    let n = n_workers as int;
    let ti = t as int;
    let w = ti % n;
    assert(0 <= w < n && (ti - w) % n == 0) by (nonlinear_arith)
        requires
            n >= 1,
            w == ti % n,
    ;
    assert forall|w2: int| 0 <= w2 < n && w2 != w implies #[trigger] ((ti - w2) % n) != 0 by {
        assert((ti - w2) % n == 0 ==> w2 == ti % n) by (nonlinear_arith)
            requires
                n >= 1,
                0 <= w2 < n,
                0 <= ti,
        ;
    }
}

/// Bookkeeping for the job-queue schedule: jobs are numbered consecutively,
/// job j renders tile `j % n_tiles` for sample pass `j / n_tiles`. The
/// driver issues each job number exactly once and counts completions; the
/// render is finished when every job was issued and completed.
pub struct JobQueue {
    pub n_tiles: usize,
    pub spp: usize,
    pub issued: usize,
    pub completed: usize,
}

impl JobQueue {
    /// Total number of jobs of the whole render.
    pub open spec fn total(self) -> nat {
        (self.n_tiles * self.spp) as nat
    }

    pub open spec fn wf(self) -> bool {
        self.completed <= self.issued <= self.total() && self.total() <= usize::MAX
    }

    pub fn new(n_tiles: usize, spp: usize) -> (q: JobQueue)
        requires
            n_tiles * spp <= usize::MAX,
        ensures
            q.wf(),
            q.n_tiles == n_tiles,
            q.spp == spp,
            q.issued == 0,
            q.completed == 0,
    {
        JobQueue { n_tiles, spp, issued: 0, completed: 0 }
    }

    pub fn total_jobs(&self) -> (r: usize)
        requires
            self.wf(),
        ensures
            r == self.total(),
    {
        proof {
            assert(self.n_tiles * self.spp >= 0) by (nonlinear_arith);
        }
        self.n_tiles * self.spp
    }

    /// Hand out the next job number, or None when every job was issued.
    /// Successive calls return 0, 1, 2, ..., so no job is issued twice.
    pub fn next_job(&mut self) -> (r: Option<usize>)
        requires
            old(self).wf(),
        ensures
            final(self).wf(),
            final(self).n_tiles == old(self).n_tiles,
            final(self).spp == old(self).spp,
            final(self).completed == old(self).completed,
            old(self).issued < old(self).total() ==> r == Some(old(self).issued)
                && final(self).issued == old(self).issued + 1,
            old(self).issued >= old(self).total() ==> r is None && *final(self) == *old(self),
    {
        let total = self.total_jobs();
        if self.issued < total {
            let job = self.issued;
            self.issued = self.issued + 1;
            Some(job)
        } else {
            None
        }
    }

    /// Tile rendered by a job.
    pub fn job_tile(&self, job: usize) -> (r: usize)
        requires
            self.wf(),
            self.n_tiles > 0,
            job < self.total(),
        ensures
            r == job % self.n_tiles,
            r < self.n_tiles,
    {
        job % self.n_tiles
    }

    /// Sample pass a job belongs to.
    pub fn job_pass(&self, job: usize) -> (r: usize)
        requires
            self.wf(),
            self.n_tiles > 0,
            job < self.total(),
        ensures
            r == job / self.n_tiles,
            r < self.spp,
    {
        proof {
            assert((job as int) / (self.n_tiles as int) < self.spp) by (nonlinear_arith)
                requires
                    self.n_tiles > 0,
                    job < self.n_tiles * self.spp,
            ;
        }
        job / self.n_tiles
    }

    /// Record one merged result.
    pub fn complete_job(&mut self)
        requires
            old(self).wf(),
            old(self).completed < old(self).issued,
        ensures
            final(self).wf(),
            *final(self) == (JobQueue { completed: (old(self).completed + 1) as usize, ..*old(self) }),
    {
        self.completed = self.completed + 1;
    }

    /// Jobs handed to workers whose results were not merged yet.
    pub fn outstanding(&self) -> (r: usize)
        requires
            self.wf(),
        ensures
            r == self.issued - self.completed,
    {
        self.issued - self.completed
    }

    /// The render is finished when every job was completed; by
    /// well-formedness that implies every job was issued.
    pub fn is_finished(&self) -> (r: bool)
        requires
            self.wf(),
        ensures
            r == (self.completed == self.total()),
            r ==> self.issued == self.total(),
    {
        let total = self.total_jobs();
        self.completed == total
    }
}

/// Job numbers are in bijection with (sample pass, tile) pairs: each job
/// yields an in-range pair, rebuilding the number from the pair gives the
/// job back, and distinct jobs yield distinct pairs. Together with
/// `JobQueue::next_job` issuing each number exactly once, every
/// (tile, sample-pass) pair of a finished render is processed exactly once.
pub proof fn lemma_job_pair_bijection(n_tiles: nat, spp: nat, job: nat)
    requires
        n_tiles > 0,
        job < n_tiles * spp,
    ensures
        ({
            let tile = (job as int) % (n_tiles as int);
            let pass = (job as int) / (n_tiles as int);
            &&& 0 <= tile < n_tiles
            &&& 0 <= pass < spp
            &&& pass * n_tiles + tile == job
            &&& forall|j2: int|
                0 <= j2 < n_tiles * spp && j2 != job ==> #[trigger] (j2 % (n_tiles as int))
                    != tile || j2 / (n_tiles as int) != pass
        }),
{
    let n = n_tiles as int;
    let ji = job as int;
    let tile = ji % n;
    let pass = ji / n;
    lemma_mod_bound(ji, n);
    lemma_fundamental_div_mod(ji, n);
    assert(pass * n == n * pass) by (nonlinear_arith);
    assert(ji < n * spp) by (nonlinear_arith)
        requires
            job < n_tiles * spp,
            ji == job,
            n == n_tiles,
    ;
    assert(0 <= pass < spp) by (nonlinear_arith)
        requires
            n > 0,
            pass * n + tile == ji,
            0 <= tile < n,
            0 <= ji < n * spp,
    ;
    assert forall|j2: int|
        0 <= j2 < n_tiles * spp && j2 != ji implies #[trigger] (j2 % n) != tile || j2 / n
        != pass by {
        lemma_fundamental_div_mod(j2, n);
    }
}

/// Completing jobs one at a time can only end in the finished state: each
/// completion strictly shrinks the count of jobs still unfinished, so a
/// driver that keeps merging results reaches `completed == total`, no matter
/// how timeouts cut the run into separate calls.
pub proof fn lemma_completion_progress(pre: JobQueue, post: JobQueue)
    requires
        pre.wf(),
        pre.completed < pre.issued,
        post == (JobQueue { completed: (pre.completed + 1) as usize, ..pre }),
    ensures
        post.wf(),
        post.total() - post.completed < pre.total() - pre.completed,
{
}

} // verus!

//! Core of an offline Monte Carlo path tracer: the deterministic PRNG, the
//! tile decomposition of the image plane, the per-tile pixel sampler, the
//! scheduler bookkeeping that hands (tile, sample-pass) jobs to workers, the
//! scene registry with its identifier invariants, and the bit-level helpers
//! used by the numerically robust ray-origin offset.
//!
//! Shading arithmetic itself runs on IEEE-754 floats, which stay outside the
//! verified core; wherever a float crosses the boundary it is carried as its
//! raw bit pattern and never interpreted here.

pub mod bvh;
pub mod desc;
pub mod img_sampling;
pub mod lights;
pub mod materials;
pub mod pcg;
pub mod pixel_buffer;
pub mod ray;
pub mod renderer;
pub mod scene;
pub mod shapes;
pub mod vec;

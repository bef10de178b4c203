//! PCG-family pseudo-random generator (XSH-RR output on a 64-bit linear
//! congruential state). Every worker thread owns one; renders are reproducible
//! because each draw is an exact function of the seed.

use vstd::prelude::*;

verus! {

/// Multiplier of the 64-bit linear congruential state advance.
pub const PCG_MULTIPLIER: u64 = 6364136223846793005;

/// The state that follows `state` for stream selector `inc`:
/// `state * PCG_MULTIPLIER + (inc | 1)`, mod 2^64.
pub open spec fn pcg_next_state(state: u64, inc: u64) -> u64 {
    vstd::wrapping::u64_specs::wrapping_add(
        vstd::wrapping::u64_specs::wrapping_mul(state, PCG_MULTIPLIER),
        inc | 1,
    )
}

/// The 32-bit XSH-RR output of a pre-advance state: xorshift the high bits
/// down, then rotate right by the top five bits of the state.
pub open spec fn pcg_output(state: u64) -> u32 {
    let xorshifted = (((state >> 18) ^ state) >> 27) as u32;
    let rot = (state >> 59) as u32;
    (xorshifted >> rot) | (xorshifted << (vstd::wrapping::u32_specs::wrapping_sub(0u32, rot)
        & 31u32))
}

/// Deterministic uniform source: a PCG state plus a stream selector.
/// Two generators built from equal seeds produce equal draw sequences.
pub struct PCGRng {
    pub state: u64,
    pub inc: u64,
}

impl PCGRng {
    pub fn new(state: u64, inc: u64) -> (rng: PCGRng)
        ensures
            rng.state == state,
            rng.inc == inc,
    {
        PCGRng { state, inc }
    }

    /// Draw 32 uniform bits; the result and the successor state are exact
    /// functions of the current state, so the stream is fully deterministic.
    pub fn rnd_u32(&mut self) -> (r: u32)
        ensures
            r == pcg_output(old(self).state),
            final(self).state == pcg_next_state(old(self).state, old(self).inc),
            final(self).inc == old(self).inc,
    {
        let oldstate = self.state;
        self.state = oldstate.wrapping_mul(PCG_MULTIPLIER).wrapping_add(self.inc | 1);
        let xorshifted: u32 = (((oldstate >> 18u64) ^ oldstate) >> 27u64) as u32;
        let rot: u32 = (oldstate >> 59u64) as u32;
        assert(rot < 32 && (0u32.wrapping_sub(rot) & 31u32) < 32) by (bit_vector)
            requires
                rot == (oldstate >> 59u64) as u32,
        ;
        (xorshifted >> rot) | (xorshifted << (0u32.wrapping_sub(rot) & 31u32))
    }
}

} // verus!

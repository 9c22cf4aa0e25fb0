//! xorshift64 pseudo-random numbers (no clock, so it runs the same on the
//! web and natively).

use vstd::prelude::*;

verus! {

/// Multiplier that scrambles the xorshift state into the output word.
pub const SCRAMBLE: u64 = 0x2545F4914F6CDD1D;

/// Initial generator state (odd, hence nonzero).
pub const SEED: u64 = 0xC0FFEE_BAD5EED_u64 | 1;

/// One xorshift64 step (shifts 12, 25, 27).
pub open spec fn xorshift(x: u64) -> u64 {
    let a = x ^ (x >> 12u64);
    let b = a ^ (a << 25u64);
    b ^ (b >> 27u64)
}

/// Output word for a state: the upper 32 bits of the scrambled state.
pub open spec fn output_of(x: u64) -> u32 {
    (vstd::wrapping::u64_specs::wrapping_mul(x, SCRAMBLE) >> 32u64) as u32
}

/// Deterministic generator shared by the spawn code.
#[derive(Clone, Copy, Debug, PartialEq, Eq, Structural)]
pub struct XorShift {
    pub state: u64,
}

impl XorShift {
    /// Generator at the game's fixed seed.
    pub fn new() -> (g: Self)
        ensures
            g.state == SEED,
            g.state != 0,
    {
        assert(SEED != 0) by (bit_vector)
            requires
                SEED == 0xC0FFEE_BAD5EED_u64 | 1,
        ;
        XorShift { state: SEED }
    }

    /// Advances the state one step and returns the next 32-bit output.
    /// Dividing it by `u32::MAX` gives a uniform value in `[0, 1]`.
    pub fn next_u32(&mut self) -> (r: u32)
        ensures
            final(self).state == xorshift(old(self).state),
            r == output_of(final(self).state),
            old(self).state != 0 ==> final(self).state != 0,
    {
        proof {
            if self.state != 0 {
                lemma_xorshift_nonzero(self.state);
            }
        }
        let mut x = self.state;
        x ^= x >> 12;
        x ^= x << 25;
        x ^= x >> 27;
        self.state = x;
        let z = x.wrapping_mul(SCRAMBLE);
        (z >> 32) as u32
    }
}

/// A nonzero state never steps to zero, so the generator cannot get stuck.
pub proof fn lemma_xorshift_nonzero(x: u64)
    requires
        x != 0,
    ensures
        xorshift(x) != 0,
{
    let a = x ^ (x >> 12u64);
    let b = a ^ (a << 25u64);
    assert(x != 0 ==> (x ^ (x >> 12u64)) != 0) by (bit_vector);
    assert(a != 0 ==> (a ^ (a << 25u64)) != 0) by (bit_vector);
    assert(b != 0 ==> (b ^ (b >> 27u64)) != 0) by (bit_vector);
}

} // verus!

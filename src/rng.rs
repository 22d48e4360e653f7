use vstd::prelude::*;

verus! {

/// One step of the 32-bit xorshift generator: `x ^= x << 13; x ^= x >> 17; x ^= x << 5`.
pub open spec fn xorshift_step(x: u32) -> u32 {
    let a = x ^ (x << 13u32);
    let b = a ^ (a >> 17u32);
    b ^ (b << 5u32)
}

/// Small deterministic generator used for aim noise and commitment jitter.
#[derive(Clone, Copy, Debug, PartialEq, Eq, Structural)]
pub struct XorShift32 {
    pub state: u32,
}

impl XorShift32 {
    /// A generator seeded with `seed`, forced to be nonzero.
    pub fn new(seed: u32) -> (r: XorShift32)
        ensures
            r.state == if seed == 0 { 1u32 } else { seed },
    {
        XorShift32 { state: if seed == 0 { 1 } else { seed } }
    }

    /// Advances the generator and returns the new 32-bit word.
    pub fn next_u32(&mut self) -> (r: u32)
        ensures
            r == xorshift_step(old(self).state),
            final(self).state == r,
    {
        let mut x = self.state;
        x = x ^ (x << 13u32);
        x = x ^ (x >> 17u32);
        x = x ^ (x << 5u32);
        self.state = x;
        x
    }
}


/// The `n`-th word a generator in state `state` hands out (the state itself for `n == 0`).
/// The sequence depends on the state alone.
pub open spec fn word_after(state: u32, n: nat) -> u32
    decreases n,
{
    if n == 0 {
        state
    } else {
        xorshift_step(word_after(state, (n - 1) as nat))
    }
}

/// The first words of the generator seeded with 1.
pub proof fn seed_one_words()
    ensures
        word_after(1, 1) == 270369,
        word_after(1, 2) == 67634689,
        word_after(1, 3) == 2647435461,
{
    assert(xorshift_step(1) == 270369) by (bit_vector);
    assert(xorshift_step(270369) == 67634689) by (bit_vector);
    assert(xorshift_step(67634689) == 2647435461) by (bit_vector);
    reveal_with_fuel(word_after, 4);
}

} // verus!

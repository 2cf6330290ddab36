//! The frame counter that seeds the noise effect.

use vstd::prelude::*;

verus! {

/// Number of distinct seed values; the counter is arithmetic modulo this.
pub open spec fn seed_modulus() -> int {
    0x1_0000_0000
}

/// A 32-bit frame counter. It advances once per loop tick and wraps to zero
/// after `u32::MAX`; wrapping is defined behaviour, not an error.
#[derive(Clone, Copy, Debug, PartialEq, Eq, Structural)]
pub struct FrameSeed {
    pub value: u32,
}

impl FrameSeed {
    /// The seed `n` ticks after `self`.
    pub open spec fn plus(self, n: nat) -> FrameSeed {
        FrameSeed { value: ((self.value + n) % seed_modulus()) as u32 }
    }

    /// The seed one tick after `self`.
    pub open spec fn next(self) -> FrameSeed {
        FrameSeed { value: if self.value == u32::MAX { 0 } else { (self.value + 1) as u32 } }
    }

    pub fn new(value: u32) -> (seed: FrameSeed)
        ensures
            seed.value == value,
    {
        FrameSeed { value }
    }

    pub fn value(&self) -> (value: u32)
        ensures
            value == self.value,
    {
        self.value
    }

    /// Moves to the next frame.
    pub fn advance(&mut self)
        ensures
            *final(self) == old(self).next(),
    {
        self.value = self.value.wrapping_add(1);
    }
}

/// One tick is the same as adding one modulo 2^32.
pub proof fn lemma_next_is_plus_one(seed: FrameSeed)
    ensures
        seed.next() == seed.plus(1),
{
}

/// Ticks compose: `n` ticks followed by one more are `n + 1` ticks.
pub proof fn lemma_plus_then_next(seed: FrameSeed, n: nat)
    ensures
        seed.plus(n).next() == seed.plus(n + 1),
{
}

} // verus!

//! Deterministic pseudo-random generator: a 64-bit xorshift.

use vstd::prelude::*;

verus! {

/// The fixed seed every generator starts from; reproducibility across runs
/// and restarts is intentional.
pub const RNG_SEED: u64 = 0x1337133713371337;

/// One application of the xorshift recurrence to a generator state.
pub open spec fn rng_step(s: u64) -> u64 {
    let a = s ^ (s << 13);
    let b = a ^ (a >> 17);
    b ^ (b << 43)
}

/// Deterministic pseudo-random generator with a single 64-bit state word.
#[derive(Clone, Copy, PartialEq, Eq, Structural, Debug)]
pub struct Rng(pub u64);

impl Rng {
    /// A fresh generator, always seeded with the same constant.
    pub fn new() -> (r: Self)
        ensures
            r.0 == RNG_SEED,
    {
        Rng(RNG_SEED)
    }

    /// Returns the current state and advances it by one xorshift step.
    pub fn rand(&mut self) -> (r: u64)
        ensures
            r == old(self).0,
            final(self).0 == rng_step(old(self).0),
    {
        let ret = self.0;
        self.0 = self.0 ^ (self.0 << 13);
        self.0 = self.0 ^ (self.0 >> 17);
        self.0 = self.0 ^ (self.0 << 43);
        ret
    }
}

} // verus!

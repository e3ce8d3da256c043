//! Deterministic 64-bit pseudo-random sequence (xoshiro256 family).
//!
//! The generator is seeded with fixed constants and advanced one step per
//! call, so the jitter it supplies is reproducible bit for bit.  The spec
//! functions below mirror the step exactly; `next` is proved against them.

use vstd::prelude::*;
use vstd::wrapping::u64_specs;

verus! {

/// Four 64-bit words of generator state.
#[derive(Clone, Copy)]
pub struct RandomSeq {
    pub s0: u64,
    pub s1: u64,
    pub s2: u64,
    pub s3: u64,
}

/// Left rotation of a 64-bit word by `k` places.
pub open spec fn rol64_spec(x: u64, k: u64) -> u64
    recommends
        0 < k < 64,
{
    (x << k) | (x >> ((64 - k) as u64))
}

fn rol64(x: u64, k: u64) -> (r: u64)
    requires
        0 < k < 64,
    ensures
        r == rol64_spec(x, k),
{
    (x << k) | (x >> (64 - k))
}

/// The fixed seed every sequence starts from.
pub open spec fn seed_state() -> RandomSeq {
    RandomSeq { s0: 31415, s1: 27182, s2: 141142, s3: 17320 }
}

/// The value a step emits: rotate-left-then-multiply over two state words,
/// computed before the state advances.
pub open spec fn output_spec(s: RandomSeq) -> u64 {
    u64_specs::wrapping_mul(rol64_spec(u64_specs::wrapping_mul(s.s1, 5), 7), 9)
}

/// How one step advances the four state words.
pub open spec fn step_spec(s: RandomSeq) -> RandomSeq {
    let t = s.s1 << 17u64;
    let s2 = s.s2 ^ s.s0;
    let s3 = s.s3 ^ s.s1;
    RandomSeq {
        s0: s.s0 ^ s3,
        s1: s.s1 ^ s2,
        s2: s2 ^ t,
        s3: rol64_spec(s3, 45),
    }
}

/// The state after `n` steps from `s`.
pub open spec fn state_after(s: RandomSeq, n: nat) -> RandomSeq
    decreases n,
{
    if n == 0 {
        s
    } else {
        step_spec(state_after(s, (n - 1) as nat))
    }
}

/// The `n`-th output (counting from 0) of the sequence started at `s`.
pub open spec fn output_at(s: RandomSeq, n: nat) -> u64 {
    output_spec(state_after(s, n))
}

impl RandomSeq {
    /// A fresh sequence at the fixed seed.
    pub fn new() -> (r: RandomSeq)
        ensures
            r == seed_state(),
    {
        RandomSeq { s0: 31415, s1: 27182, s2: 141142, s3: 17320 }
    }

    /// Emits the next value and advances the state by one step.
    pub fn next(&mut self) -> (r: u64)
        ensures
            r == output_spec(*old(self)),
            *final(self) == step_spec(*old(self)),
    {
        let result = rol64(self.s1.wrapping_mul(5), 7).wrapping_mul(9);
        let t = self.s1 << 17u64;
        self.s2 = self.s2 ^ self.s0;
        self.s3 = self.s3 ^ self.s1;
        self.s1 = self.s1 ^ self.s2;
        self.s0 = self.s0 ^ self.s3;
        self.s2 = self.s2 ^ t;
        self.s3 = rol64(self.s3, 45);
        result
    }
}

} // verus!

//! Deterministic pseudo-random scalar generator over an evolving 32-bit state.
//!
//! Every draw consumes a 32-bit key and replaces the state with
//! `key * MUL + (state ^ XOR)` in wrapping arithmetic; the draw's value is the
//! low 23 bits of the new state, placed in the mantissa of the bit pattern of
//! a number in `[1, 2)`. Callers that want a scalar subtract one from the
//! decoded pattern, which yields a value in `[0, 1)`. This module keeps the
//! whole computation on integers: the bit pattern is the result, and its
//! range is proved, so the decoded scalar's range follows.
//!
//! The output of a draw is a function of both the key and the prior state, so
//! a draw's value depends on the generator's call history, not on the key
//! alone: callers that want reproducible samples must draw from a freshly
//! seeded or reset generator. Two generators in equal states give equal
//! draws for equal keys (see [`lemma_draw_deterministic`]).

use vstd::prelude::*;

verus! {

/// Multiplier applied to the key on each draw.
pub const STATE_MUL: u32 = 987654323;

/// Mask XOR-ed into the prior state on each draw.
pub const STATE_XOR: u32 = 0x78e98b58;

/// Bit pattern of 1.0f32; OR-ing 23 mantissa bits below it encodes `[1, 2)`.
pub const UNIT_BITS: u32 = 0x3f800000;

/// Low 23 bits: the mantissa field of a 32-bit IEEE-754 number.
pub const MANTISSA_MASK: u32 = 0x7fffff;

/// The state after a draw keyed by `key` from state `state`.
pub open spec fn next_state(state: u32, key: u32) -> u32 {
    key.wrapping_mul(STATE_MUL).wrapping_add(state ^ STATE_XOR)
}

/// The bit pattern a draw yields once the state has become `state`: the
/// state's low 23 bits placed in the mantissa of a number in `[1, 2)`.
pub open spec fn unit_bits_of(state: u32) -> u32 {
    UNIT_BITS | (state & MANTISSA_MASK)
}

/// Pseudo-random generator state: a single 32-bit integer.
pub struct UniformRandomGen {
    seed: u32,
}

impl View for UniformRandomGen {
    type V = u32;

    closed spec fn view(&self) -> u32 {
        self.seed
    }
}

impl UniformRandomGen {
    /// A generator whose state is `seed`.
    pub fn new(seed: u32) -> (r: Self)
        ensures
            r@ == seed,
    {
        Self { seed }
    }

    /// Replaces the state with `seed`, as if freshly constructed.
    pub fn reset(&mut self, seed: u32)
        ensures
            final(self)@ == seed,
    {
        self.seed = seed;
    }

    /// One draw keyed by `key`: advances the state and returns the bit
    /// pattern of a number in `[1, 2)` whose mantissa is the new state's low
    /// 23 bits.
    pub fn get_bits(&mut self, key: u32) -> (bits: u32)
        ensures
            final(self)@ == next_state(old(self)@, key),
            bits == unit_bits_of(final(self)@),
            UNIT_BITS <= bits < 0x40000000,
    {
        self.seed = key.wrapping_mul(STATE_MUL).wrapping_add(self.seed ^ STATE_XOR);
        let s: u32 = self.seed;
        let bits: u32 = UNIT_BITS | (s & MANTISSA_MASK);
        proof {
            assert(0x3f800000u32 <= (0x3f800000u32 | (s & 0x7fffffu32)) < 0x40000000u32)
                by (bit_vector);
        }
        bits
    }

    /// One draw keyed by the current state itself: the variant callers use
    /// when no external key is at hand.
    pub fn get_bits_(&mut self) -> (bits: u32)
        ensures
            final(self)@ == next_state(old(self)@, old(self)@),
            bits == unit_bits_of(final(self)@),
            UNIT_BITS <= bits < 0x40000000,
    {
        let key: u32 = self.seed;
        self.get_bits(key)
    }
}

/// Determinism of a draw: the next state and the drawn bit pattern are
/// functions of the prior state and the key alone, so two generators in equal
/// states, given equal keys, draw bit-identical values and land in equal
/// states.
pub proof fn lemma_draw_deterministic(a: u32, b: u32, key: u32)
    requires
        a == b,
    ensures
        next_state(a, key) == next_state(b, key),
        unit_bits_of(next_state(a, key)) == unit_bits_of(next_state(b, key)),
{
}

} // verus!

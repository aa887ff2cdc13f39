//! Noise sources: the noise kinds, the seeded xorshift32 generator that drives
//! them, and the octave schedule of the Voss-McCartney pink-noise tree.

use vstd::prelude::*;
use crate::dsp_util::{
    xorshift_step, xorshift_arith, guarded_state, lemma_xorshift_step_nonzero,
    lemma_xorshift_step_arith,
};
use vstd::arithmetic::power2::pow2;
use vstd::bits::{
    low_bits_mask, lemma_u32_low_bits_mask_is_mod, lemma_u32_pow2_no_overflow,
    lemma_u32_shl_is_mul,
};

verus! {

/// Type of noise to generate.
#[derive(Debug, Clone, Copy, PartialEq, Eq, Structural, Hash)]
pub enum NoiseType {
    /// Uniform random noise, flat spectrum.
    White,
    /// Pink noise (-3 dB/octave), Voss-McCartney algorithm.
    Pink,
    /// Brown noise (-6 dB/octave), integrated white noise.
    Brown,
}

/// Number of octave rows in the Voss-McCartney pink-noise tree.
pub const PINK_OCTAVES: usize = 16;

/// Seeded xorshift32 generator whose state is never zero.
#[derive(Debug)]
pub struct Xorshift32 {
    state: u32,
}

impl View for Xorshift32 {
    type V = u32;

    closed spec fn view(&self) -> u32 {
        self.state
    }
}

impl Clone for Xorshift32 {
    fn clone(&self) -> (r: Self)
        ensures
            r@ == self@,
    {
        proof {
            use_type_invariant(self);
        }
        Xorshift32 { state: self.state }
    }
}

impl Xorshift32 {
    #[verifier::type_invariant]
    spec fn state_nonzero(self) -> bool {
        self.state != 0
    }

    /// Create a generator from a seed; a zero seed is replaced by one.
    pub fn new(seed: u32) -> (r: Self)
        ensures
            r@ == guarded_state(seed),
            seed != 0 ==> r@ == seed,
            seed == 0 ==> r@ == 1,
    {
        Xorshift32 { state: if seed == 0 { 1 } else { seed } }
    }

    /// Advance the generator one step and return the new state.
    pub fn next(&mut self) -> (r: u32)
        ensures
            r == xorshift_step(old(self)@),
            r as int == xorshift_arith(old(self)@),
            final(self)@ == r,
            r != 0,
    {
        proof {
            use_type_invariant(&*self);
            lemma_xorshift_step_nonzero(self.state);
            lemma_xorshift_step_arith(self.state);
        }
        let mut x = self.state;
        x ^= x << 13u32;
        x ^= x >> 17u32;
        x ^= x << 5u32;
        self.state = x;
        x
    }

    /// The current generator state.
    pub fn state(&self) -> (r: u32)
        ensures
            r == self@,
            r != 0,
    {
        proof {
            use_type_invariant(self);
        }
        self.state
    }
}

/// State after `k` calls of the shared [`crate::dsp_util::xorshift32`] step on
/// a state that starts at `seed`.
pub open spec fn shared_state_after(seed: u32, k: nat) -> u32
    decreases k,
{
    if k == 0 {
        seed
    } else {
        xorshift_step(guarded_state(shared_state_after(seed, (k - 1) as nat)))
    }
}

/// State after `k` calls of [`Xorshift32::next`] on a generator made by
/// [`Xorshift32::new`] from `seed`.
pub open spec fn generator_state_after(seed: u32, k: nat) -> u32
    decreases k,
{
    if k == 0 {
        guarded_state(seed)
    } else {
        xorshift_step(generator_state_after(seed, (k - 1) as nat))
    }
}

/// The noise generator and the shared xorshift32 step, started from the same
/// seed, produce the same sequence of values, none of them zero.
pub proof fn lemma_generators_agree(seed: u32, k: nat)
    requires
        k >= 1,
    ensures
        shared_state_after(seed, k) == generator_state_after(seed, k),
        generator_state_after(seed, k) != 0,
    decreases k,
{
    let prev = (k - 1) as nat;
    if k == 1 {
        assert(shared_state_after(seed, 0) == seed);
        assert(generator_state_after(seed, 0) == guarded_state(seed));
        lemma_xorshift_step_nonzero(guarded_state(seed));
    } else {
        lemma_generators_agree(seed, prev);
        let g = generator_state_after(seed, prev);
        assert(guarded_state(g) == g);
        lemma_xorshift_step_nonzero(g);
    }
    assert(shared_state_after(seed, k) == xorshift_step(guarded_state(shared_state_after(seed, prev))));
    assert(generator_state_after(seed, k) == xorshift_step(generator_state_after(seed, prev)));
}

/// Advance the pink-noise sample counter (wrapping) and return the bit mask of
/// octave rows that change on this sample: the bits that flip between the old
/// and the new counter.
///
/// Row `i` changes exactly when the new counter is a multiple of `2^i`, so row
/// `i` updates at half the rate of row `i - 1` and row 0 updates every sample.
pub fn pink_advance(counter: &mut u32) -> (changed: u32)
    ensures
        *final(counter) == (*old(counter) + 1) % 0x1_0000_0000,
        forall|i: u32|
            i < 32 ==> ((changed & (1u32 << i)) != 0 <==> *final(counter) as nat % pow2(i as nat)
                == 0),
        changed & 1u32 != 0,
{
    let c = counter.wrapping_add(1);
    *counter = c;
    let prev: u32 = if c == 0 { u32::MAX } else { c - 1 };
    let changed = c ^ prev;
    assert forall|i: u32|
        i < 32 implies ((changed & (1u32 << i)) != 0 <==> c as nat % pow2(i as nat) == 0) by {
        assert(i < 32 && changed == c ^ prev && (c == 0 ==> prev == 0xffff_ffffu32) && (c != 0
            ==> prev == c - 1) ==> ((changed & (1u32 << i)) != 0 <==> (c & (((1u32 << i)
            - 1u32) as u32)) == 0)) by (bit_vector);
        lemma_u32_pow2_no_overflow(i as nat);
        lemma_u32_shl_is_mul(1u32, i);
        lemma_u32_low_bits_mask_is_mod(c, i as nat);
        assert(low_bits_mask(i as nat) == pow2(i as nat) - 1);
    }
    assert(changed == c ^ prev && (c == 0 ==> prev == 0xffff_ffffu32) && (c != 0 ==> prev == c
        - 1) ==> changed & 1u32 != 0) by (bit_vector);
    changed
}

} // verus!

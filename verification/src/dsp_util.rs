//! Shared DSP helpers: the xorshift32 generator, the frame layout of the
//! short-time Fourier transform, and the spectral-window and smoothing modes.

use vstd::prelude::*;
use vstd::arithmetic::power2::{pow2, lemma2_to64, lemma_pow2_unfold, lemma_pow2_pos};

verus! {

/// One Marsaglia xorshift32 step (shifts 13, 17, 5) on a 32-bit state.
pub open spec fn xorshift_step(x: u32) -> u32 {
    let a = x ^ (x << 13u32);
    let b = a ^ (a >> 17u32);
    b ^ (b << 5u32)
}

/// The state that [`xorshift32`] actually steps: zero is replaced by one.
pub open spec fn guarded_state(x: u32) -> u32 {
    if x == 0 { 1 } else { x }
}

/// A xorshift step never maps a non-zero state to zero.
pub proof fn lemma_xorshift_step_nonzero(x: u32)
    requires
        x != 0,
    ensures
        xorshift_step(x) != 0,
{
    assert(x != 0 ==> xorshift_step(x) != 0) by (bit_vector);
}

/// The xorshift step in arithmetic terms: with `M = 2^32`, a left shift by
/// `k` is a multiplication by `2^k` modulo `M` and a right shift by `k` a
/// division by `2^k`, so the step is `b ^ (32 b mod M)` where
/// `b = a ^ (a / 131072)` and `a = x ^ (8192 x mod M)`.
pub open spec fn xorshift_arith(x: u32) -> int {
    let a = (x ^ ((x * 8192) % 0x1_0000_0000) as u32) as u32;
    let b = (a ^ (a / 131072) as u32) as u32;
    (b ^ ((b * 32) % 0x1_0000_0000) as u32) as int
}

/// The step shifts left by 13, right by 17 and left by 5, in that order: it
/// agrees with [`xorshift_arith`] on every state.
pub proof fn lemma_xorshift_step_arith(x: u32)
    ensures
        xorshift_step(x) as int == xorshift_arith(x),
{
    let a = x ^ (x << 13u32);
    let b = a ^ (a >> 17u32);
    assert(x << 13u32 == ((x * 8192) % 0x1_0000_0000) as u32) by (bit_vector);
    assert(a >> 17u32 == (a / 131072) as u32) by (bit_vector);
    assert(b << 5u32 == ((b * 32) % 0x1_0000_0000) as u32) by (bit_vector);
}

/// The generator seeded with 42 yields 11355432 and then 2836018348, and
/// seeded with 1 (or 0, which is replaced by 1) yields 270369.
pub proof fn lemma_xorshift_known_values()
    ensures
        xorshift_step(42) == 11355432,
        xorshift_step(11355432) == 2836018348,
        xorshift_step(1) == 270369,
        guarded_state(0) == 1,
{
    assert(xorshift_step(42) == 11355432) by (bit_vector);
    assert(xorshift_step(11355432) == 2836018348) by (bit_vector);
    assert(xorshift_step(1) == 270369) by (bit_vector);
}

/// One step of the Marsaglia xorshift32 PRNG.
///
/// A zero state is reset to one before stepping, so the generator never
/// sticks at zero; the new state is returned.
pub fn xorshift32(state: &mut u32) -> (r: u32)
    ensures
        r == xorshift_step(guarded_state(*old(state))),
        r as int == xorshift_arith(if *old(state) == 0 { 1u32 } else { *old(state) }),
        *final(state) == r,
        r != 0,
{
    if *state == 0 {
        *state = 1;
    }
    let mut x = *state;
    x ^= x << 13u32;
    x ^= x >> 17u32;
    x ^= x << 5u32;
    *state = x;
    proof {
        lemma_xorshift_step_nonzero(guarded_state(*old(state)));
        lemma_xorshift_step_arith(guarded_state(*old(state)));
    }
    x
}

/// Whether `n` is a power of two (1, 2, 4, ...).
pub open spec fn is_pow2(n: int) -> bool
    decreases n,
{
    if n <= 0 {
        false
    } else if n == 1 {
        true
    } else {
        n % 2 == 0 && is_pow2(n / 2)
    }
}

/// Every power of two `2^k` is recognised by [`is_pow2`].
pub proof fn lemma_pow2_is_pow2(k: nat)
    ensures
        is_pow2(pow2(k) as int),
    decreases k,
{
    if k == 0 {
        lemma2_to64();
    } else {
        lemma_pow2_unfold(k);
        lemma_pow2_pos((k - 1) as nat);
        lemma_pow2_is_pow2((k - 1) as nat);
        assert(pow2(k) as int / 2 == pow2((k - 1) as nat) as int);
    }
}

/// [`is_pow2`] holds exactly of the numbers `2^k`: an `n` is recognised if
/// and only if some exponent `k` has `2^k == n`.
pub proof fn lemma_is_pow2_iff(n: nat)
    ensures
        is_pow2(n as int) <==> exists|k: nat| pow2(k) == n,
    decreases n,
{
    if exists|k: nat| pow2(k) == n {
        let k = choose|k: nat| pow2(k) == n;
        lemma_pow2_is_pow2(k);
    }
    if is_pow2(n as int) {
        if n == 1 {
            lemma2_to64();
            assert(pow2(0) == n);
        } else {
            let h = (n / 2) as nat;
            lemma_is_pow2_iff(h);
            let k = choose|k: nat| pow2(k) == h;
            lemma_pow2_unfold(k + 1);
            assert(pow2(k + 1) == n);
        }
    }
}

/// Whether `n` is a power of two.
pub fn is_power_of_two(n: usize) -> (r: bool)
    ensures
        r == is_pow2(n as int),
{
    if n == 0 {
        return false;
    }
    let mut m = n;
    while m > 1 && m % 2 == 0
        invariant
            m >= 1,
            is_pow2(n as int) == is_pow2(m as int),
        decreases m,
    {
        m = m / 2;
    }
    m == 1
}

/// Number of frames of a short-time Fourier transform: zero when the signal
/// is shorter than the window, the hop is zero, or the window length is not a
/// power of two; otherwise one frame per hop that still fits the signal.
pub open spec fn stft_frame_count_spec(signal_len: int, window_size: int, hop_size: int) -> int {
    if signal_len < window_size || hop_size == 0 || !is_pow2(window_size) {
        0
    } else {
        (signal_len - window_size) / hop_size + 1
    }
}

/// Number of STFT frames of `window_size` samples, `hop_size` apart, that a
/// signal of `signal_len` samples holds (zero for the inputs the transform
/// rejects).
pub fn stft_frame_count(signal_len: usize, window_size: usize, hop_size: usize) -> (n: usize)
    ensures
        n == stft_frame_count_spec(signal_len as int, window_size as int, hop_size as int),
        signal_len >= window_size && hop_size > 0 && is_pow2(window_size as int) ==> n == (
        signal_len - window_size) / hop_size as int + 1,
        signal_len < window_size || hop_size == 0 || !is_pow2(window_size as int) ==> n == 0,
{
    if signal_len < window_size || hop_size == 0 || !is_power_of_two(window_size) {
        return 0;
    }
    (signal_len - window_size) / hop_size + 1
}

/// Every STFT frame lies inside the signal, and one more frame would not:
/// frame `f` covers samples `f * hop_size .. f * hop_size + window_size`.
pub proof fn lemma_stft_frames_fit(signal_len: nat, window_size: nat, hop_size: nat, f: nat)
    requires
        stft_frame_count_spec(signal_len as int, window_size as int, hop_size as int) > 0,
    ensures
        f < stft_frame_count_spec(signal_len as int, window_size as int, hop_size as int) ==> f
            * hop_size + window_size <= signal_len,
        stft_frame_count_spec(signal_len as int, window_size as int, hop_size as int)
            * hop_size + window_size > signal_len,
{
    let n = stft_frame_count_spec(signal_len as int, window_size as int, hop_size as int);
    let r = signal_len - window_size;
    let q = r / (hop_size as int);
    vstd::arithmetic::div_mod::lemma_fundamental_div_mod(r, hop_size as int);
    assert(n == q + 1);
    if f < n {
        vstd::arithmetic::mul::lemma_mul_inequality(f as int, q, hop_size as int);
        vstd::arithmetic::mul::lemma_mul_is_commutative(q, hop_size as int);
    }
    vstd::arithmetic::mul::lemma_mul_is_distributive_add_other_way(hop_size as int, q, 1);
    vstd::arithmetic::mul::lemma_mul_is_commutative(q, hop_size as int);
}

/// Whenever one window fits a signal with a positive hop and a power-of-two
/// window, there is at least one frame, and `hop_size` more samples of signal
/// make exactly one more frame, whatever the signal's length.
pub proof fn lemma_stft_one_more_hop(signal_len: nat, window_size: nat, hop_size: nat)
    requires
        signal_len >= window_size,
        hop_size > 0,
        is_pow2(window_size as int),
    ensures
        stft_frame_count_spec(signal_len as int, window_size as int, hop_size as int) >= 1,
        stft_frame_count_spec(signal_len + hop_size as int, window_size as int, hop_size as int)
            == stft_frame_count_spec(signal_len as int, window_size as int, hop_size as int) + 1,
{
    let r = signal_len - window_size;
    vstd::arithmetic::div_mod::lemma_div_plus_one(r, hop_size as int);
    vstd::arithmetic::div_mod::lemma_div_pos_is_pos(r, hop_size as int);
}

/// Smoothing mode for parameter transitions.
#[derive(Debug, Clone, Copy, PartialEq, Eq, Structural, Hash)]
pub enum SmoothingMode {
    /// Exponential moving average (one-pole lowpass).
    Exponential,
    /// Linear ramp over a fixed number of samples.
    Linear,
}

/// Window function for spectral analysis.
#[derive(Debug, Clone, Copy, PartialEq, Eq, Structural, Hash)]
pub enum SpectralWindow {
    /// Rectangular (no window) — best frequency resolution, worst leakage.
    Rectangular,
    /// Hann (raised cosine) — general-purpose default.
    Hann,
    /// Hamming — slightly better sidelobe attenuation than Hann at the cost of higher first sidelobe.
    Hamming,
    /// Blackman — strong sidelobe rejection, wider main lobe.
    Blackman,
}

} // verus!

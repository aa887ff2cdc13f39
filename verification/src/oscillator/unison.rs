//! Voice bookkeeping of the unison oscillator.

use vstd::prelude::*;

verus! {

/// Most voices a unison oscillator stacks.
pub const MAX_UNISON_VOICES: usize = 8;

/// A restored unison oscillator recomputes its detune ratios before use.
pub fn default_ratios_dirty() -> (r: bool)
    ensures
        r,
{
    true
}

/// The number of voices actually used for a requested count: clamped to
/// `1..=8`.
pub fn clamp_voice_count(requested: usize) -> (r: usize)
    ensures
        1 <= r <= MAX_UNISON_VOICES,
        1 <= requested <= MAX_UNISON_VOICES ==> r == requested,
        requested < 1 ==> r == 1,
        requested > MAX_UNISON_VOICES ==> r == MAX_UNISON_VOICES,
{
    if requested < 1 {
        1
    } else if requested > MAX_UNISON_VOICES {
        MAX_UNISON_VOICES
    } else {
        requested
    }
}

} // verus!

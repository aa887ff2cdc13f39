//! Grain bookkeeping of the granular engine: the window kinds, the choice of
//! the slot a new grain takes, and how long a grain sounds.

use vstd::prelude::*;

verus! {

/// Window function applied to each grain.
#[derive(Debug, Clone, Copy, PartialEq, Eq, Structural, Hash)]
pub enum GrainWindow {
    /// Hann (raised cosine) window — smooth, general purpose.
    Hann,
    /// Gaussian window — smooth with narrower main lobe.
    Gaussian,
    /// Tukey window (cosine-tapered rectangle).
    Tukey,
    /// Rectangular window (no tapering).
    Rectangular,
}

/// Number of grain slots of the granular engine.
pub const MAX_GRAINS: usize = 64;

/// The slot a new grain takes: the first inactive one, or `None` when every
/// slot is busy (the grain is then dropped).
pub fn first_inactive(active: &[bool]) -> (r: Option<usize>)
    ensures
        r is None <==> forall|j: int| 0 <= j < active@.len() ==> active@[j],
        r matches Some(i) ==> i < active@.len() && !active@[i as int] && forall|j: int|
            0 <= j < i ==> active@[j],
{
    let mut i: usize = 0;
    while i < active.len()
        invariant
            0 <= i <= active@.len(),
            forall|j: int| 0 <= j < i ==> active@[j],
        decreases active@.len() - i,
    {
        if !active[i] {
            return Some(i);
        }
        i = i + 1;
    }
    None
}

/// One output sample of a sounding grain: its sample counter advances, and
/// the grain stays active while the counter is below its duration.
pub open spec fn grain_step_spec(current_sample: u32, duration_samples: u32) -> (u32, bool) {
    ((current_sample + 1) as u32, current_sample + 1 < duration_samples)
}

/// Advance a sounding grain by one sample; returns whether it is still active.
pub fn advance_grain(current_sample: &mut u32, duration_samples: u32) -> (active: bool)
    requires
        *old(current_sample) < u32::MAX,
    ensures
        (*final(current_sample), active) == grain_step_spec(*old(current_sample), duration_samples),
        *final(current_sample) == *old(current_sample) + 1,
        active <==> *final(current_sample) < duration_samples,
{
    *current_sample = *current_sample + 1;
    *current_sample < duration_samples
}

/// Counter and activity of a grain started with counter 0 after it has
/// sounded `k` samples.
pub open spec fn grain_after(duration_samples: u32, k: nat) -> (u32, bool)
    decreases k,
{
    if k == 0 {
        (0u32, true)
    } else {
        grain_step_spec(grain_after(duration_samples, (k - 1) as nat).0, duration_samples)
    }
}

/// A grain started with counter 0 sounds for `max(duration, 1)` samples: it
/// stays active after each of its first `duration - 1` samples and turns
/// inactive on sample `max(duration, 1)`, its counter never overflowing.
pub proof fn lemma_grain_lifetime(duration_samples: u32, k: nat)
    requires
        1 <= k,
        k <= duration_samples || k == 1,
    ensures
        grain_after(duration_samples, k) == ((k as u32), k < duration_samples),
        grain_after(duration_samples, (k - 1) as nat).0 < u32::MAX,
    decreases k,
{
    let prev = (k - 1) as nat;
    if k > 1 {
        lemma_grain_lifetime(duration_samples, prev);
    } else {
        assert(grain_after(duration_samples, 0) == (0u32, true));
    }
    assert(grain_after(duration_samples, prev).0 == prev);
    assert(grain_after(duration_samples, k) == grain_step_spec(
        grain_after(duration_samples, prev).0,
        duration_samples,
    ));
    assert(k <= u32::MAX);
}

} // verus!

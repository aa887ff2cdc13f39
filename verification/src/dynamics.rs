//! Hold logic of the noise suppressor: whether it wants to pass a sample,
//! and how long it keeps passing after the signal falls below threshold.

use vstd::prelude::*;

verus! {

/// One sample of the hold logic, from whether the detected level is at
/// or above the threshold and the samples of hold left: a loud sample opens
/// the pass-through and restarts the hold; a quiet one keeps it open while hold is
/// left, spending one sample of it; with no hold left it closes.
pub open spec fn hold_step_spec(above_threshold: bool, hold_left: u32, hold_samples: u32) -> (
    bool,
    u32,
) {
    if above_threshold {
        (true, hold_samples)
    } else if hold_left > 0 {
        (true, (hold_left - 1) as u32)
    } else {
        (false, 0)
    }
}

/// Decide whether the pass-through targets open on this sample, updating the hold
/// counter (`hold_left`) as [`hold_step_spec`] says.
pub fn gate_hold_step(above_threshold: bool, hold_left: &mut u32, hold_samples: u32) -> (open: bool)
    ensures
        (open, *final(hold_left)) == hold_step_spec(above_threshold, *old(hold_left), hold_samples),
        above_threshold ==> open && *final(hold_left) == hold_samples,
        !above_threshold && *old(hold_left) > 0 ==> open && *final(hold_left) == *old(hold_left)
            - 1,
        !above_threshold && *old(hold_left) == 0 ==> !open && *final(hold_left) == 0,
{
    if above_threshold {
        *hold_left = hold_samples;
        true
    } else if *hold_left > 0 {
        *hold_left = *hold_left - 1;
        true
    } else {
        false
    }
}

/// Hold left after `j` consecutive quiet samples, starting with `hold_left`.
pub open spec fn hold_after_quiet(hold_left: u32, j: nat) -> u32
    decreases j,
{
    if j == 0 {
        hold_left
    } else {
        hold_step_spec(false, hold_after_quiet(hold_left, (j - 1) as nat), 0).1
    }
}

/// After a loud sample, the pass-through stays open for exactly `hold_samples` quiet
/// samples and closes on the next one: the `j`-th quiet sample (counting from
/// one) is open exactly when `j <= hold_samples`.
pub proof fn lemma_hold_duration(hold_samples: u32, j: nat)
    requires
        j >= 1,
    ensures
        hold_after_quiet(hold_samples, (j - 1) as nat) == if j - 1 <= hold_samples {
            (hold_samples - (j - 1)) as u32
        } else {
            0u32
        },
        hold_step_spec(false, hold_after_quiet(hold_samples, (j - 1) as nat), hold_samples).0
            == (j <= hold_samples),
    decreases j,
{
    if j > 1 {
        lemma_hold_duration(hold_samples, (j - 1) as nat);
    }
}

/// A loud sample restarts the full hold whatever was left of it: the state
/// after a loud sample depends on the hold length alone, and from it exactly
/// `hold_samples` quiet samples pass before the pass-through closes.
pub proof fn lemma_loud_sample_restarts_hold(hold_left: u32, other_hold_left: u32, hold_samples: u32)
    ensures
        hold_step_spec(true, hold_left, hold_samples) == (true, hold_samples),
        hold_step_spec(true, hold_left, hold_samples) == hold_step_spec(
            true,
            other_hold_left,
            hold_samples,
        ),
        hold_step_spec(false, hold_left, hold_samples).1 <= hold_left,
        hold_step_spec(false, hold_left, hold_samples).0 <==> hold_left > 0,
{
}

} // verus!

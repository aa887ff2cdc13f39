//! Stereo pan laws.

use vstd::prelude::*;

verus! {

/// Pan law for stereo positioning.
#[derive(Debug, Clone, Copy, PartialEq, Eq, Structural, Hash)]
pub enum PanLaw {
    /// Equal-power (constant-power) panning using sin/cos.
    /// Preserves perceived loudness across the stereo field.
    EqualPower,
    /// Linear panning. Simple but perceived loudness dips at center.
    Linear,
}

} // verus!

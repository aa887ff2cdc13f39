//! Effect kinds: the distortion curves.

use vstd::prelude::*;

verus! {

/// Distortion algorithm type.
#[derive(Debug, Clone, Copy, PartialEq, Eq, Structural, Hash)]
pub enum DistortionType {
    /// Soft clipping using tanh saturation.
    SoftClip,
    /// Hard clipping (clamping).
    HardClip,
    /// Wave folding (triangle fold).
    WaveFold,
}

} // verus!

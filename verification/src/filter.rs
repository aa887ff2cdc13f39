//! Filter kinds of the Audio EQ Cookbook biquad.

use vstd::prelude::*;

verus! {

/// Biquad filter response type.
#[derive(Debug, Clone, Copy, PartialEq, Eq, Structural, Hash)]
pub enum FilterType {
    /// Low-pass filter.
    LowPass,
    /// High-pass filter.
    HighPass,
    /// Band-pass filter (constant skirt gain).
    BandPass,
    /// Notch (band-reject) filter.
    Notch,
    /// All-pass filter.
    AllPass,
    /// Low shelf filter.
    LowShelf,
    /// High shelf filter.
    HighShelf,
    /// Peaking EQ filter.
    Peak,
}

} // verus!

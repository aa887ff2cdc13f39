//! Analytical source directivity patterns.

use vstd::prelude::*;

verus! {

/// An analytical directivity pattern.
#[derive(Debug, Clone, Copy, PartialEq, Eq, Structural, Hash)]
pub enum SourceDirectivity {
    /// Equal radiation in all directions.
    Omnidirectional,
    /// Cardioid: `gain = 0.5 × (1 + cos θ)`. Front-firing, null behind.
    Cardioid,
    /// Subcardioid (wide cardioid): `gain = 0.75 + 0.25 × cos θ`. Mostly omni with a forward bias.
    Subcardioid,
    /// Supercardioid: `gain = 0.37 + 0.63 × cos θ`. Tighter than cardioid, small rear lobe.
    Supercardioid,
    /// Figure-8 / dipole: `gain = |cos θ|`. Equal front + back, deep nulls at the sides.
    Figure8,
}

} // verus!

//! Oscillator waveform kinds, the noise source behind each noise waveform,
//! and the octave divisors of the sub-oscillator.

use vstd::prelude::*;
use crate::noise::NoiseType;

pub mod unison;

verus! {

/// Waveform type for an oscillator.
#[derive(Debug, Clone, Copy, PartialEq, Eq, Structural, Hash)]
pub enum Waveform {
    /// Sine wave.
    Sine,
    /// Band-limited sawtooth wave (PolyBLEP).
    Saw,
    /// Band-limited square wave (PolyBLEP).
    Square,
    /// Triangle wave (integrated square).
    Triangle,
    /// Band-limited pulse wave with variable width (PolyBLEP).
    Pulse,
    /// White noise.
    WhiteNoise,
    /// Pink noise (Voss-McCartney).
    PinkNoise,
    /// Brown noise (integrated white).
    BrownNoise,
}

/// Whether a waveform is one of the noise waveforms (which have no pitch,
/// so an oscillator does not validate their frequency).
pub open spec fn is_noise_spec(w: Waveform) -> bool {
    w == Waveform::WhiteNoise || w == Waveform::PinkNoise || w == Waveform::BrownNoise
}

/// The noise source that generates a noise waveform, if it is one.
pub open spec fn noise_type_spec(w: Waveform) -> Option<NoiseType> {
    match w {
        Waveform::WhiteNoise => Some(NoiseType::White),
        Waveform::PinkNoise => Some(NoiseType::Pink),
        Waveform::BrownNoise => Some(NoiseType::Brown),
        _ => None,
    }
}

impl Waveform {
    /// Whether this is a noise waveform.
    pub fn is_noise(self) -> (r: bool)
        ensures
            r == is_noise_spec(self),
            r <==> (self == Waveform::WhiteNoise || self == Waveform::PinkNoise || self
                == Waveform::BrownNoise),
    {
        match self {
            Waveform::WhiteNoise | Waveform::PinkNoise | Waveform::BrownNoise => true,
            _ => false,
        }
    }

    /// The noise generator kind behind a noise waveform; `None` for the
    /// periodic waveforms.
    pub fn noise_type(self) -> (r: Option<NoiseType>)
        ensures
            r == noise_type_spec(self),
            self == Waveform::WhiteNoise ==> r == Some(NoiseType::White),
            self == Waveform::PinkNoise ==> r == Some(NoiseType::Pink),
            self == Waveform::BrownNoise ==> r == Some(NoiseType::Brown),
            !(self == Waveform::WhiteNoise || self == Waveform::PinkNoise || self
                == Waveform::BrownNoise) ==> r is None,
    {
        match self {
            Waveform::WhiteNoise => Some(NoiseType::White),
            Waveform::PinkNoise => Some(NoiseType::Pink),
            Waveform::BrownNoise => Some(NoiseType::Brown),
            _ => None,
        }
    }
}

/// A waveform has a noise generator exactly when it is a noise waveform, and
/// distinct noise waveforms use distinct generators.
pub proof fn lemma_noise_waveforms(a: Waveform, b: Waveform)
    ensures
        noise_type_spec(a) is Some <==> is_noise_spec(a),
        noise_type_spec(a) is Some && noise_type_spec(a) == noise_type_spec(b) ==> a == b,
{
}

/// Octave division for a sub-oscillator.
#[derive(Debug, Clone, Copy, PartialEq, Eq, Structural, Hash)]
pub enum SubOctave {
    /// One octave below (half frequency).
    Down1,
    /// Two octaves below (quarter frequency).
    Down2,
}

/// Frequency divisor of an octave division: 2 per octave down.
pub open spec fn divisor_spec(o: SubOctave) -> int {
    match o {
        SubOctave::Down1 => 2,
        SubOctave::Down2 => 4,
    }
}

impl SubOctave {
    /// The factor the base frequency is divided by.
    pub fn divisor(self) -> (r: u32)
        ensures
            r == divisor_spec(self),
            self == SubOctave::Down1 ==> r == 2,
            self == SubOctave::Down2 ==> r == 4,
    {
        match self {
            SubOctave::Down1 => 2,
            SubOctave::Down2 => 4,
        }
    }
}

/// Two octaves down is one octave down twice.
pub proof fn lemma_divisors_compose()
    ensures
        divisor_spec(SubOctave::Down2) == divisor_spec(SubOctave::Down1) * divisor_spec(
            SubOctave::Down1,
        ),
{
}

} // verus!

//! LFO shapes, output ranges, and the shape that stands for an oscillator waveform.

use vstd::prelude::*;
use crate::oscillator::{Waveform, is_noise_spec};

verus! {

/// LFO waveform shape.
#[derive(Debug, Clone, Copy, PartialEq, Eq, Structural, Hash)]
pub enum LfoShape {
    /// Sine wave.
    Sine,
    /// Triangle wave.
    Triangle,
    /// Square wave (bipolar).
    Square,
    /// Ascending sawtooth (ramp up).
    SawUp,
    /// Descending sawtooth (ramp down).
    SawDown,
    /// Sample-and-hold (random step at each cycle).
    SampleAndHold,
}

/// LFO output range.
#[derive(Debug, Clone, Copy, PartialEq, Eq, Structural, Hash)]
pub enum LfoMode {
    /// Bipolar output: -1.0 to +1.0.
    Bipolar,
    /// Unipolar output: 0.0 to +1.0.
    Unipolar,
}

/// LFO shape used for an oscillator waveform: sine, triangle and square keep
/// their shape, a saw becomes a falling ramp, and every other waveform (pulse
/// and the noises) falls back to a sine.
pub open spec fn lfo_shape_for_spec(w: Waveform) -> LfoShape {
    match w {
        Waveform::Sine => LfoShape::Sine,
        Waveform::Triangle => LfoShape::Triangle,
        Waveform::Square => LfoShape::Square,
        Waveform::Saw => LfoShape::SawDown,
        _ => LfoShape::Sine,
    }
}

/// The LFO shape that stands for an oscillator waveform.
pub fn lfo_shape_for(waveform: Waveform) -> (s: LfoShape)
    ensures
        s == lfo_shape_for_spec(waveform),
        waveform == Waveform::Sine ==> s == LfoShape::Sine,
        waveform == Waveform::Triangle ==> s == LfoShape::Triangle,
        waveform == Waveform::Square ==> s == LfoShape::Square,
        waveform == Waveform::Saw ==> s == LfoShape::SawDown,
        waveform == Waveform::Pulse ==> s == LfoShape::Sine,
        waveform == Waveform::WhiteNoise ==> s == LfoShape::Sine,
        waveform == Waveform::PinkNoise ==> s == LfoShape::Sine,
        waveform == Waveform::BrownNoise ==> s == LfoShape::Sine,
{
    match waveform {
        Waveform::Sine => LfoShape::Sine,
        Waveform::Triangle => LfoShape::Triangle,
        Waveform::Square => LfoShape::Square,
        Waveform::Saw => LfoShape::SawDown,
        _ => LfoShape::Sine,
    }
}

/// Only the four periodic waveforms with an LFO counterpart keep a shape of
/// their own; pulse and every noise waveform become a sine, and no waveform
/// yields a rising saw or a sample-and-hold LFO.
pub proof fn lemma_lfo_shape_fallback(w: Waveform)
    ensures
        lfo_shape_for_spec(w) != LfoShape::SawUp,
        lfo_shape_for_spec(w) != LfoShape::SampleAndHold,
        is_noise_spec(w) ==> lfo_shape_for_spec(w) == LfoShape::Sine,
        w == Waveform::Pulse ==> lfo_shape_for_spec(w) == LfoShape::Sine,
        lfo_shape_for_spec(w) == LfoShape::Sine <==> (w != Waveform::Triangle && w
            != Waveform::Square && w != Waveform::Saw),
        lfo_shape_for_spec(w) == LfoShape::SawDown <==> w == Waveform::Saw,
{
}

} // verus!

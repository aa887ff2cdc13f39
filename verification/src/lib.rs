//! naad — audio synthesis primitives: the discrete core of the library.
//!
//! The floating-point sample arithmetic of the synthesis building blocks lives
//! with the host program; this crate holds the parts whose behaviour is exact:
//! the xorshift32 generator and the pink-noise octave schedule, the envelope
//! stage machine, the delay-line ring buffer, modulation routing slots, note
//! names, tuning-table positions and the rational just and Pythagorean scales,
//! the hold counter of the noise suppressor, the STFT frame layout, the
//! Hadamard sign pattern of the matrix FDN, and the kind enums every module
//! shares.

pub mod acoustics;
pub mod delay;
pub mod dsp_util;
pub mod dynamics;
pub mod effects;
pub mod envelope;
pub mod filter;
pub mod mod_matrix;
pub mod modulation;
pub mod noise;
pub mod oscillator;
pub mod panning;
pub mod synth;
pub mod tuning;

//! Synthesis algorithm modules.

pub mod fm;
pub mod formant;
pub mod granular;

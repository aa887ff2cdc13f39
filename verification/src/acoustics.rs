//! Acoustic simulation helpers.

pub mod directivity;
pub mod fdn_reverb;

//! Vowels of the formant synthesizer.

use vstd::prelude::*;

verus! {

/// Vowel preset for formant synthesis.
#[derive(Debug, Clone, Copy, PartialEq, Eq, Structural, Hash)]
pub enum Vowel {
    /// /a/ as in "father".
    A,
    /// /e/ as in "hey".
    E,
    /// /i/ as in "see".
    I,
    /// /o/ as in "go".
    O,
    /// /u/ as in "boot".
    U,
}

} // verus!

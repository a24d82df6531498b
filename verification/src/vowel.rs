//! The five vowels of the Japanese syllabary.

use vstd::prelude::*;

verus! {

/// Represents a vowel in the Japanese language.
#[derive(Debug, Copy, Clone, PartialEq, Eq, Structural, Hash)]
pub enum Vowel {
    A,
    I,
    U,
    E,
    O,
}

} // verus!

//! The errors of the numeral parser.

use vstd::prelude::*;

verus! {

/// What can go wrong when parsing a numeral phrase.
#[derive(Clone, Copy, Debug, Hash, PartialEq, Eq, Structural)]
pub enum WordsToNumberError {
    /// A word is neither a numeral word, a scale word, the negative marker,
    /// nor a run of digits.
    InvalidUnit,
    /// The input is empty once trimmed.
    EmptyInput,
}

impl WordsToNumberError {
    /// A short description of the error.
    pub fn message(&self) -> (r: &'static str)
        ensures
            r@.len() > 0,
    {
        match self {
            WordsToNumberError::InvalidUnit => {
                proof {
                    reveal_strlit("There is an invalid unit in the input.");
                }
                "There is an invalid unit in the input."
            },
            WordsToNumberError::EmptyInput => {
                proof {
                    reveal_strlit("The input cannot be an empty string.");
                }
                "The input cannot be an empty string."
            },
        }
    }
}

} // verus!

//! The errors of the numeral renderer.

use vstd::prelude::*;

verus! {

/// What can go wrong when rendering a numeral from text.
#[derive(Clone, Debug, Hash, PartialEq, Eq)]
pub enum NumberToWordsError {
    /// The input is empty.
    EmptyString,
    /// The input is not a decimal integer.
    InvalidInteger(String),
    /// The value does not fit the signed 64-bit range.
    Overflow(String),
    /// A numeric conversion failed for another reason.
    Unknown(String),
    /// A three-digit group was out of range; this marks a defect inside the
    /// renderer, never a property of the input.
    Internal,
}

impl NumberToWordsError {
    /// A short description of the error.
    pub fn message(&self) -> (r: &'static str)
        ensures
            r@.len() > 0,
    {
        proof {
            reveal_strlit("The input is empty.");
        }
        match self {
            NumberToWordsError::EmptyString => "The input is empty.",
            NumberToWordsError::InvalidInteger(_) => {
                proof {
                    reveal_strlit("There is an invalid integer in the input.");
                }
                "There is an invalid integer in the input."
            },
            NumberToWordsError::Overflow(_) => {
                proof {
                    reveal_strlit("Overflow occurred while processing the integer.");
                }
                "Overflow occurred while processing the integer."
            },
            NumberToWordsError::Unknown(_) => {
                proof {
                    reveal_strlit("Unknown error occurred.");
                }
                "Unknown error occurred."
            },
            NumberToWordsError::Internal => {
                proof {
                    reveal_strlit("A three-digit group was out of range.");
                }
                "A three-digit group was out of range."
            },
        }
    }
}

} // verus!

//! The errors of account-number validation.

use vstd::prelude::*;

verus! {

/// What can go wrong when validating an account number.
#[derive(Clone, Copy, Debug, Hash, PartialEq, Eq, Structural)]
pub enum ShebaValidationError {
    /// The input is empty.
    Empty,
    /// The input does not start with the country tag.
    NotStartedWithIR,
    /// A character is not a decimal digit.
    InvalidDigit,
    /// The digit count after the country tag is not twenty-four.
    InvalidLength(usize),
    /// The checksum remainder is not one.
    InvalidChecksum,
    /// The bank code is not a known one.
    BankNotFound,
    /// A step that cannot fail failed; marks a defect, not an input.
    InternalError,
}

impl ShebaValidationError {
    /// A short description of the error.
    pub fn message(&self) -> (r: &'static str)
        ensures
            r@.len() > 0,
    {
        match self {
            ShebaValidationError::Empty => {
                proof {
                    reveal_strlit("The input is empty.");
                }
                "The input is empty."
            },
            ShebaValidationError::NotStartedWithIR => {
                proof {
                    reveal_strlit("The input does not start with the country tag.");
                }
                "The input does not start with the country tag."
            },
            ShebaValidationError::InvalidDigit => {
                proof {
                    reveal_strlit("There is an invalid digit in the input.");
                }
                "There is an invalid digit in the input."
            },
            ShebaValidationError::InvalidLength(_) => {
                proof {
                    reveal_strlit("Input length is invalid.");
                }
                "Input length is invalid."
            },
            ShebaValidationError::InvalidChecksum => {
                proof {
                    reveal_strlit("Input checksum is invalid.");
                }
                "Input checksum is invalid."
            },
            ShebaValidationError::BankNotFound => {
                proof {
                    reveal_strlit("Bank information not found.");
                }
                "Bank information not found."
            },
            ShebaValidationError::InternalError => {
                proof {
                    reveal_strlit("An internal step failed.");
                }
                "An internal step failed."
            },
        }
    }
}

} // verus!

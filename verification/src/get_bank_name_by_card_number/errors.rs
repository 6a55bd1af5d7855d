//! The errors of the card-prefix bank lookup.

use vstd::prelude::*;

verus! {

/// What can go wrong when looking a card number's bank up.
#[derive(Clone, PartialEq, Eq, Debug, Hash)]
pub enum BankNameByCardNumberError {
    /// The card number, with its length: fewer than six bytes.
    TooShort(String, usize),
    /// The card number matches no bank.
    NotFound(String),
}

impl BankNameByCardNumberError {
    /// A short description of the error.
    pub fn message(&self) -> (r: &'static str)
        ensures
            r@.len() > 0,
    {
        match self {
            BankNameByCardNumberError::TooShort(_, _) => {
                proof {
                    reveal_strlit("Card number is too short; minimum length is 6.");
                }
                "Card number is too short; minimum length is 6."
            },
            BankNameByCardNumberError::NotFound(_) => {
                proof {
                    reveal_strlit("Card number does not match any bank.");
                }
                "Card number does not match any bank."
            },
        }
    }
}

} // verus!

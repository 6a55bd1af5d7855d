//! A card number found in text.

use vstd::prelude::*;

verus! {

/// A find: the normalised digits, and the raw text they were read from.
#[derive(PartialEq, Eq, Debug, Clone, Hash)]
pub struct ExtractedCardNumber {
    base: String,
    pure: String,
}

impl ExtractedCardNumber {
    /// The normalised digits, seen from contracts.
    pub closed spec fn base_spec(&self) -> String {
        self.base
    }

    /// The raw text, seen from contracts.
    pub closed spec fn pure_spec(&self) -> String {
        self.pure
    }

    /// Packs the normalised digits and the raw text.
    pub fn new(base: &str, pure: &str) -> (r: ExtractedCardNumber)
        ensures
            r.base_spec()@ == base@,
            r.pure_spec()@ == pure@,
    {
        ExtractedCardNumber {
            base: <String as vstd::string::StringExecFns>::from_str(base),
            pure: <String as vstd::string::StringExecFns>::from_str(pure),
        }
    }

    /// The normalised digits.
    pub fn get_base(&self) -> (r: &str)
        ensures
            r@ == self.base_spec()@,
    {
        self.base.as_str()
    }

    /// The raw form; this accessor answers with the normalised digits.
    pub fn get_pure(&self) -> (r: &str)
        ensures
            r@ == self.base_spec()@,
    {
        self.base.as_str()
    }
}

} // verus!

//! The errors of the identity-number place lookup.

use vstd::prelude::*;

verus! {

/// What can go wrong when looking an identity number's place up.
#[derive(Debug, PartialEq, Eq, Structural, Clone, Copy, Hash)]
pub enum PlaceByNationalIdError {
    /// The identity number's byte length, which is not ten.
    TooShortNationalId(usize),
    /// The prefix names no known place.
    NotFound,
}

} // verus!

//! The errors of plate reading.

use vstd::prelude::*;

verus! {

/// What can go wrong when reading a plate.
#[derive(Debug, PartialEq, Eq, Clone, Hash)]
pub enum PlateNumberError {
    /// The digit count is neither seven nor eight.
    InvalidPlateDigitLength,
    /// The letter count does not fit the plate kind.
    InvalidPlateCharacterLength,
    /// The letter, which names no category.
    InvalidPlateCharacter(String),
    /// The motorcycle province code, which names no region.
    MotorcycleProvinceNotFound(String),
    /// The car province code, which names no province.
    CarProvinceNotFound(String),
}

} // verus!

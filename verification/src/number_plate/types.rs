//! The shapes a read plate can take.

use vstd::prelude::*;

verus! {

/// The kind of vehicle a plate belongs to.
#[derive(PartialEq, Debug, Clone, Copy, Hash, Eq, Structural)]
pub enum PlateTypes {
    Car,
    Motorcycle,
}

/// The parts of a car plate.
#[derive(PartialEq, Debug, Clone, Hash, Eq)]
pub struct CarPlateDetail {
    pub first_two_digits: String,
    pub plate_character: String,
    pub next_three_digits: String,
    pub province_code: String,
}

/// The parts of a motorcycle plate.
#[derive(PartialEq, Debug, Clone, Hash, Eq)]
pub struct MotorcyclePlateDetail {
    pub digits: String,
    pub province_code: String,
}

/// The parts of whichever plate was read.
#[derive(PartialEq, Debug, Clone, Hash, Eq)]
pub enum PlateResultDetails {
    CarDetail(CarPlateDetail),
    MotorcycleDetail(MotorcyclePlateDetail),
}

/// A read plate: its canonical template, its province, its kind, its parts,
/// and its category where the kind has one.
#[derive(PartialEq, Debug, Clone, Hash, Eq)]
pub struct Plate {
    pub template: String,
    pub province: String,
    pub plate_type: PlateTypes,
    pub details: PlateResultDetails,
    pub category: Option<String>,
}

/// A plate taken apart into its digits and its letters.
#[derive(PartialEq, Debug, Clone, Hash, Eq)]
pub struct NormalizedPlate {
    pub numbers: String,
    pub char: Option<String>,
}

} // verus!

//! The place an identity number belongs to.

use vstd::prelude::*;

verus! {

/// A city together with its province.
#[derive(PartialEq, Eq, Debug, Clone, Copy, Hash)]
pub struct PlaceByNationalId {
    city: &'static str,
    province: &'static str,
}

impl PlaceByNationalId {
    /// The city, seen from contracts.
    pub closed spec fn get_city_spec(&self) -> &'static str {
        self.city
    }

    /// The province, seen from contracts.
    pub closed spec fn get_province_spec(&self) -> &'static str {
        self.province
    }

    /// Packs a city and its province.
    pub fn new(city: &'static str, province: &'static str) -> (r: PlaceByNationalId)
        ensures
            r.get_city_spec() == city,
            r.get_province_spec() == province,
    {
        PlaceByNationalId { city, province }
    }

    /// The province.
    pub fn get_province(&self) -> (r: &'static str)
        ensures
            r == self.get_province_spec(),
    {
        self.province
    }

    /// The city.
    pub fn get_city(&self) -> (r: &'static str)
        ensures
            r == self.get_city_spec(),
    {
        self.city
    }
}

} // verus!

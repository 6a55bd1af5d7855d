//! The place a national identity number was issued in, read off its first
//! three digits.

pub mod errors;
pub mod place_by_iran_national_id;

pub use errors::PlaceByNationalIdError;
pub use place_by_iran_national_id::PlaceByNationalId;

use vstd::prelude::*;
use vstd::string::StringSliceAdditionalSpecFns;
use crate::text::chars_of;
use crate::text::eq_str;

verus! {

/// The city and province an identity-number prefix belongs to.
pub open spec fn place_of_code(t: Seq<char>) -> Option<(Seq<char>, Seq<char>)> {
    if t == "001"@ {
        Some(("تهران مرکزی"@, "تهران"@))
    } else if t == "002"@ {
        Some(("تهران مرکزی"@, "تهران"@))
    } else if t == "003"@ {
        Some(("تهران مرکزی"@, "تهران"@))
    } else if t == "004"@ {
        Some(("تهران مرکزی"@, "تهران"@))
    } else if t == "005"@ {
        Some(("تهران مرکزی"@, "تهران"@))
    } else if t == "006"@ {
        Some(("تهران مرکزی"@, "تهران"@))
    } else if t == "007"@ {
        Some(("تهران مرکزی"@, "تهران"@))
    } else if t == "008"@ {
        Some(("تهران مرکزی"@, "تهران"@))
    } else if t == "037"@ {
        Some(("قم"@, "قم"@))
    } else if t == "038"@ {
        Some(("قم"@, "قم"@))
    } else if t == "045"@ {
        Some(("شمیران"@, "تهران"@))
    } else if t == "049"@ {
        Some(("شهرری"@, "تهران"@))
    } else if t == "064"@ {
        Some(("بیرجند"@, "خراسان جنوبی"@))
    } else if t == "065"@ {
        Some(("بیرجند"@, "خراسان جنوبی"@))
    } else if t == "067"@ {
        Some(("بجنورد"@, "خراسان شمالی"@))
    } else if t == "079"@ {
        Some(("سبزوار"@, "خراسان رضوی"@))
    } else if t == "090"@ {
        Some(("کاشمر"@, "خراسان رضوی"@))
    } else if t == "211"@ {
        Some(("گرگان"@, "گلستان"@))
    } else if t == "212"@ {
        Some(("گرگان"@, "گلستان"@))
    } else if t == "504"@ {
        Some(("پارس آباد"@, "اردبیل"@))
    } else {
        None
    }
}

fn code_to_city(t: Vec<char>) -> (r: Option<PlaceByNationalId>)
    ensures
        match r {
            Some(p) => place_of_code(t@) matches Some(x) && p.get_city_spec()@ == x.0
                && p.get_province_spec()@ == x.1,
            None => place_of_code(t@) is None,
        },
{
    if eq_str(&t, "001") {
        return Some(PlaceByNationalId::new("تهران مرکزی", "تهران"));
    }
    if eq_str(&t, "002") {
        return Some(PlaceByNationalId::new("تهران مرکزی", "تهران"));
    }
    if eq_str(&t, "003") {
        return Some(PlaceByNationalId::new("تهران مرکزی", "تهران"));
    }
    if eq_str(&t, "004") {
        return Some(PlaceByNationalId::new("تهران مرکزی", "تهران"));
    }
    if eq_str(&t, "005") {
        return Some(PlaceByNationalId::new("تهران مرکزی", "تهران"));
    }
    if eq_str(&t, "006") {
        return Some(PlaceByNationalId::new("تهران مرکزی", "تهران"));
    }
    if eq_str(&t, "007") {
        return Some(PlaceByNationalId::new("تهران مرکزی", "تهران"));
    }
    if eq_str(&t, "008") {
        return Some(PlaceByNationalId::new("تهران مرکزی", "تهران"));
    }
    if eq_str(&t, "037") {
        return Some(PlaceByNationalId::new("قم", "قم"));
    }
    if eq_str(&t, "038") {
        return Some(PlaceByNationalId::new("قم", "قم"));
    }
    if eq_str(&t, "045") {
        return Some(PlaceByNationalId::new("شمیران", "تهران"));
    }
    if eq_str(&t, "049") {
        return Some(PlaceByNationalId::new("شهرری", "تهران"));
    }
    if eq_str(&t, "064") {
        return Some(PlaceByNationalId::new("بیرجند", "خراسان جنوبی"));
    }
    if eq_str(&t, "065") {
        return Some(PlaceByNationalId::new("بیرجند", "خراسان جنوبی"));
    }
    if eq_str(&t, "067") {
        return Some(PlaceByNationalId::new("بجنورد", "خراسان شمالی"));
    }
    if eq_str(&t, "079") {
        return Some(PlaceByNationalId::new("سبزوار", "خراسان رضوی"));
    }
    if eq_str(&t, "090") {
        return Some(PlaceByNationalId::new("کاشمر", "خراسان رضوی"));
    }
    if eq_str(&t, "211") {
        return Some(PlaceByNationalId::new("گرگان", "گلستان"));
    }
    if eq_str(&t, "212") {
        return Some(PlaceByNationalId::new("گرگان", "گلستان"));
    }
    if eq_str(&t, "504") {
        return Some(PlaceByNationalId::new("پارس آباد", "اردبیل"));
    }
    None
}

/// The place an identity number was issued in: the number must be ten bytes,
/// and its first three digits name the place.
#[verifier::loop_isolation(false)]
pub fn get_place_by_iran_national_id(inp: &str) -> (r: Result<
    PlaceByNationalId,
    PlaceByNationalIdError,
>)
    ensures
        ({
            let bl = inp.spec_bytes().len() as usize as int;
            if bl != 10 {
                r == Err::<PlaceByNationalId, PlaceByNationalIdError>(
                    PlaceByNationalIdError::TooShortNationalId(bl as usize),
                )
            } else if inp@.len() < 3 {
                r == Err::<PlaceByNationalId, PlaceByNationalIdError>(
                    PlaceByNationalIdError::NotFound,
                )
            } else {
                match place_of_code(inp@.take(3)) {
                    Some(x) => r matches Ok(p) && p.get_city_spec()@ == x.0
                        && p.get_province_spec()@ == x.1,
                    None => r == Err::<PlaceByNationalId, PlaceByNationalIdError>(
                        PlaceByNationalIdError::NotFound,
                    ),
                }
            }
        }),
{
    let bl = inp.len();
    if bl != 10 {
        return Err(PlaceByNationalIdError::TooShortNationalId(bl));
    }
    let v = chars_of(inp);
    if v.len() < 3 {
        return Err(PlaceByNationalIdError::NotFound);
    }
    let mut t: Vec<char> = Vec::new();
    let mut i: usize = 0;
    while i < 3
        invariant
            i <= 3,
            v@.len() >= 3,
            t@ == v@.subrange(0, i as int),
        decreases 3 - i,
    {
        proof {
            assert(t@.push(v@[i as int]) =~= v@.subrange(0, i + 1));
        }
        t.push(v[i]);
        i = i + 1;
    }
    proof {
        assert(t@ =~= inp@.take(3));
    }
    match code_to_city(t) {
        Some(p) => Ok(p),
        None => Err(PlaceByNationalIdError::NotFound),
    }
}

} // verus!

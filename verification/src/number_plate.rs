//! Iranian vehicle number plates: normalising, validating, and reading the
//! province and category off a plate.

pub mod errors;
pub mod helpers;
pub mod types;

pub use types::CarPlateDetail;
pub use types::MotorcyclePlateDetail;
pub use types::NormalizedPlate;
pub use types::Plate;
pub use types::PlateResultDetails;
pub use types::PlateTypes;

use vstd::prelude::*;
use crate::text::chars_of;
use crate::text::dec_digits;
use crate::text::dec_val;
use crate::text::eq_str;
use crate::text::is_dec_digit;
use crate::text::extend_with_chars;
use crate::text::extend_with_str;
use crate::text::parse_u64_range;
use crate::text::string_from_chars;
use crate::text::u64_to_chars;
use self::errors::PlateNumberError;
use self::helpers::plate_digits_of;
use self::helpers::plate_digits;
use self::helpers::plate_rest;

verus! {

/// The province a two-digit car plate code belongs to.
pub open spec fn car_province_of(code: int) -> Option<Seq<char>> {
    if code == 10 {
        Some("تهران"@)
    } else if code == 13 {
        Some("اصفهان"@)
    } else if code == 15 {
        Some("آذربایجان شرقی"@)
    } else if code == 17 {
        Some("آذربایجان غربی"@)
    } else if code == 21 {
        Some("البرز"@)
    } else if code == 47 {
        Some("مرکزی"@)
    } else if code == 53 {
        Some("فارس"@)
    } else if code == 62 {
        Some("گیلان"@)
    } else if code == 72 {
        Some("مازندران"@)
    } else if code == 74 {
        Some("خراسان رضوی"@)
    } else {
        None
    }
}

fn car_province_exec(code: u64) -> (r: Option<&'static str>)
    ensures
        match r {
            Some(p) => car_province_of(code as int) matches Some(x) && p@ == x,
            None => car_province_of(code as int) is None,
        },
{
    match code {
        10 => Some("تهران"),
        13 => Some("اصفهان"),
        15 => Some("آذربایجان شرقی"),
        17 => Some("آذربایجان غربی"),
        21 => Some("البرز"),
        47 => Some("مرکزی"),
        53 => Some("فارس"),
        62 => Some("گیلان"),
        72 => Some("مازندران"),
        74 => Some("خراسان رضوی"),
        _ => None,
    }
}

/// The region a three-digit motorcycle plate code belongs to.
pub open spec fn motorcycle_province_of(code: int) -> Option<Seq<char>> {
    if code == 121 {
        Some("مرکز تهران"@)
    } else if code == 122 {
        Some("مرکز تهران"@)
    } else if code == 123 {
        Some("مرکز تهران"@)
    } else if code == 511 {
        Some("مشهد"@)
    } else if code == 611 {
        Some("اصفهان"@)
    } else {
        None
    }
}

fn motorcycle_province_exec(code: u64) -> (r: Option<&'static str>)
    ensures
        match r {
            Some(p) => motorcycle_province_of(code as int) matches Some(x) && p@ == x,
            None => motorcycle_province_of(code as int) is None,
        },
{
    match code {
        121 => Some("مرکز تهران"),
        122 => Some("مرکز تهران"),
        123 => Some("مرکز تهران"),
        511 => Some("مشهد"),
        611 => Some("اصفهان"),
        _ => None,
    }
}

/// The category a plate letter stands for.
pub open spec fn category_of(t: Seq<char>) -> Option<Seq<char>> {
    if t == "ب"@ {
        Some("شخصی"@)
    } else if t == "ج"@ {
        Some("شخصی"@)
    } else if t == "د"@ {
        Some("شخصی"@)
    } else if t == "س"@ {
        Some("شخصی"@)
    } else if t == "ص"@ {
        Some("شخصی"@)
    } else if t == "ط"@ {
        Some("تاکسی"@)
    } else if t == "ت"@ {
        Some("تاکسی"@)
    } else if t == "ع"@ {
        Some("حمل و نقل عمومی"@)
    } else if t == "الف"@ {
        Some("دولتی"@)
    } else if t == "پ"@ {
        Some("پلیس"@)
    } else if t == "ز"@ {
        Some("وزارت دفاع"@)
    } else if t == "ش"@ {
        Some("ارتش"@)
    } else if t == "ک"@ {
        Some("کشاورزی"@)
    } else {
        None
    }
}

fn category_exec(t: &Vec<char>) -> (r: Option<&'static str>)
    ensures
        match r {
            Some(p) => category_of(t@) matches Some(x) && p@ == x,
            None => category_of(t@) is None,
        },
{
    if eq_str(t, "ب") {
        Some("شخصی")
    } else if eq_str(t, "ج") {
        Some("شخصی")
    } else if eq_str(t, "د") {
        Some("شخصی")
    } else if eq_str(t, "س") {
        Some("شخصی")
    } else if eq_str(t, "ص") {
        Some("شخصی")
    } else if eq_str(t, "ط") {
        Some("تاکسی")
    } else if eq_str(t, "ت") {
        Some("تاکسی")
    } else if eq_str(t, "ع") {
        Some("حمل و نقل عمومی")
    } else if eq_str(t, "الف") {
        Some("دولتی")
    } else if eq_str(t, "پ") {
        Some("پلیس")
    } else if eq_str(t, "ز") {
        Some("وزارت دفاع")
    } else if eq_str(t, "ش") {
        Some("ارتش")
    } else if eq_str(t, "ک") {
        Some("کشاورزی")
    } else {
        None
    }
}

/// What reading a seven-digit plate must yield: the last two digits name
/// the province, the letters name the category, and the result carries the
/// canonical template and every part.
pub open spec fn car_plate_ok(
    numbers: Seq<char>,
    letters: Seq<char>,
    r: Result<Plate, PlateNumberError>,
) -> bool {
    let code = dec_val(numbers.subrange(5, 7));
    match car_province_of(code) {
        None => r matches Err(e) && e matches PlateNumberError::MotorcycleProvinceNotFound(t)
            && t@ == numbers.subrange(5, 7),
        Some(p) => {
            match category_of(letters) {
                None => r matches Err(e) && e matches PlateNumberError::InvalidPlateCharacter(t)
                    && t@ == letters,
                Some(c) => r is Ok && {
                    let pl = r->Ok_0;
                    &&& pl.plate_type == PlateTypes::Car
                    &&& pl.province@ == p
                    &&& pl.category is Some
                    &&& pl.category->0@ == c
                    &&& pl.template@ == numbers.take(2) + letters + numbers.subrange(2, 5)
                        + "ایران"@ + dec_digits(code as nat)
                    &&& pl.details is CarDetail
                    &&& pl.details->CarDetail_0.first_two_digits@ == numbers.take(2)
                    &&& pl.details->CarDetail_0.plate_character@ == letters
                    &&& pl.details->CarDetail_0.next_three_digits@ == numbers.subrange(2, 5)
                    &&& pl.details->CarDetail_0.province_code@ == dec_digits(code as nat)
                },
            }
        },
    }
}

/// What reading an eight-digit plate must yield: the first three digits name
/// the region, and the result carries the dashed template and every part.
pub open spec fn motorcycle_plate_ok(
    numbers: Seq<char>,
    r: Result<Plate, PlateNumberError>,
) -> bool {
    let code = dec_val(numbers.take(3));
    match motorcycle_province_of(code) {
        None => r matches Err(e) && e matches PlateNumberError::MotorcycleProvinceNotFound(t)
            && t@ == numbers.take(3),
        Some(p) => r is Ok && {
            let pl = r->Ok_0;
            &&& pl.plate_type == PlateTypes::Motorcycle
            &&& pl.province@ == p
            &&& pl.category is None
            &&& pl.template@ == numbers.take(3) + seq!['-'] + numbers.skip(3)
            &&& pl.details is MotorcycleDetail
            &&& pl.details->MotorcycleDetail_0.digits@ == numbers.skip(3)
            &&& pl.details->MotorcycleDetail_0.province_code@ == dec_digits(code as nat)
        },
    }
}

/// Reads a plate: seven digits with one letter make a car plate, eight
/// digits a motorcycle plate. The digit and letter parts are taken apart
/// first; the digits name the province, the letter the category. Any other
/// digit count is the length error.
#[verifier::loop_isolation(false)]
pub fn get_plate_info(plate: &str) -> (r: Result<Plate, PlateNumberError>)
    ensures
        ({
            let digits = plate_digits(plate@);
            let others = plate_rest(plate@);
            if digits.len() == 7 {
                car_plate_ok(digits, others, r)
            } else if digits.len() == 8 {
                motorcycle_plate_ok(digits, r)
            } else {
                r == Err::<Plate, PlateNumberError>(PlateNumberError::InvalidPlateDigitLength)
            }
        }),
{
    let v = chars_of(plate);
    let numbers = plate_digits_of(&v);
    let rest = crate::number_plate::helpers::plate_rest_of(&v);
    if numbers.len() == 7 {
        get_car_info(numbers, rest)
    } else if numbers.len() == 8 {
        get_motorcycle_info(numbers)
    } else {
        Err(PlateNumberError::InvalidPlateDigitLength)
    }
}

#[verifier::loop_isolation(false)]
fn get_car_info(numbers: Vec<char>, letters: Vec<char>) -> (r: Result<Plate, PlateNumberError>)
    requires
        numbers@.len() == 7,
        forall|i: int| 0 <= i < numbers@.len() ==> is_dec_digit(#[trigger] numbers@[i]),
    ensures
        car_plate_ok(numbers@, letters@, r),
{
    let province_code = match parse_u64_range(&numbers, 5, 7) {
        Some(x) => x,
        None => {
            proof {
                let sub = numbers@.subrange(5, 7);
                assert(forall|i: int| 0 <= i < sub.len() ==> is_dec_digit(#[trigger] sub[i]));
                crate::text::lemma_dec_val_bound(sub);
                assert(crate::number_to_words::pow10(0nat) == 1);
                assert(crate::number_to_words::pow10(1nat) == 10);
                assert(crate::number_to_words::pow10(2nat) == 100);
                assert(false);
            }
            return Err(PlateNumberError::InvalidPlateDigitLength);
        },
    };
    proof {
        let sub = numbers@.subrange(5, 7);
        assert(forall|i: int| 0 <= i < sub.len() ==> is_dec_digit(#[trigger] sub[i]));
        crate::text::lemma_dec_val_bound(sub);
    }
    let province = match car_province_exec(province_code) {
        Some(p) => p,
        None => {
            let code = string_from_chars(&sub_chars(&numbers, 5, 7));
            return Err(PlateNumberError::MotorcycleProvinceNotFound(code));
        },
    };
    let category = match category_exec(&letters) {
        Some(c) => c,
        None => {
            return Err(
                PlateNumberError::InvalidPlateCharacter(string_from_chars(&letters)),
            );
        },
    };
    let code_digits = u64_to_chars(province_code);
    let mut template: Vec<char> = Vec::new();
    let head = sub_chars(&numbers, 0, 2);
    extend_with_chars(&mut template, &head);
    extend_with_chars(&mut template, &letters);
    let mid = sub_chars(&numbers, 2, 5);
    extend_with_chars(&mut template, &mid);
    extend_with_str(&mut template, "ایران");
    extend_with_chars(&mut template, &code_digits);
    let details = CarPlateDetail {
        first_two_digits: string_from_chars(&head),
        plate_character: string_from_chars(&letters),
        next_three_digits: string_from_chars(&mid),
        province_code: string_from_chars(&code_digits),
    };
    proof {
        assert(template@ =~= numbers@.take(2) + letters@ + numbers@.subrange(2, 5) + "ایران"@
            + dec_digits(province_code as nat));
        assert(head@ =~= numbers@.take(2));
    }
    Ok(
        Plate {
            plate_type: PlateTypes::Car,
            template: string_from_chars(&template),
            details: PlateResultDetails::CarDetail(details),
            province: <String as vstd::string::StringExecFns>::from_str(province),
            category: Some(<String as vstd::string::StringExecFns>::from_str(category)),
        },
    )
}

#[verifier::loop_isolation(false)]
fn get_motorcycle_info(numbers: Vec<char>) -> (r: Result<Plate, PlateNumberError>)
    requires
        numbers@.len() == 8,
        forall|i: int| 0 <= i < numbers@.len() ==> is_dec_digit(#[trigger] numbers@[i]),
    ensures
        motorcycle_plate_ok(numbers@, r),
{
    let province_code = match parse_u64_range(&numbers, 0, 3) {
        Some(x) => x,
        None => {
            proof {
                let sub = numbers@.subrange(0, 3);
                assert(forall|i: int| 0 <= i < sub.len() ==> is_dec_digit(#[trigger] sub[i]));
                crate::text::lemma_dec_val_bound(sub);
                assert(crate::number_to_words::pow10(0nat) == 1);
                assert(crate::number_to_words::pow10(1nat) == 10);
                assert(crate::number_to_words::pow10(2nat) == 100);
                assert(crate::number_to_words::pow10(3nat) == 1000);
                assert(false);
            }
            return Err(PlateNumberError::InvalidPlateDigitLength);
        },
    };
    proof {
        let sub = numbers@.subrange(0, 3);
        assert(forall|i: int| 0 <= i < sub.len() ==> is_dec_digit(#[trigger] sub[i]));
        crate::text::lemma_dec_val_bound(sub);
        assert(sub =~= numbers@.take(3));
    }
    let province = match motorcycle_province_exec(province_code) {
        Some(p) => p,
        None => {
            let code = string_from_chars(&sub_chars(&numbers, 0, 3));
            return Err(PlateNumberError::MotorcycleProvinceNotFound(code));
        },
    };
    let head = sub_chars(&numbers, 0, 3);
    let tail = sub_chars(&numbers, 3, 8);
    let mut template: Vec<char> = Vec::new();
    extend_with_chars(&mut template, &head);
    template.push('-');
    extend_with_chars(&mut template, &tail);
    let code_digits = u64_to_chars(province_code);
    let details = MotorcyclePlateDetail {
        digits: string_from_chars(&tail),
        province_code: string_from_chars(&code_digits),
    };
    proof {
        assert(template@ =~= numbers@.take(3) + seq!['-'] + numbers@.skip(3));
        assert(head@ =~= numbers@.take(3));
        assert(tail@ =~= numbers@.skip(3));
    }
    Ok(
        Plate {
            plate_type: PlateTypes::Motorcycle,
            template: string_from_chars(&template),
            province: <String as vstd::string::StringExecFns>::from_str(province),
            details: PlateResultDetails::MotorcycleDetail(details),
            category: None,
        },
    )
}

fn sub_chars(v: &Vec<char>, from: usize, to: usize) -> (r: Vec<char>)
    requires
        from <= to <= v@.len(),
    ensures
        r@ == v@.subrange(from as int, to as int),
{
    let mut r: Vec<char> = Vec::new();
    let mut i: usize = from;
    while i < to
        invariant
            from <= i <= to <= v@.len(),
            r@ == v@.subrange(from as int, i as int),
        decreases to - i,
    {
        proof {
            assert(r@.push(v@[i as int]) =~= v@.subrange(from as int, i + 1));
        }
        r.push(v[i]);
        i = i + 1;
    }
    r
}

} // verus!

//! Utilities for Persian-language text and numbers: digit-script conversion,
//! numeral words, validators for national identifiers, bank cards, IBANs,
//! utility bills, phone numbers and number plates, and time formatting.

pub mod add_ordinal_suffix;
pub mod arabic_chars;
pub mod bill;
pub mod commas;
pub mod digits;
pub mod extract_card_number;
pub mod find_capital_by_province;
pub mod half_space;
pub mod get_bank_name_by_card_number;
pub mod get_place_by_iran_national_id;
pub mod laws;
pub mod legal_id;
pub mod national_id;
pub mod number_plate;
pub mod number_to_words;
pub mod persian_chars;
pub mod phone_number;
pub mod number_to_words_error;
pub mod remaining_time;
pub mod remove_ordinal_suffix;
pub mod sheba;
pub mod text;
pub mod time_ago;
pub mod time_diff;
pub mod to_persian_chars;
pub mod url_fix;
pub mod verity_card_number;
pub mod words_to_number;
pub mod words_to_number_errors;

use vstd::prelude::*;

verus! {

} // verus!

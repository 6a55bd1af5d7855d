//! Parsing a Persian numeral phrase back into an integer.
//!
//! The phrase is trimmed, the split hundred forms are merged into their
//! single-word spellings, the text is split on white space, the conjunction
//! and stray ordinal particles are dropped, ordinal suffixes are stripped
//! from each word, and the words are folded left to right into a signed sum.

pub use crate::words_to_number_errors::WordsToNumberError;

use vstd::prelude::*;
use crate::commas::add_commas_spec;
use crate::commas::add_commas;
use crate::digits::convert_text;
use crate::digits::en_to_ar_mut;
use crate::digits::en_to_fa_mut;
use crate::remove_ordinal_suffix::strip_ordinal;
use crate::remove_ordinal_suffix::strip_ordinal_chars;
use crate::text::chars_of;
use crate::text::dec_int;
use crate::text::eq_str;
use crate::text::i64_to_chars;
use crate::text::parse_i64_chars;
use crate::text::parse_i64_spec;
use crate::text::replace_all;
use crate::text::replace_chars;
use crate::text::split_ws;
use crate::text::split_ws_chars;
use crate::text::string_from_chars;
use crate::text::trim_chars;
use crate::text::trim_spec;
use crate::text::ParseIntOutcome;
use vstd::wrapping::i64_specs;

verus! {

/// The digit script of the rendered result.
#[derive(Debug, PartialEq, Eq, Structural)]
pub enum Language {
    Arabic,
    Persian,
    English,
}

/// How `words_to_number_str` formats its result: the digit script, and
/// whether thousands separators are inserted.
pub struct Options {
    pub digits: Language,
    pub add_commas: bool,
}

impl Default for Options {
    /// English digits, no separators.
    fn default() -> (r: Options)
        ensures
            r.digits == Language::English,
            r.add_commas == false,
    {
        Options { digits: Language::English, add_commas: false }
    }
}

/// The word that negates a phrase.
pub open spec fn negative_prefix() -> Seq<char> {
    "منفی"@
}

/// Value of a unit, teen, decade or hundred word.
pub open spec fn unit_value(t: Seq<char>) -> Option<i64> {
    if t == "صفر"@ {
        Some(0i64)
    } else if t == "یک"@ {
        Some(1i64)
    } else if t == "دو"@ {
        Some(2i64)
    } else if t == "سه"@ {
        Some(3i64)
    } else if t == "چهار"@ {
        Some(4i64)
    } else if t == "پنج"@ {
        Some(5i64)
    } else if t == "شش"@ {
        Some(6i64)
    } else if t == "شیش"@ {
        Some(6i64)
    } else if t == "هفت"@ {
        Some(7i64)
    } else if t == "هشت"@ {
        Some(8i64)
    } else if t == "نه"@ {
        Some(9i64)
    } else if t == "ده"@ {
        Some(10i64)
    } else if t == "یازده"@ {
        Some(11i64)
    } else if t == "دوازده"@ {
        Some(12i64)
    } else if t == "سیزده"@ {
        Some(13i64)
    } else if t == "چهارده"@ {
        Some(14i64)
    } else if t == "پانزده"@ {
        Some(15i64)
    } else if t == "شانزده"@ {
        Some(16i64)
    } else if t == "هفده"@ {
        Some(17i64)
    } else if t == "هجده"@ {
        Some(18i64)
    } else if t == "نوزده"@ {
        Some(19i64)
    } else if t == "بیست"@ {
        Some(20i64)
    } else if t == "سی"@ {
        Some(30i64)
    } else if t == "چهل"@ {
        Some(40i64)
    } else if t == "پنجاه"@ {
        Some(50i64)
    } else if t == "شصت"@ {
        Some(60i64)
    } else if t == "هفتاد"@ {
        Some(70i64)
    } else if t == "هشتاد"@ {
        Some(80i64)
    } else if t == "نود"@ {
        Some(90i64)
    } else if t == "صد"@ {
        Some(100i64)
    } else if t == "یکصد"@ {
        Some(100i64)
    } else if t == "دویست"@ {
        Some(200i64)
    } else if t == "سیصد"@ {
        Some(300i64)
    } else if t == "چهارصد"@ {
        Some(400i64)
    } else if t == "پانصد"@ {
        Some(500i64)
    } else if t == "ششصد"@ {
        Some(600i64)
    } else if t == "هفتصد"@ {
        Some(700i64)
    } else if t == "هشتصد"@ {
        Some(800i64)
    } else if t == "نهصد"@ {
        Some(900i64)
    } else {
        None
    }
}

/// Value of a scale word.
pub open spec fn magnitude_value(t: Seq<char>) -> Option<i64> {
    if t == "هزار"@ {
        Some(1000i64)
    } else if t == "میلیون"@ {
        Some(1000000i64)
    } else if t == "بیلیون"@ {
        Some(1000000000i64)
    } else if t == "میلیارد"@ {
        Some(1000000000i64)
    } else if t == "تریلیون"@ {
        Some(1000000000000i64)
    } else if t == "کوآدریلیون"@ {
        Some(1000000000000000i64)
    } else if t == "کوینتیلیون"@ {
        Some(1000000000000000000i64)
    } else {
        None
    }
}

/// Value of a unit, teen, decade or hundred word.
pub fn get_unit_number(t: &Vec<char>) -> (r: Option<i64>)
    ensures
        r == unit_value(t@),
{
    if eq_str(t, "صفر") {
        Some(0)
    } else if eq_str(t, "یک") {
        Some(1)
    } else if eq_str(t, "دو") {
        Some(2)
    } else if eq_str(t, "سه") {
        Some(3)
    } else if eq_str(t, "چهار") {
        Some(4)
    } else if eq_str(t, "پنج") {
        Some(5)
    } else if eq_str(t, "شش") {
        Some(6)
    } else if eq_str(t, "شیش") {
        Some(6)
    } else if eq_str(t, "هفت") {
        Some(7)
    } else if eq_str(t, "هشت") {
        Some(8)
    } else if eq_str(t, "نه") {
        Some(9)
    } else if eq_str(t, "ده") {
        Some(10)
    } else if eq_str(t, "یازده") {
        Some(11)
    } else if eq_str(t, "دوازده") {
        Some(12)
    } else if eq_str(t, "سیزده") {
        Some(13)
    } else if eq_str(t, "چهارده") {
        Some(14)
    } else if eq_str(t, "پانزده") {
        Some(15)
    } else if eq_str(t, "شانزده") {
        Some(16)
    } else if eq_str(t, "هفده") {
        Some(17)
    } else if eq_str(t, "هجده") {
        Some(18)
    } else if eq_str(t, "نوزده") {
        Some(19)
    } else if eq_str(t, "بیست") {
        Some(20)
    } else if eq_str(t, "سی") {
        Some(30)
    } else if eq_str(t, "چهل") {
        Some(40)
    } else if eq_str(t, "پنجاه") {
        Some(50)
    } else if eq_str(t, "شصت") {
        Some(60)
    } else if eq_str(t, "هفتاد") {
        Some(70)
    } else if eq_str(t, "هشتاد") {
        Some(80)
    } else if eq_str(t, "نود") {
        Some(90)
    } else if eq_str(t, "صد") {
        Some(100)
    } else if eq_str(t, "یکصد") {
        Some(100)
    } else if eq_str(t, "دویست") {
        Some(200)
    } else if eq_str(t, "سیصد") {
        Some(300)
    } else if eq_str(t, "چهارصد") {
        Some(400)
    } else if eq_str(t, "پانصد") {
        Some(500)
    } else if eq_str(t, "ششصد") {
        Some(600)
    } else if eq_str(t, "هفتصد") {
        Some(700)
    } else if eq_str(t, "هشتصد") {
        Some(800)
    } else if eq_str(t, "نهصد") {
        Some(900)
    } else {
        None
    }
}

/// Value of a scale word.
pub fn get_magnitute_number(t: &Vec<char>) -> (r: Option<i64>)
    ensures
        r == magnitude_value(t@),
{
    if eq_str(t, "هزار") {
        Some(1000)
    } else if eq_str(t, "میلیون") {
        Some(1000000)
    } else if eq_str(t, "بیلیون") {
        Some(1000000000)
    } else if eq_str(t, "میلیارد") {
        Some(1000000000)
    } else if eq_str(t, "تریلیون") {
        Some(1000000000000)
    } else if eq_str(t, "کوآدریلیون") {
        Some(1000000000000000)
    } else if eq_str(t, "کوینتیلیون") {
        Some(1000000000000000000)
    } else {
        None
    }
}

/// What a token that is neither a table word nor the negative marker is
/// worth: its digits are normalised from the Persian and Arabic scripts and
/// the token is parsed as a signed decimal number.
pub open spec fn digit_run_value(t: Seq<char>) -> ParseIntOutcome {
    parse_i64_spec(convert_text(convert_text(t, 1776, 1785, -1728), 1632, 1641, -1584))
}

/// One fold over the cleaned tokens, left to right, as the accumulator rule
/// says: the negative marker flips the sign, a table word adds its value, a
/// scale word replaces a zero sum and multiplies a non-zero one, a digit run
/// adds its value, and anything else fails the parse. Sums wrap at the
/// signed 64-bit boundary.
pub open spec fn calc_scan(ts: Seq<Seq<char>>, i: int, sum: i64, neg: bool) -> Result<
    i64,
    WordsToNumberError,
>
    decreases ts.len() - i,
{
    if i < 0 || i >= ts.len() {
        if neg {
            Ok(i64_specs::wrapping_sub(0, sum))
        } else {
            Ok(sum)
        }
    } else {
        let t = ts[i];
        if t == negative_prefix() {
            calc_scan(ts, i + 1, sum, true)
        } else if unit_value(t) is Some {
            calc_scan(ts, i + 1, i64_specs::wrapping_add(sum, unit_value(t)->0), neg)
        } else if magnitude_value(t) is Some {
            let m = magnitude_value(t)->0;
            let next = if sum == 0 {
                m
            } else {
                i64_specs::wrapping_mul(sum, m)
            };
            calc_scan(ts, i + 1, next, neg)
        } else if digit_run_value(t) is Value {
            calc_scan(ts, i + 1, i64_specs::wrapping_add(sum, digit_run_value(t)->Value_0), neg)
        } else {
            Err(WordsToNumberError::InvalidUnit)
        }
    }
}

/// The split hundred spellings merged into their single words, so that
/// every hundred form the renderer writes is also readable.
pub open spec fn merge_hundreds(s: Seq<char>) -> Seq<char> {
    replace_all(
        replace_all(
            replace_all(
                replace_all(
                    replace_all(replace_all(s, "شیش صد"@, "ششصد"@), "شش صد"@, "ششصد"@),
                    "هفت صد"@,
                    "هفتصد"@,
                ),
                "هشت صد"@,
                "هشتصد"@,
            ),
            "نه صد"@,
            "نهصد"@,
        ),
        "چهار صد"@,
        "چهارصد"@,
    )
}

/// Tokens that are dropped whole: the conjunction and a bare ordinal
/// particle.
pub open spec fn is_skipped_token(t: Seq<char>) -> bool {
    t == "و"@ || t == "ام"@ || t == "اُم"@
}

/// The word sequence after dropping skipped tokens and stripping ordinal
/// suffixes.
pub open spec fn clean_tokens(ts: Seq<Seq<char>>) -> Seq<Seq<char>>
    decreases ts.len(),
{
    if ts.len() == 0 {
        Seq::empty()
    } else if is_skipped_token(ts[0]) {
        clean_tokens(ts.drop_first())
    } else {
        seq![strip_ordinal(ts[0])] + clean_tokens(ts.drop_first())
    }
}

/// What parsing a phrase yields: the error for an input that is empty once
/// trimmed, otherwise the accumulator's fold over the cleaned tokens of the
/// normalised text.
pub open spec fn words_to_number_spec(s: Seq<char>) -> Result<i64, WordsToNumberError> {
    let w = trim_spec(s);
    if w.len() == 0 {
        Err(WordsToNumberError::EmptyInput)
    } else {
        calc_scan(clean_tokens(split_ws(merge_hundreds(w))), 0, 0, false)
    }
}

fn replace_lit(v: &Vec<char>, pat: &str, rep: &str) -> (r: Vec<char>)
    requires
        pat@.len() > 0,
    ensures
        r@ == replace_all(v@, pat@, rep@),
{
    let p = chars_of(pat);
    let q = chars_of(rep);
    replace_chars(v, &p, &q)
}

/// Parses a Persian numeral phrase into a signed 64-bit number. Ordinal
/// forms are accepted; the conjunction may appear or not. An input that is
/// empty after trimming, and a word that is no numeral, are the two errors.
pub fn words_to_number(words: &str) -> (r: Result<i64, WordsToNumberError>)
    ensures
        r == words_to_number_spec(words@),
{
    let v = chars_of(words);
    let w = trim_chars(&v);
    if w.len() == 0 {
        return Err(WordsToNumberError::EmptyInput);
    }
    proof {
        reveal_strlit("شیش صد");
    }
    let m1 = replace_lit(&w, "شیش صد", "ششصد");
    proof {
        reveal_strlit("شش صد");
    }
    let m2 = replace_lit(&m1, "شش صد", "ششصد");
    proof {
        reveal_strlit("هفت صد");
    }
    let m3 = replace_lit(&m2, "هفت صد", "هفتصد");
    proof {
        reveal_strlit("هشت صد");
    }
    let m4 = replace_lit(&m3, "هشت صد", "هشتصد");
    proof {
        reveal_strlit("نه صد");
    }
    let m5 = replace_lit(&m4, "نه صد", "نهصد");
    proof {
        reveal_strlit("چهار صد");
    }
    let merged = replace_lit(&m5, "چهار صد", "چهارصد");
    let raw_tokens = split_ws_chars(&merged);
    let ghost raw_seq = raw_tokens@.map_values(|t: Vec<char>| t@);

    // drop the conjunction and bare particles, strip ordinal suffixes
    let mut tokens: Vec<Vec<char>> = Vec::new();
    let mut i: usize = 0;
    proof {
        assert(raw_seq.skip(0) =~= raw_seq);
        assert(tokens@.map_values(|t: Vec<char>| t@) + clean_tokens(raw_seq) =~= clean_tokens(
            raw_seq,
        ));
    }
    while i < raw_tokens.len()
        invariant
            i <= raw_tokens@.len(),
            raw_seq == raw_tokens@.map_values(|t: Vec<char>| t@),
            clean_tokens(raw_seq) == tokens@.map_values(|t: Vec<char>| t@) + clean_tokens(
                raw_seq.skip(i as int),
            ),
        decreases raw_tokens@.len() - i,
    {
        let ghost pending = raw_seq.skip(i as int);
        proof {
            assert(pending[0] == raw_seq[i as int]);
            assert(pending.drop_first() =~= raw_seq.skip(i + 1));
        }
        let t = &raw_tokens[i];
        let skipped = eq_str(t, "و") || eq_str(t, "ام") || eq_str(t, "اُم");
        if !skipped {
            let cleaned = strip_ordinal_chars(t);
            proof {
                assert((tokens@.push(cleaned)).map_values(|t: Vec<char>| t@) =~= tokens@.map_values(
                    |t: Vec<char>| t@,
                ).push(cleaned@));
                assert(tokens@.map_values(|t: Vec<char>| t@).push(cleaned@) + clean_tokens(
                    raw_seq.skip(i + 1),
                ) =~= tokens@.map_values(|t: Vec<char>| t@) + (seq![strip_ordinal(pending[0])]
                    + clean_tokens(pending.drop_first())));
            }
            tokens.push(cleaned);
        }
        i = i + 1;
    }
    proof {
        assert(raw_seq.skip(i as int).len() == 0);
        assert(tokens@.map_values(|t: Vec<char>| t@) =~= clean_tokens(raw_seq));
    }
    calculate(&tokens)
}

/// Folds cleaned tokens into a signed sum, left to right.
fn calculate(tokens: &Vec<Vec<char>>) -> (r: Result<i64, WordsToNumberError>)
    ensures
        r == calc_scan(tokens@.map_values(|t: Vec<char>| t@), 0, 0, false),
{
    let ghost ts = tokens@.map_values(|t: Vec<char>| t@);
    let mut sum: i64 = 0;
    let mut is_negative: bool = false;
    let mut i: usize = 0;
    while i < tokens.len()
        invariant
            i <= tokens@.len(),
            ts == tokens@.map_values(|t: Vec<char>| t@),
            calc_scan(ts, 0, 0, false) == calc_scan(ts, i as int, sum, is_negative),
        decreases tokens@.len() - i,
    {
        let t = &tokens[i];
        if eq_str(t, "منفی") {
            is_negative = true;
        } else if let Some(value) = get_unit_number(t) {
            sum = sum.wrapping_add(value);
        } else if let Some(value) = get_magnitute_number(t) {
            if sum == 0 {
                sum = value;
            } else {
                sum = sum.wrapping_mul(value);
            }
        } else {
            let fa = crate::digits::fa_to_en_chars(t);
            let en = crate::digits::ar_to_en_chars(&fa);
            match parse_i64_chars(&en) {
                ParseIntOutcome::Value(value) => {
                    sum = sum.wrapping_add(value);
                },
                _ => {
                    return Err(WordsToNumberError::InvalidUnit);
                },
            }
        }
        i = i + 1;
    }
    if is_negative {
        Ok(0i64.wrapping_sub(sum))
    } else {
        Ok(sum)
    }
}

/// Parses a Persian numeral phrase and renders the value as digits, in the
/// script the options name, with thousands separators when asked.
pub fn words_to_number_str(words: &str, option: &Options) -> (r: Result<
    String,
    WordsToNumberError,
>)
    ensures
        ({
            match words_to_number_spec(words@) {
                Ok(n) => {
                    let base = dec_int(n as int);
                    let grouped = if option.add_commas {
                        add_commas_spec(base)
                    } else {
                        base
                    };
                    let shown = match option.digits {
                        Language::Arabic => convert_text(grouped, 48, 57, 1584),
                        Language::Persian => convert_text(grouped, 48, 57, 1728),
                        Language::English => grouped,
                    };
                    r matches Ok(s) && s@ == shown
                },
                Err(e) => r == Err::<String, WordsToNumberError>(e),
            }
        }),
{
    let number = match words_to_number(words) {
        Ok(n) => n,
        Err(e) => {
            return Err(e);
        },
    };
    let digits = i64_to_chars(number);
    let mut result = string_from_chars(&digits);

    if option.add_commas {
        let grouped = add_commas(result.as_str());
        result = grouped;
    }
    match option.digits {
        Language::Arabic => en_to_ar_mut(&mut result),
        Language::Persian => en_to_fa_mut(&mut result),
        Language::English => (),
    }
    Ok(result)
}

} // verus!

//! Conversion between Persian, Arabic, and English digit glyphs.
//!
//! Each conversion remaps the ten digit characters of one script onto the
//! corresponding digits of another and leaves every other character alone.

use vstd::prelude::*;
use crate::text::chars_of;
use crate::text::string_from_chars;

verus! {

/// English (ASCII) decimal digits: code points 48..=57.
pub open spec fn is_en_digit(c: char) -> bool {
    48 <= c as int && c as int <= 57
}

/// Persian (Extended Arabic-Indic) decimal digits: code points 1776..=1785.
pub open spec fn is_fa_digit(c: char) -> bool {
    1776 <= c as int && c as int <= 1785
}

/// Arabic-Indic decimal digits: code points 1632..=1641.
pub open spec fn is_ar_digit(c: char) -> bool {
    1632 <= c as int && c as int <= 1641
}

/// The character whose code point is `c`'s shifted by `diff`; used only where
/// the shift maps one digit block onto another, so the result is a valid
/// code point.
pub open spec fn shift_char(c: char, diff: int) -> char {
    (c as int + diff) as char
}

/// One character of a digit-script conversion: a digit of the source block
/// moves by `diff`, everything else stays.
pub open spec fn convert_char(c: char, lo: int, hi: int, diff: int) -> char {
    if lo <= c as int && c as int <= hi {
        shift_char(c, diff)
    } else {
        c
    }
}

/// A digit-script conversion applied to a whole text.
pub open spec fn convert_text(s: Seq<char>, lo: int, hi: int, diff: int) -> Seq<char> {
    s.map_values(|c: char| convert_char(c, lo, hi, diff))
}

/// The three digit scripts this module moves between.
enum Script {
    En,
    Fa,
    Ar,
}

/// Code point of the zero digit of a script.
spec fn script_base(t: Script) -> int {
    match t {
        Script::En => 48,
        Script::Fa => 1776,
        Script::Ar => 1632,
    }
}

fn digit_to_char(t: &Script, d: u32) -> (c: char)
    requires
        d < 10,
    ensures
        c as int == script_base(*t) + d,
{
    match t {
        Script::En => match d {
            0 => '0',
            1 => '1',
            2 => '2',
            3 => '3',
            4 => '4',
            5 => '5',
            6 => '6',
            7 => '7',
            8 => '8',
            _ => '9',
        },
        Script::Fa => match d {
            0 => '۰',
            1 => '۱',
            2 => '۲',
            3 => '۳',
            4 => '۴',
            5 => '۵',
            6 => '۶',
            7 => '۷',
            8 => '۸',
            _ => '۹',
        },
        Script::Ar => match d {
            0 => '٠',
            1 => '١',
            2 => '٢',
            3 => '٣',
            4 => '٤',
            5 => '٥',
            6 => '٦',
            7 => '٧',
            8 => '٨',
            _ => '٩',
        },
    }
}

fn convert_chars(v: &Vec<char>, lo: u32, target: Script) -> (r: Vec<char>)
    requires
        lo + 9 < 0xD800,
    ensures
        r@ == convert_text(v@, lo as int, lo + 9, script_base(target) - lo),
{
    let ghost diff = script_base(target) - lo;
    let mut r: Vec<char> = Vec::new();
    let mut i: usize = 0;
    while i < v.len()
        invariant
            i <= v@.len(),
            lo + 9 < 0xD800,
            diff == script_base(target) - lo,
            r@ == convert_text(v@, lo as int, lo + 9, diff).subrange(0, i as int),
        decreases v@.len() - i,
    {
        let c = v[i];
        let code = c as u32;
        let out: char = if lo <= code && code <= lo + 9 {
            digit_to_char(&target, code - lo)
        } else {
            c
        };
        proof {
            if lo <= c as int <= lo + 9 {
                assert(out as int == c as int + diff);
                assert(0 <= c as int + diff < 0xD800);
                assert(shift_char(c, diff) as int == c as int + diff);
            }
            assert(out == convert_char(v@[i as int], lo as int, lo + 9, diff));
            assert(r@.push(out) =~= convert_text(v@, lo as int, lo + 9, diff).subrange(0, i + 1));
        }
        r.push(out);
        i = i + 1;
    }
    proof {
        assert(r@ =~= convert_text(v@, lo as int, lo + 9, diff));
    }
    r
}

/// Converts Persian digits to English digits over characters.
pub(crate) fn fa_to_en_chars(v: &Vec<char>) -> (r: Vec<char>)
    ensures
        r@ == convert_text(v@, 1776, 1785, -1728),
{
    convert_chars(v, 1776, Script::En)
}

/// Converts Arabic digits to English digits over characters.
pub(crate) fn ar_to_en_chars(v: &Vec<char>) -> (r: Vec<char>)
    ensures
        r@ == convert_text(v@, 1632, 1641, -1584),
{
    convert_chars(v, 1632, Script::En)
}

/// Converts Persian digits to English digits; other characters are kept.
pub fn fa_to_en(input: &str) -> (r: String)
    ensures
        r@ == convert_text(input@, 1776, 1785, -1728),
{
    let v = chars_of(input);
    let out = convert_chars(&v, 1776, Script::En);
    string_from_chars(&out)
}

/// Converts Persian digits to English digits in place.
pub fn fa_to_en_mut(input: &mut String)
    ensures
        final(input)@ == convert_text(old(input)@, 1776, 1785, -1728),
{
    let v = chars_of(input.as_str());
    let out = convert_chars(&v, 1776, Script::En);
    *input = string_from_chars(&out);
}

/// Converts English digits to Persian digits; other characters are kept.
pub fn en_to_fa(input: &str) -> (r: String)
    ensures
        r@ == convert_text(input@, 48, 57, 1728),
{
    let v = chars_of(input);
    let out = convert_chars(&v, 48, Script::Fa);
    string_from_chars(&out)
}

/// Converts English digits to Persian digits in place.
pub fn en_to_fa_mut(input: &mut String)
    ensures
        final(input)@ == convert_text(old(input)@, 48, 57, 1728),
{
    let v = chars_of(input.as_str());
    let out = convert_chars(&v, 48, Script::Fa);
    *input = string_from_chars(&out);
}

/// Converts English digits to Arabic digits; other characters are kept.
pub fn en_to_ar(input: &str) -> (r: String)
    ensures
        r@ == convert_text(input@, 48, 57, 1584),
{
    let v = chars_of(input);
    let out = convert_chars(&v, 48, Script::Ar);
    string_from_chars(&out)
}

/// Converts English digits to Arabic digits in place.
pub fn en_to_ar_mut(input: &mut String)
    ensures
        final(input)@ == convert_text(old(input)@, 48, 57, 1584),
{
    let v = chars_of(input.as_str());
    let out = convert_chars(&v, 48, Script::Ar);
    *input = string_from_chars(&out);
}

/// Converts Arabic digits to English digits; other characters are kept.
pub fn ar_to_en(input: &str) -> (r: String)
    ensures
        r@ == convert_text(input@, 1632, 1641, -1584),
{
    let v = chars_of(input);
    let out = convert_chars(&v, 1632, Script::En);
    string_from_chars(&out)
}

/// Converts Arabic digits to English digits in place.
pub fn ar_to_en_mut(input: &mut String)
    ensures
        final(input)@ == convert_text(old(input)@, 1632, 1641, -1584),
{
    let v = chars_of(input.as_str());
    let out = convert_chars(&v, 1632, Script::En);
    *input = string_from_chars(&out);
}

/// Converts Persian digits to Arabic digits; other characters are kept.
pub fn fa_to_ar(input: &str) -> (r: String)
    ensures
        r@ == convert_text(input@, 1776, 1785, -144),
{
    let v = chars_of(input);
    let out = convert_chars(&v, 1776, Script::Ar);
    string_from_chars(&out)
}

/// Converts Persian digits to Arabic digits in place.
pub fn fa_to_ar_mut(input: &mut String)
    ensures
        final(input)@ == convert_text(old(input)@, 1776, 1785, -144),
{
    let v = chars_of(input.as_str());
    let out = convert_chars(&v, 1776, Script::Ar);
    *input = string_from_chars(&out);
}

/// Converts Arabic digits to Persian digits; other characters are kept.
pub fn ar_to_fa(input: &str) -> (r: String)
    ensures
        r@ == convert_text(input@, 1632, 1641, 144),
{
    let v = chars_of(input);
    let out = convert_chars(&v, 1632, Script::Fa);
    string_from_chars(&out)
}

/// Converts Arabic digits to Persian digits in place.
pub fn ar_to_fa_mut(input: &mut String)
    ensures
        final(input)@ == convert_text(old(input)@, 1632, 1641, 144),
{
    let v = chars_of(input.as_str());
    let out = convert_chars(&v, 1632, Script::Fa);
    *input = string_from_chars(&out);
}

/// Conversion for Arabic to Persian digits.
pub trait DigitsAr2Fa {
    fn digits_ar_to_fa(&self) -> String;
}

/// Mutable conversion for Arabic to Persian digits.
pub trait DigitsAr2FaMut {
    fn digits_ar_to_fa_mut(&mut self);
}

/// Conversion for Arabic to English digits.
pub trait DigitsAr2En {
    fn digits_ar_to_en(&self) -> String;
}

/// Mutable conversion for Arabic to English digits.
pub trait DigitsAr2EnMut {
    fn digits_ar_to_en_mut(&mut self);
}

/// Conversion for Persian to Arabic digits.
pub trait DigitsFa2Ar {
    fn digits_fa_to_ar(&self) -> String;
}

/// Mutable conversion for Persian to Arabic digits.
pub trait DigitsFa2ArMut {
    fn digits_fa_to_ar_mut(&mut self);
}

/// Conversion for Persian to English digits.
pub trait DigitsFa2En {
    fn digits_fa_to_en(&self) -> String;
}

/// Mutable conversion for Persian to English digits.
pub trait DigitsFa2EnMut {
    fn digits_fa_to_en_mut(&mut self);
}

/// Conversion for English to Arabic digits.
pub trait DigitsEn2Ar {
    fn digits_en_to_ar(&self) -> String;
}

/// Mutable conversion for English to Arabic digits.
pub trait DigitsEn2ArMut {
    fn digits_en_to_ar_mut(&mut self);
}

/// Conversion for English to Persian digits.
pub trait DigitsEn2Fa {
    fn digits_en_to_fa(&self) -> String;
}

/// Mutable conversion for English to Persian digits.
pub trait DigitsEn2FaMut {
    fn digits_en_to_fa_mut(&mut self);
}

impl DigitsAr2Fa for str {
    fn digits_ar_to_fa(&self) -> String {
        ar_to_fa(self)
    }
}

impl DigitsAr2Fa for String {
    fn digits_ar_to_fa(&self) -> String {
        ar_to_fa(self.as_str())
    }
}

impl DigitsAr2FaMut for String {
    fn digits_ar_to_fa_mut(&mut self) {
        ar_to_fa_mut(self)
    }
}

impl DigitsAr2En for str {
    fn digits_ar_to_en(&self) -> String {
        ar_to_en(self)
    }
}

impl DigitsAr2En for String {
    fn digits_ar_to_en(&self) -> String {
        ar_to_en(self.as_str())
    }
}

impl DigitsAr2EnMut for String {
    fn digits_ar_to_en_mut(&mut self) {
        ar_to_en_mut(self)
    }
}

impl DigitsFa2Ar for str {
    fn digits_fa_to_ar(&self) -> String {
        fa_to_ar(self)
    }
}

impl DigitsFa2Ar for String {
    fn digits_fa_to_ar(&self) -> String {
        fa_to_ar(self.as_str())
    }
}

impl DigitsFa2ArMut for String {
    fn digits_fa_to_ar_mut(&mut self) {
        fa_to_ar_mut(self)
    }
}

impl DigitsFa2En for str {
    fn digits_fa_to_en(&self) -> String {
        fa_to_en(self)
    }
}

impl DigitsFa2En for String {
    fn digits_fa_to_en(&self) -> String {
        fa_to_en(self.as_str())
    }
}

impl DigitsFa2EnMut for String {
    fn digits_fa_to_en_mut(&mut self) {
        fa_to_en_mut(self)
    }
}

impl DigitsEn2Ar for str {
    fn digits_en_to_ar(&self) -> String {
        en_to_ar(self)
    }
}

impl DigitsEn2Ar for String {
    fn digits_en_to_ar(&self) -> String {
        en_to_ar(self.as_str())
    }
}

impl DigitsEn2ArMut for String {
    fn digits_en_to_ar_mut(&mut self) {
        en_to_ar_mut(self)
    }
}

impl DigitsEn2Fa for str {
    fn digits_en_to_fa(&self) -> String {
        en_to_fa(self)
    }
}

impl DigitsEn2Fa for String {
    fn digits_en_to_fa(&self) -> String {
        en_to_fa(self.as_str())
    }
}

impl DigitsEn2FaMut for String {
    fn digits_en_to_fa_mut(&mut self) {
        en_to_fa_mut(self)
    }
}

impl DigitsEn2Ar for u64 {
    fn digits_en_to_ar(&self) -> String {
        let v = crate::text::u64_to_chars(*self);
        let out = convert_chars(&v, 48, Script::Ar);
        string_from_chars(&out)
    }
}

impl DigitsEn2Ar for i64 {
    fn digits_en_to_ar(&self) -> String {
        let v = crate::text::i64_to_chars(*self);
        let out = convert_chars(&v, 48, Script::Ar);
        string_from_chars(&out)
    }
}

impl DigitsEn2Fa for u64 {
    fn digits_en_to_fa(&self) -> String {
        let v = crate::text::u64_to_chars(*self);
        let out = convert_chars(&v, 48, Script::Fa);
        string_from_chars(&out)
    }
}

impl DigitsEn2Fa for i64 {
    fn digits_en_to_fa(&self) -> String {
        let v = crate::text::i64_to_chars(*self);
        let out = convert_chars(&v, 48, Script::Fa);
        string_from_chars(&out)
    }
}

impl DigitsEn2Ar for u8 {
    fn digits_en_to_ar(&self) -> String {
        (*self as u64).digits_en_to_ar()
    }
}

impl DigitsEn2Fa for u8 {
    fn digits_en_to_fa(&self) -> String {
        (*self as u64).digits_en_to_fa()
    }
}

impl DigitsEn2Ar for i8 {
    fn digits_en_to_ar(&self) -> String {
        (*self as i64).digits_en_to_ar()
    }
}

impl DigitsEn2Fa for i8 {
    fn digits_en_to_fa(&self) -> String {
        (*self as i64).digits_en_to_fa()
    }
}

impl DigitsEn2Ar for u16 {
    fn digits_en_to_ar(&self) -> String {
        (*self as u64).digits_en_to_ar()
    }
}

impl DigitsEn2Fa for u16 {
    fn digits_en_to_fa(&self) -> String {
        (*self as u64).digits_en_to_fa()
    }
}

impl DigitsEn2Ar for i16 {
    fn digits_en_to_ar(&self) -> String {
        (*self as i64).digits_en_to_ar()
    }
}

impl DigitsEn2Fa for i16 {
    fn digits_en_to_fa(&self) -> String {
        (*self as i64).digits_en_to_fa()
    }
}

impl DigitsEn2Ar for u32 {
    fn digits_en_to_ar(&self) -> String {
        (*self as u64).digits_en_to_ar()
    }
}

impl DigitsEn2Fa for u32 {
    fn digits_en_to_fa(&self) -> String {
        (*self as u64).digits_en_to_fa()
    }
}

impl DigitsEn2Ar for i32 {
    fn digits_en_to_ar(&self) -> String {
        (*self as i64).digits_en_to_ar()
    }
}

impl DigitsEn2Fa for i32 {
    fn digits_en_to_fa(&self) -> String {
        (*self as i64).digits_en_to_fa()
    }
}

impl DigitsEn2Ar for usize {
    fn digits_en_to_ar(&self) -> String {
        (*self as u64).digits_en_to_ar()
    }
}

impl DigitsEn2Fa for usize {
    fn digits_en_to_fa(&self) -> String {
        (*self as u64).digits_en_to_fa()
    }
}

impl DigitsEn2Ar for isize {
    fn digits_en_to_ar(&self) -> String {
        (*self as i64).digits_en_to_ar()
    }
}

impl DigitsEn2Fa for isize {
    fn digits_en_to_fa(&self) -> String {
        (*self as i64).digits_en_to_fa()
    }
}

} // verus!

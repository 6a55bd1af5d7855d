//! Arabic character tests and normalisation.

use vstd::prelude::*;
use crate::text::chars_of;
use crate::text::string_from_chars;
use crate::persian_chars::chars_contain;

verus! {

/// The characters accepted as Arabic text.
pub open spec fn ar_text() -> Seq<char> {
    "ابتثجحخدذرزسشصضطظعغفقكلمنهويآةى؟ؠءأؤإ ؘ ؙ ؚ؛ ً ٌ ٍ َ ُ ِ ّ ْ ٓ ٔ ٕ ٖ ٗ ٘ ٙ ٚ ٛ ٝ ٞ ٟ٠١٢٣٤٥٦٧٨٩"@
}

fn ar_text_chars() -> (r: Vec<char>)
    ensures
        r@ == ar_text(),
{
    chars_of(
        "ابتثجحخدذرزسشصضطظعغفقكلمنهويآةى؟ؠءأؤإ ؘ ؙ ؚ؛ ً ٌ ٍ َ ُ ِ ّ ْ ٓ ٔ ٕ ٖ ٗ ٘ ٙ ٚ ٛ ٝ ٞ ٟ٠١٢٣٤٥٦٧٨٩",
    )
}

/// Whether the text contains an Arabic character; spaces do not count.
pub fn has_arabic(input: &str) -> (r: bool)
    ensures
        r == exists|i: int|
            0 <= i < input@.len() && input@[i] != ' ' && ar_text().contains(input@[i]),
{
    let set = ar_text_chars();
    let v = chars_of(input);
    let mut i: usize = 0;
    while i < v.len()
        invariant
            i <= v@.len(),
            v@ == input@,
            set@ == ar_text(),
            forall|j: int|
                0 <= j < i ==> !(v@[j] != ' ' && ar_text().contains(#[trigger] v@[j])),
        decreases v@.len() - i,
    {
        let c = v[i];
        if c != ' ' && chars_contain(&set, c) {
            return true;
        }
        i = i + 1;
    }
    false
}

/// Whether the text is non-empty Arabic text: every character is in the set.
pub fn is_arabic(input: &str) -> (r: bool)
    ensures
        r == (input@.len() > 0 && forall|i: int|
            0 <= i < input@.len() ==> ar_text().contains(#[trigger] input@[i])),
{
    let set = ar_text_chars();
    let v = chars_of(input);
    if v.len() == 0 {
        return false;
    }
    let mut i: usize = 0;
    while i < v.len()
        invariant
            i <= v@.len(),
            v@ == input@,
            set@ == ar_text(),
            forall|j: int| 0 <= j < i ==> ar_text().contains(#[trigger] v@[j]),
        decreases v@.len() - i,
    {
        if !chars_contain(&set, v[i]) {
            return false;
        }
        i = i + 1;
    }
    true
}

/// A character with its Persian letter forms replaced by the Arabic ones.
pub open spec fn to_arabic_char(c: char) -> char {
    if c == 'ک' {
        'ك'
    } else if c == 'ی' {
        'ي'
    } else {
        c
    }
}

/// The text with the two Persian letter forms replaced by the Arabic ones.
pub open spec fn to_arabic_text(s: Seq<char>) -> Seq<char> {
    s.map_values(|c: char| to_arabic_char(c))
}

fn to_arabic_chars_vec(v: &Vec<char>) -> (r: Vec<char>)
    ensures
        r@ == to_arabic_text(v@),
{
    let mut r: Vec<char> = Vec::new();
    let mut i: usize = 0;
    while i < v.len()
        invariant
            i <= v@.len(),
            r@ == to_arabic_text(v@).subrange(0, i as int),
        decreases v@.len() - i,
    {
        let c = v[i];
        let out: char = if c == 'ک' {
            'ك'
        } else if c == 'ی' {
            'ي'
        } else {
            c
        };
        proof {
            assert(r@.push(out) =~= to_arabic_text(v@).subrange(0, i + 1));
        }
        r.push(out);
        i = i + 1;
    }
    proof {
        assert(r@ =~= to_arabic_text(v@));
    }
    r
}

/// Replaces the Persian letter forms by their Arabic counterparts; all other
/// characters are kept.
pub fn to_arabic_chars(input: &str) -> (r: String)
    ensures
        r@ == to_arabic_text(input@),
{
    let v = chars_of(input);
    let out = to_arabic_chars_vec(&v);
    string_from_chars(&out)
}

/// Replaces the Persian letter forms in place.
pub fn to_arabic_chars_mut(input: &mut String)
    ensures
        final(input)@ == to_arabic_text(old(input)@),
{
    let v = chars_of(input.as_str());
    let out = to_arabic_chars_vec(&v);
    *input = string_from_chars(&out);
}

/// Arabic normalisation as a method.
pub trait ToArabicChars {
    fn to_arabic_chars(&self) -> String;
}

/// In-place Arabic normalisation as a method.
pub trait ToArabicCharsMut {
    fn to_arabic_chars_mut(&mut self);
}

/// The Arabic-character test as a method.
pub trait HasArabic {
    fn has_arabic(&self) -> bool;
}

/// The Arabic-text test as a method.
pub trait IsArabic {
    fn is_arabic(&self) -> bool;
}

impl ToArabicChars for str {
    fn to_arabic_chars(&self) -> String {
        to_arabic_chars(self)
    }
}

impl ToArabicChars for String {
    fn to_arabic_chars(&self) -> String {
        to_arabic_chars(self.as_str())
    }
}

impl ToArabicCharsMut for String {
    fn to_arabic_chars_mut(&mut self) {
        to_arabic_chars_mut(self)
    }
}

impl HasArabic for str {
    fn has_arabic(&self) -> bool {
        has_arabic(self)
    }
}

impl HasArabic for String {
    fn has_arabic(&self) -> bool {
        has_arabic(self.as_str())
    }
}

impl IsArabic for str {
    fn is_arabic(&self) -> bool {
        is_arabic(self)
    }
}

impl IsArabic for String {
    fn is_arabic(&self) -> bool {
        is_arabic(self.as_str())
    }
}

} // verus!

//! Persian character tests and normalisation.

use vstd::prelude::*;
use crate::text::chars_of;
use crate::text::string_from_chars;

verus! {

/// The characters accepted as Persian text.
pub open spec fn fa_text() -> Seq<char> {
    "ابپتثجچحخدذرزژسشصضطظعغفقکگلمنوهی۰۱۲۳۴۵۶۷۸۹َُِ‌آاً؟ "@
}

/// The characters accepted as Persian text in complex mode, which admits
/// marks and letters common in mixed Persian-Arabic writing.
pub open spec fn fa_complex_text() -> Seq<char> {
    "ابپتثجچحخدذرزژسشصضطظعغفقکگلمنوهی۰۱۲۳۴۵۶۷۸۹َُِ‌آأًًٌٍَُِّْٰءك‌ةۀأإيـئؤ،؟ "@
}

/// Whether `v` contains `c`.
pub(crate) fn chars_contain(v: &Vec<char>, c: char) -> (r: bool)
    ensures
        r == v@.contains(c),
{
    let mut i: usize = 0;
    while i < v.len()
        invariant
            i <= v@.len(),
            forall|j: int| 0 <= j < i ==> v@[j] != c,
        decreases v@.len() - i,
    {
        if v[i] == c {
            return true;
        }
        i = i + 1;
    }
    false
}

/// The character set for the chosen mode.
pub open spec fn fa_set(is_complex: bool) -> Seq<char> {
    if is_complex {
        fa_complex_text()
    } else {
        fa_text()
    }
}

fn fa_set_chars(is_complex: bool) -> (r: Vec<char>)
    ensures
        r@ == fa_set(is_complex),
{
    if is_complex {
        chars_of("ابپتثجچحخدذرزژسشصضطظعغفقکگلمنوهی۰۱۲۳۴۵۶۷۸۹َُِ‌آأًًٌٍَُِّْٰءك‌ةۀأإيـئؤ،؟ ")
    } else {
        chars_of("ابپتثجچحخدذرزژسشصضطظعغفقکگلمنوهی۰۱۲۳۴۵۶۷۸۹َُِ‌آاً؟ ")
    }
}

/// Whether the text contains a Persian character; spaces do not count.
pub fn has_persian(input: &str, is_complex: bool) -> (r: bool)
    ensures
        r == exists|i: int|
            0 <= i < input@.len() && input@[i] != ' ' && fa_set(is_complex).contains(input@[i]),
{
    let set = fa_set_chars(is_complex);
    let v = chars_of(input);
    let mut i: usize = 0;
    while i < v.len()
        invariant
            i <= v@.len(),
            v@ == input@,
            set@ == fa_set(is_complex),
            forall|j: int|
                0 <= j < i ==> !(v@[j] != ' ' && fa_set(is_complex).contains(#[trigger] v@[j])),
        decreases v@.len() - i,
    {
        let c = v[i];
        if c != ' ' && chars_contain(&set, c) {
            return true;
        }
        i = i + 1;
    }
    false
}

/// Whether the text is non-empty Persian text: every character is in the
/// set for the chosen mode.
pub fn is_persian(input: &str, is_complex: bool) -> (r: bool)
    ensures
        r == (input@.len() > 0 && forall|i: int|
            0 <= i < input@.len() ==> fa_set(is_complex).contains(#[trigger] input@[i])),
{
    let set = fa_set_chars(is_complex);
    let v = chars_of(input);
    if v.len() == 0 {
        return false;
    }
    let mut i: usize = 0;
    while i < v.len()
        invariant
            i <= v@.len(),
            v@ == input@,
            set@ == fa_set(is_complex),
            forall|j: int| 0 <= j < i ==> fa_set(is_complex).contains(#[trigger] v@[j]),
        decreases v@.len() - i,
    {
        if !chars_contain(&set, v[i]) {
            return false;
        }
        i = i + 1;
    }
    true
}

/// A character with its Arabic letter forms replaced by the Persian ones.
pub open spec fn to_persian_char(c: char) -> char {
    if c == 'ي' {
        'ی'
    } else if c == 'ك' {
        'ک'
    } else if c == 'ى' {
        'ی'
    } else {
        c
    }
}

/// The text with the two Arabic letter forms replaced by the Persian ones.
pub open spec fn to_persian_text(s: Seq<char>) -> Seq<char> {
    s.map_values(|c: char| to_persian_char(c))
}

pub(crate) fn to_persian_chars_vec(v: &Vec<char>) -> (r: Vec<char>)
    ensures
        r@ == to_persian_text(v@),
{
    let mut r: Vec<char> = Vec::new();
    let mut i: usize = 0;
    while i < v.len()
        invariant
            i <= v@.len(),
            r@ == to_persian_text(v@).subrange(0, i as int),
        decreases v@.len() - i,
    {
        let c = v[i];
        let out: char = if c == 'ي' {
            'ی'
        } else if c == 'ك' {
            'ک'
        } else if c == 'ى' {
            'ی'
        } else {
            c
        };
        proof {
            assert(r@.push(out) =~= to_persian_text(v@).subrange(0, i + 1));
        }
        r.push(out);
        i = i + 1;
    }
    proof {
        assert(r@ =~= to_persian_text(v@));
    }
    r
}

/// Replaces the Arabic letter forms by their Persian counterparts; all other
/// characters are kept.
pub fn to_persian_chars(input: &str) -> (r: String)
    ensures
        r@ == to_persian_text(input@),
{
    let v = chars_of(input);
    let out = to_persian_chars_vec(&v);
    string_from_chars(&out)
}

/// Replaces the Arabic letter forms in place.
pub fn to_persian_chars_mut(input: &mut String)
    ensures
        final(input)@ == to_persian_text(old(input)@),
{
    let v = chars_of(input.as_str());
    let out = to_persian_chars_vec(&v);
    *input = string_from_chars(&out);
}

/// Persian normalisation as a method.
pub trait ToPersianChars {
    fn to_persian_chars(&self) -> String;
}

/// In-place Persian normalisation as a method.
pub trait ToPersianCharsMut {
    fn to_persian_chars_mut(&mut self);
}

/// The Persian-character test as a method.
pub trait HasPersian {
    fn has_persian(&self, is_complex: bool) -> bool;
}

/// The Persian-text test as a method.
pub trait IsPersian {
    fn is_persian(&self, is_complex: bool) -> bool;
}

impl ToPersianChars for str {
    fn to_persian_chars(&self) -> String {
        to_persian_chars(self)
    }
}

impl ToPersianChars for String {
    fn to_persian_chars(&self) -> String {
        to_persian_chars(self.as_str())
    }
}

impl ToPersianCharsMut for String {
    fn to_persian_chars_mut(&mut self) {
        to_persian_chars_mut(self)
    }
}

impl HasPersian for str {
    fn has_persian(&self, is_complex: bool) -> bool {
        has_persian(self, is_complex)
    }
}

impl HasPersian for String {
    fn has_persian(&self, is_complex: bool) -> bool {
        has_persian(self.as_str(), is_complex)
    }
}

impl IsPersian for str {
    fn is_persian(&self, is_complex: bool) -> bool {
        is_persian(self, is_complex)
    }
}

impl IsPersian for String {
    fn is_persian(&self, is_complex: bool) -> bool {
        is_persian(self.as_str(), is_complex)
    }
}

} // verus!

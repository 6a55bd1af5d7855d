//! Taking a plate apart and checking its digits.

use vstd::prelude::*;
use crate::text::chars_of;
use crate::text::is_dec_digit;
use crate::text::parse_u64_spec;
use crate::text::parse_u64_range;
use crate::text::string_from_chars;
use crate::number_plate::types::NormalizedPlate;

verus! {

/// The letters a plate can carry.
pub open spec fn is_plate_letter(c: char) -> bool {
    ('a' <= c && c <= 'z') || ('A' <= c && c <= 'Z') || "ابپتثجچحخدذرزژسشصضطظعغفقکگلمنوهی"@.contains(
        c,
    )
}

/// The digits of `s`, in order.
pub open spec fn plate_digits(s: Seq<char>) -> Seq<char>
    decreases s.len(),
{
    if s.len() == 0 {
        Seq::empty()
    } else if is_dec_digit(s[0]) {
        seq![s[0]] + plate_digits(s.drop_first())
    } else {
        plate_digits(s.drop_first())
    }
}

/// The letters of `s`, in order.
pub open spec fn plate_letters(s: Seq<char>) -> Seq<char>
    decreases s.len(),
{
    if s.len() == 0 {
        Seq::empty()
    } else if is_plate_letter(s[0]) {
        seq![s[0]] + plate_letters(s.drop_first())
    } else {
        plate_letters(s.drop_first())
    }
}

/// Everything in `s` that is no digit, in order.
pub open spec fn plate_rest(s: Seq<char>) -> Seq<char>
    decreases s.len(),
{
    if s.len() == 0 {
        Seq::empty()
    } else if !is_dec_digit(s[0]) {
        seq![s[0]] + plate_rest(s.drop_first())
    } else {
        plate_rest(s.drop_first())
    }
}

/// The digit characters of `v`, in order.
pub(crate) fn plate_digits_of(v: &Vec<char>) -> (r: Vec<char>)
    ensures
        r@ == plate_digits(v@),
        forall|i: int| 0 <= i < r@.len() ==> is_dec_digit(#[trigger] r@[i]),
{
    let mut r: Vec<char> = Vec::new();
    let mut i: usize = 0;
    proof {
        assert(v@.skip(0) =~= v@);
    }
    while i < v.len()
        invariant
            i <= v@.len(),
            plate_digits(v@) == r@ + plate_digits(v@.skip(i as int)),
            forall|k: int| 0 <= k < r@.len() ==> is_dec_digit(#[trigger] r@[k]),
        decreases v@.len() - i,
    {
        let ghost pending = v@.skip(i as int);
        proof {
            assert(pending.drop_first() =~= v@.skip(i + 1));
        }
        let c = v[i];
        if '0' <= c && c <= '9' {
            proof {
                assert((r@ + seq![pending[0]]) + plate_digits(pending.drop_first()) =~= r@ + (seq![
                    pending[0],
                ] + plate_digits(pending.drop_first())));
            }
            r.push(c);
        }
        i = i + 1;
    }
    proof {
        assert(v@.skip(i as int).len() == 0);
        assert(r@ =~= plate_digits(v@));
    }
    r
}

/// Everything in `v` that is no digit, in order.
pub(crate) fn plate_rest_of(v: &Vec<char>) -> (r: Vec<char>)
    ensures
        r@ == plate_rest(v@),
{
    let mut r: Vec<char> = Vec::new();
    let mut i: usize = 0;
    proof {
        assert(v@.skip(0) =~= v@);
    }
    while i < v.len()
        invariant
            i <= v@.len(),
            plate_rest(v@) == r@ + plate_rest(v@.skip(i as int)),
        decreases v@.len() - i,
    {
        let ghost pending = v@.skip(i as int);
        proof {
            assert(pending.drop_first() =~= v@.skip(i + 1));
        }
        let c = v[i];
        if !('0' <= c && c <= '9') {
            proof {
                assert((r@ + seq![pending[0]]) + plate_rest(pending.drop_first()) =~= r@ + (seq![
                    pending[0],
                ] + plate_rest(pending.drop_first())));
            }
            r.push(c);
        }
        i = i + 1;
    }
    proof {
        assert(v@.skip(i as int).len() == 0);
        assert(r@ =~= plate_rest(v@));
    }
    r
}

fn plate_letters_of(v: &Vec<char>) -> (r: Vec<char>)
    ensures
        r@ == plate_letters(v@),
{
    let set = chars_of("ابپتثجچحخدذرزژسشصضطظعغفقکگلمنوهی");
    let mut r: Vec<char> = Vec::new();
    let mut i: usize = 0;
    proof {
        assert(v@.skip(0) =~= v@);
    }
    while i < v.len()
        invariant
            i <= v@.len(),
            set@ == "ابپتثجچحخدذرزژسشصضطظعغفقکگلمنوهی"@,
            plate_letters(v@) == r@ + plate_letters(v@.skip(i as int)),
        decreases v@.len() - i,
    {
        let ghost pending = v@.skip(i as int);
        proof {
            assert(pending.drop_first() =~= v@.skip(i + 1));
        }
        let c = v[i];
        let is_letter = (('a' <= c && c <= 'z') || ('A' <= c && c <= 'Z')
            || crate::persian_chars::chars_contain(&set, c));
        if is_letter {
            proof {
                assert((r@ + seq![pending[0]]) + plate_letters(pending.drop_first()) =~= r@ + (seq![
                    pending[0],
                ] + plate_letters(pending.drop_first())));
            }
            r.push(c);
        }
        i = i + 1;
    }
    proof {
        assert(v@.skip(i as int).len() == 0);
        assert(r@ =~= plate_letters(v@));
    }
    r
}

/// Takes a plate apart: the letters gathered into one word, the digits into
/// another; a plate without letters has none.
pub fn normalize_plate(plate: &str) -> (r: NormalizedPlate)
    ensures
        r.numbers@ == plate_digits(plate@),
        plate_letters(plate@).len() == 0 <==> r.char is None,
        r.char matches Some(w) ==> w@ == plate_letters(plate@),
{
    let v = chars_of(plate);
    let digits = plate_digits_of(&v);
    let letters = plate_letters_of(&v);
    let ch: Option<String> = if letters.len() == 0 {
        None
    } else {
        Some(string_from_chars(&letters))
    };
    NormalizedPlate { numbers: string_from_chars(&digits), char: ch }
}

/// Whether a plate's digit run is well formed: it parses as a number and no
/// digit but the last is a zero.
#[verifier::loop_isolation(false)]
pub fn is_plate_number_valid(numbers: &str) -> (r: bool)
    ensures
        r == (parse_u64_spec(numbers@) is Some && forall|i: int|
            0 <= i < numbers@.len() - 1 ==> numbers@[i] != '0'),
{
    let v = chars_of(numbers);
    match parse_u64_range(&v, 0, v.len()) {
        Some(_) => (),
        None => {
            proof {
                assert(v@.subrange(0, v@.len() as int) =~= v@);
            }
            return false;
        },
    }
    proof {
        assert(v@.subrange(0, v@.len() as int) =~= v@);
    }
    let n = v.len();
    let mut i: usize = 0;
    while i < n - 1
        invariant
            i <= v@.len(),
            n == v@.len(),
            n >= 1,
            forall|k: int| 0 <= k < i ==> v@[k] != '0',
        decreases v@.len() - i,
    {
        if v[i] == '0' {
            return false;
        }
        i = i + 1;
    }
    true
}

} // verus!

//! Rendering an integer as a Persian numeral phrase.
//!
//! The absolute value is split into groups of three decimal digits; each
//! non-zero group is rendered from the word table and followed by the scale
//! word for its power of one thousand; the pieces are joined with the
//! conjunction, and a negative number takes the sign prefix.

pub use crate::number_to_words_error::NumberToWordsError;

use vstd::prelude::*;
use crate::commas::remove_commas_chars;
use crate::commas::without_commas;
use crate::text::chars_of;
use crate::text::extend_with_chars;
use crate::text::extend_with_str;
use crate::text::parse_i64_chars;
use crate::text::parse_i64_spec;
use crate::text::string_from_chars;
use crate::text::ParseIntOutcome;

verus! {

/// The numbers with a word of their own: zero to twenty, the decades, and
/// the hundreds.
pub open spec fn has_defined_word(n: int) -> bool {
    (0 <= n && n <= 20) || (0 <= n && n <= 90 && n % 10 == 0) || (0 <= n && n <= 900 && n % 100
        == 0)
}

/// The word for a number that has one of its own.
pub open spec fn defined_word(n: int) -> Seq<char> {
    if n == 0 {
        "صفر"@
    } else if n == 1 {
        "یک"@
    } else if n == 2 {
        "دو"@
    } else if n == 3 {
        "سه"@
    } else if n == 4 {
        "چهار"@
    } else if n == 5 {
        "پنج"@
    } else if n == 6 {
        "شش"@
    } else if n == 7 {
        "هفت"@
    } else if n == 8 {
        "هشت"@
    } else if n == 9 {
        "نه"@
    } else if n == 10 {
        "ده"@
    } else if n == 11 {
        "یازده"@
    } else if n == 12 {
        "دوازده"@
    } else if n == 13 {
        "سیزده"@
    } else if n == 14 {
        "چهارده"@
    } else if n == 15 {
        "پانزده"@
    } else if n == 16 {
        "شانزده"@
    } else if n == 17 {
        "هفده"@
    } else if n == 18 {
        "هجده"@
    } else if n == 19 {
        "نوزده"@
    } else if n == 20 {
        "بیست"@
    } else if n == 30 {
        "سی"@
    } else if n == 40 {
        "چهل"@
    } else if n == 50 {
        "پنجاه"@
    } else if n == 60 {
        "شصت"@
    } else if n == 70 {
        "هفتاد"@
    } else if n == 80 {
        "هشتاد"@
    } else if n == 90 {
        "نود"@
    } else if n == 100 {
        "صد"@
    } else if n == 200 {
        "دویست"@
    } else if n == 300 {
        "سیصد"@
    } else if n == 400 {
        "چهار صد"@
    } else if n == 500 {
        "پانصد"@
    } else if n == 600 {
        "شش صد"@
    } else if n == 700 {
        "هفت صد"@
    } else if n == 800 {
        "هشت صد"@
    } else if n == 900 {
        "نه صد"@
    } else {
        Seq::empty()
    }
}

/// The word for a number that has one of its own.
fn get_defined_word(num: u64) -> (r: Option<&'static str>)
    ensures
        r is Some <==> has_defined_word(num as int),
        r matches Some(w) ==> w@ == defined_word(num as int),
{
    match num {
        0 => Some("صفر"),
        1 => Some("یک"),
        2 => Some("دو"),
        3 => Some("سه"),
        4 => Some("چهار"),
        5 => Some("پنج"),
        6 => Some("شش"),
        7 => Some("هفت"),
        8 => Some("هشت"),
        9 => Some("نه"),
        10 => Some("ده"),
        11 => Some("یازده"),
        12 => Some("دوازده"),
        13 => Some("سیزده"),
        14 => Some("چهارده"),
        15 => Some("پانزده"),
        16 => Some("شانزده"),
        17 => Some("هفده"),
        18 => Some("هجده"),
        19 => Some("نوزده"),
        20 => Some("بیست"),
        30 => Some("سی"),
        40 => Some("چهل"),
        50 => Some("پنجاه"),
        60 => Some("شصت"),
        70 => Some("هفتاد"),
        80 => Some("هشتاد"),
        90 => Some("نود"),
        100 => Some("صد"),
        200 => Some("دویست"),
        300 => Some("سیصد"),
        400 => Some("چهار صد"),
        500 => Some("پانصد"),
        600 => Some("شش صد"),
        700 => Some("هفت صد"),
        800 => Some("هشت صد"),
        900 => Some("نه صد"),
        _ => None,
    }
}

/// The conjunction that joins numeral words.
pub open spec fn conj() -> Seq<char> {
    " و "@
}

/// The phrase for a group value in 1..=999: the group's own word if it has
/// one, otherwise the words for its hundreds, tens and ones parts joined by
/// the conjunction, zero parts skipped.
pub open spec fn sub_three_words(n: int) -> Seq<char> {
    if has_defined_word(n) {
        defined_word(n)
    } else if n < 100 {
        defined_word(n - n % 10) + conj() + defined_word(n % 10)
    } else {
        let h = n - n % 100;
        let t = n % 100 - n % 10;
        let o = n % 10;
        if t == 0 {
            defined_word(h) + conj() + defined_word(o)
        } else if o == 0 {
            defined_word(h) + conj() + defined_word(t)
        } else {
            defined_word(h) + conj() + defined_word(t) + conj() + defined_word(o)
        }
    }
}

/// The phrase for a group value in 0..=999; zero is the empty phrase.
pub open spec fn three_digit_words(n: int) -> Seq<char> {
    if n == 0 {
        Seq::empty()
    } else {
        sub_three_words(n)
    }
}

/// The phrase for a three-digit group, as characters.
fn three_digit_chars(num: u64) -> (r: Vec<char>)
    requires
        num <= 999,
    ensures
        r@ == three_digit_words(num as int),
{
    let mut r: Vec<char> = Vec::new();
    if num == 0 {
        return r;
    }
    if let Some(w) = get_defined_word(num) {
        extend_with_str(&mut r, w);
        proof {
            assert(Seq::<char>::empty() + defined_word(num as int) =~= defined_word(num as int));
        }
        return r;
    }
    if num < 100 {
        let tens = num - num % 10;
        let ones = num % 10;
        let tw = match get_defined_word(tens) {
            Some(w) => w,
            None => {
                return r;
            },
        };
        let ow = match get_defined_word(ones) {
            Some(w) => w,
            None => {
                return r;
            },
        };
        extend_with_str(&mut r, tw);
        extend_with_str(&mut r, " و ");
        extend_with_str(&mut r, ow);
        proof {
            assert(r@ =~= sub_three_words(num as int));
        }
        r
    } else {
        let h = num - num % 100;
        let t = num % 100 - num % 10;
        let o = num % 10;
        let hw = match get_defined_word(h) {
            Some(w) => w,
            None => {
                return r;
            },
        };
        extend_with_str(&mut r, hw);
        if t == 0 {
            let ow = match get_defined_word(o) {
                Some(w) => w,
                None => {
                    return r;
                },
            };
            extend_with_str(&mut r, " و ");
            extend_with_str(&mut r, ow);
        } else if o == 0 {
            let tw = match get_defined_word(t) {
                Some(w) => w,
                None => {
                    return r;
                },
            };
            extend_with_str(&mut r, " و ");
            extend_with_str(&mut r, tw);
        } else {
            let tw = match get_defined_word(t) {
                Some(w) => w,
                None => {
                    return r;
                },
            };
            let ow = match get_defined_word(o) {
                Some(w) => w,
                None => {
                    return r;
                },
            };
            extend_with_str(&mut r, " و ");
            extend_with_str(&mut r, tw);
            extend_with_str(&mut r, " و ");
            extend_with_str(&mut r, ow);
        }
        proof {
            assert(r@ =~= sub_three_words(num as int));
        }
        r
    }
}

/// The phrase for a single group of up to three digits. Values over 999 are
/// out of the group range and are reported as the internal error; the public
/// renderer never passes one.
pub fn three_digit_number_to_words(num: u64) -> (r: Result<String, NumberToWordsError>)
    ensures
        num <= 999 ==> (r matches Ok(s) && s@ == three_digit_words(num as int)),
        num > 999 ==> (r matches Err(e) && e == NumberToWordsError::Internal),
{
    if num > 999 {
        return Err(NumberToWordsError::Internal);
    }
    let v = three_digit_chars(num);
    Ok(string_from_chars(&v))
}

/// Powers of ten.
pub open spec fn pow10(k: nat) -> int
    decreases k,
{
    if k == 0 {
        1
    } else {
        10 * pow10((k - 1) as nat)
    }
}

/// Powers of one thousand.
pub open spec fn pow1000(k: nat) -> int
    decreases k,
{
    if k == 0 {
        1
    } else {
        1000 * pow1000((k - 1) as nat)
    }
}

/// Powers of ten are positive.
pub proof fn lemma_pow10_pos(k: nat)
    ensures
        pow10(k) >= 1,
    decreases k,
{
    if k > 0 {
        lemma_pow10_pos((k - 1) as nat);
    }
}

/// Powers of one thousand are positive.
pub proof fn lemma_pow1000_pos(k: nat)
    ensures
        pow1000(k) >= 1,
    decreases k,
{
    if k > 0 {
        lemma_pow1000_pos((k - 1) as nat);
    }
}

/// How many decimal digits a number has; zero has none.
pub open spec fn num_digits(n: int) -> nat
    decreases n,
{
    if n <= 0 {
        0
    } else {
        1 + num_digits(n / 10)
    }
}

/// Multiplies a digit by a power of ten.
pub fn number_with_zeros(number: u64, zeros: u32) -> (r: u64)
    requires
        number * pow10(zeros as nat) <= u64::MAX,
    ensures
        r == number * pow10(zeros as nat),
{
    let mut r: u64 = number;
    let mut i: u32 = 0;
    while i < zeros
        invariant
            i <= zeros,
            r == number * pow10(i as nat),
            number * pow10(zeros as nat) <= u64::MAX,
        decreases zeros - i,
    {
        proof {
            lemma_pow10_mono_mul(number as int, i as nat, zeros as nat);
            assert(number * pow10((i + 1) as nat) == (number * pow10(i as nat)) * 10) by {
                assert(pow10((i + 1) as nat) == 10 * pow10(i as nat));
                vstd::arithmetic::mul::lemma_mul_is_associative(
                    number as int,
                    pow10(i as nat),
                    10,
                );
            }
        }
        r = r * 10;
        i = i + 1;
    }
    r
}

/// A digit scaled by fewer zeros never exceeds the same digit scaled by more.
proof fn lemma_pow10_mono_mul(d: int, a: nat, b: nat)
    requires
        0 <= d,
        a < b,
    ensures
        d * pow10((a + 1) as nat) <= d * pow10(b),
    decreases b,
{
    lemma_pow10_pos(a);
    lemma_pow10_pos(b);
    if a + 1 < b {
        lemma_pow10_mono_mul(d, a, (b - 1) as nat);
        assert(pow10(b) == 10 * pow10((b - 1) as nat));
        assert(d * pow10(b) >= d * pow10((b - 1) as nat)) by (nonlinear_arith)
            requires
                d >= 0,
                pow10(b) == 10 * pow10((b - 1) as nat),
                pow10((b - 1) as nat) >= 1,
        ;
    }
}

/// The decimal digits of `n`, each scaled by its positional weight, least
/// significant first.
pub fn digits_with_zeros(num: u64) -> (r: Vec<u64>)
    ensures
        r@.len() == num_digits(num as int),
        forall|i: int|
            0 <= i < r@.len() ==> r@[i] == ((num as int) / pow10(i as nat)) % 10 * pow10(i as nat),
{
    let mut r: Vec<u64> = Vec::new();
    let mut m: u64 = num;
    let mut scale: u64 = 1;
    let ghost mut k: nat = 0nat;
    while m != 0
        invariant
            m != 0 ==> scale == pow10(k),
            m == (num as int) / pow10(k),
            scale <= num as int + 1,
            r@.len() == k,
            forall|i: int|
                0 <= i < k ==> r@[i] == ((num as int) / pow10(i as nat)) % 10 * pow10(i as nat),
            num_digits(num as int) == k + num_digits(m as int),
        decreases m,
    {
        let d = m % 10;
        proof {
            lemma_pow10_pos(k);
            assert(d * scale <= num) by (nonlinear_arith)
                requires
                    d == m % 10,
                    m >= 1,
                    scale >= 1,
                    m == (num as int) / pow10(k),
                    scale == pow10(k),
                    num >= 0,
            ;
        }
        r.push(d * scale);
        let next = m / 10;
        proof {
            assert((num as int) / pow10((k + 1) as nat) == m / 10) by {
                assert(pow10((k + 1) as nat) == pow10(k) * 10) by {
                    assert(pow10((k + 1) as nat) == 10 * pow10(k));
                }
                vstd::arithmetic::div_mod::lemma_div_denominator(
                    num as int,
                    pow10(k),
                    10,
                );
            }
            if next != 0 {
                lemma_pow10_pos((k + 1) as nat);
                assert(pow10((k + 1) as nat) == 10 * pow10(k));
                assert(pow10((k + 1) as nat) <= num as int) by (nonlinear_arith)
                    requires
                        (num as int) / pow10((k + 1) as nat) >= 1,
                        pow10((k + 1) as nat) >= 1,
                        num >= 0,
                {
                    vstd::arithmetic::div_mod::lemma_fundamental_div_mod(
                        num as int,
                        pow10((k + 1) as nat),
                    );
                    vstd::arithmetic::div_mod::lemma_mod_bound(num as int, pow10((k + 1) as nat));
                }
            }
        }
        if next != 0 {
            scale = scale * 10;
        }
        m = next;
        proof {
            k = k + 1;
            if m == 0 {
                // scale keeps its old value; it is no longer read for indexing
                assert(r@.len() == k);
                assert(forall|i: int|
                    0 <= i < k ==> r@[i] == ((num as int) / pow10(i as nat)) % 10 * pow10(
                        i as nat,
                    ));
            }
        }
    }
    r
}

/// The scale word for the group at position `l`: one thousand to the `l`th
/// power. Position zero has no scale word.
pub open spec fn magnitude_word(l: int) -> Seq<char> {
    if l == 1 {
        "هزار"@
    } else if l == 2 {
        "میلیون"@
    } else if l == 3 {
        "میلیارد"@
    } else if l == 4 {
        "تریلیون"@
    } else if l == 5 {
        "کوآدریلیون"@
    } else if l == 6 {
        "کوینتیلیون"@
    } else {
        Seq::empty()
    }
}

fn magnitude_word_exec(l: usize) -> (r: &'static str)
    requires
        1 <= l <= 6,
    ensures
        r@ == magnitude_word(l as int),
{
    if l == 1 {
        "هزار"
    } else if l == 2 {
        "میلیون"
    } else if l == 3 {
        "میلیارد"
    } else if l == 4 {
        "تریلیون"
    } else if l == 5 {
        "کوآدریلیون"
    } else {
        "کوینتیلیون"
    }
}

/// The phrase for one group: its three-digit rendering, then the scale word
/// for its position.
pub open spec fn chunk_words(c: int, l: int) -> Seq<char> {
    if l == 0 {
        three_digit_words(c)
    } else {
        three_digit_words(c) + " "@ + magnitude_word(l)
    }
}

/// The phrase for a positive number whose lowest group sits at position `l`:
/// the non-zero groups from the most significant down, each with its scale
/// word, joined by the conjunction.
pub open spec fn group_words(n: int, l: int) -> Seq<char>
    decreases n,
{
    if n <= 0 {
        Seq::empty()
    } else {
        let c = n % 1000;
        let rest = n / 1000;
        if rest == 0 {
            chunk_words(c, l)
        } else if c == 0 {
            group_words(rest, l + 1)
        } else {
            group_words(rest, l + 1) + conj() + chunk_words(c, l)
        }
    }
}

fn group_words_exec(n: u64, l: usize) -> (r: Vec<char>)
    requires
        n >= 1,
        l <= 6,
        n < pow1000((7 - l) as nat),
    ensures
        r@ == group_words(n as int, l as int),
    decreases n,
{
    let c = n % 1000;
    let rest = n / 1000;
    if rest == 0 {
        let mut r = three_digit_chars(c);
        if l > 0 {
            extend_with_str(&mut r, " ");
            extend_with_str(&mut r, magnitude_word_exec(l));
        }
        return r;
    }
    proof {
        // the higher groups fit one position up
        assert(pow1000((7 - l) as nat) == 1000 * pow1000((6 - l) as nat));
        assert(rest < pow1000((6 - l) as nat)) by (nonlinear_arith)
            requires
                rest == n / 1000,
                n < 1000 * pow1000((6 - l) as nat),
                n >= 0,
        ;
        assert(l + 1 <= 6) by {
            if l == 6 {
                assert(pow1000(1nat) == 1000);
                assert(rest >= 1);
            }
        }
    }
    if c == 0 {
        group_words_exec(rest, l + 1)
    } else {
        let mut r = group_words_exec(rest, l + 1);
        extend_with_str(&mut r, " و ");
        let chunk = three_digit_chars(c);
        extend_with_chars(&mut r, &chunk);
        if l > 0 {
            extend_with_str(&mut r, " ");
            extend_with_str(&mut r, magnitude_word_exec(l));
        }
        proof {
            assert(r@ =~= group_words(n as int, l as int));
        }
        r
    }
}

/// The Persian phrase for `n`: the zero word for zero, else the sign prefix
/// for a negative number followed by the phrase for the absolute value.
pub open spec fn number_words(n: int) -> Seq<char> {
    if n == 0 {
        "صفر"@
    } else if n < 0 {
        "منفی "@ + group_words(-n, 0)
    } else {
        group_words(n, 0)
    }
}

/// Renders an integer as a Persian numeral phrase. Every signed 64-bit value
/// has a phrase, so the result is always the rendered phrase.
pub fn number_to_words(input: i64) -> (r: Result<String, NumberToWordsError>)
    ensures
        r matches Ok(s) && s@ == number_words(input as int),
{
    let mut out: Vec<char> = Vec::new();
    if input == 0 {
        extend_with_str(&mut out, "صفر");
        proof {
            assert(Seq::<char>::empty() + "صفر"@ =~= "صفر"@);
        }
        return Ok(string_from_chars(&out));
    }
    let mag: u64 = if input < 0 {
        if input == i64::MIN {
            9223372036854775808u64
        } else {
            (-input) as u64
        }
    } else {
        input as u64
    };
    if input < 0 {
        extend_with_str(&mut out, "منفی ");
    }
    proof {
        assert(pow1000(0nat) == 1);
        assert(pow1000(1nat) == 1000);
        assert(pow1000(2nat) == 1000000);
        assert(pow1000(3nat) == 1000000000);
        assert(pow1000(4nat) == 1000000000000);
        assert(pow1000(5nat) == 1000000000000000);
        assert(pow1000(6nat) == 1000000000000000000);
        assert(pow1000(7nat) == 1000000000000000000000);
    }
    let g = group_words_exec(mag, 0);
    extend_with_chars(&mut out, &g);
    proof {
        assert(out@ =~= number_words(input as int));
    }
    Ok(string_from_chars(&out))
}

/// Renders a numeral given as text: thousands separators are stripped, the
/// text is parsed as a signed 64-bit integer, and the value is rendered.
/// An empty text, a malformed digit, and a value out of range are the three
/// errors, each naming the offending input where it has one.
pub fn number_to_words_str(num: &str) -> (r: Result<String, NumberToWordsError>)
    ensures
        ({
            let cleaned = without_commas(num@);
            match parse_i64_spec(cleaned) {
                ParseIntOutcome::Value(v) => r matches Ok(s) && s@ == number_words(v as int),
                ParseIntOutcome::Empty => r == Err::<String, NumberToWordsError>(
                    NumberToWordsError::EmptyString,
                ),
                ParseIntOutcome::InvalidDigit => r matches Err(e) && e matches
                    NumberToWordsError::InvalidInteger(t) && t@ == num@,
                ParseIntOutcome::PosOverflow | ParseIntOutcome::NegOverflow => r matches Err(e)
                    && e matches NumberToWordsError::Overflow(t) && t@ == num@,
            }
        }),
{
    let v = chars_of(num);
    let cleaned = remove_commas_chars(&v);
    match parse_i64_chars(&cleaned) {
        ParseIntOutcome::Value(value) => number_to_words(value),
        ParseIntOutcome::Empty => Err(NumberToWordsError::EmptyString),
        ParseIntOutcome::InvalidDigit => Err(
            NumberToWordsError::InvalidInteger(<String as vstd::string::StringExecFns>::from_str(num)),
        ),
        ParseIntOutcome::PosOverflow | ParseIntOutcome::NegOverflow => Err(
            NumberToWordsError::Overflow(<String as vstd::string::StringExecFns>::from_str(num)),
        ),
    }
}

} // verus!

//! Character-level helpers shared by the whole crate: moving between `str`
//! and `Vec<char>`, decimal formatting, and decimal parsing with the same
//! error classification as the platform integer parser.

use vstd::prelude::*;
use vstd::string::StrSliceExecFns;
use vstd::string::StringExecFns;

verus! {

/// The characters of `s`, in order.
pub fn chars_of(s: &str) -> (r: Vec<char>)
    ensures
        r@ == s@,
{
    let n = s.unicode_len();
    let mut r: Vec<char> = Vec::new();
    let mut i: usize = 0;
    while i < n
        invariant
            n == s@.len(),
            i <= n,
            r@ == s@.subrange(0, i as int),
        decreases n - i,
    {
        r.push(s.get_char(i));
        i = i + 1;
        assert(r@ =~= s@.subrange(0, i as int));
    }
    assert(r@ =~= s@);
    r
}

/// Relies on `String`'s `FromIterator<char>` impl: collecting characters
/// yields a string whose characters are exactly the collected ones, in order.
#[verifier::external_body]
pub fn string_from_chars(v: &Vec<char>) -> (r: String)
    ensures
        r@ == v@,
{
    v.iter().collect()
}

/// Equality of a character vector with a string slice.
pub fn eq_str(v: &Vec<char>, s: &str) -> (r: bool)
    ensures
        r == (v@ == s@),
{
    let n = s.unicode_len();
    if v.len() != n {
        assert(v@ != s@);
        return false;
    }
    let mut i: usize = 0;
    while i < n
        invariant
            n == s@.len(),
            v@.len() == n,
            i <= n,
            forall|j: int| 0 <= j < i ==> v@[j] == s@[j],
        decreases n - i,
    {
        if v[i] != s.get_char(i) {
            return false;
        }
        i = i + 1;
    }
    assert(v@ =~= s@);
    true
}

/// The decimal digit characters.
pub open spec fn is_dec_digit(c: char) -> bool {
    '0' <= c && c <= '9'
}

/// Numeric value of a decimal digit character.
pub open spec fn digit_val(c: char) -> int {
    c as int - '0' as int
}

/// The digit character for a value in 0..=9.
pub open spec fn digit_char(d: int) -> char {
    if d == 0 {
        '0'
    } else if d == 1 {
        '1'
    } else if d == 2 {
        '2'
    } else if d == 3 {
        '3'
    } else if d == 4 {
        '4'
    } else if d == 5 {
        '5'
    } else if d == 6 {
        '6'
    } else if d == 7 {
        '7'
    } else if d == 8 {
        '8'
    } else {
        '9'
    }
}

/// Decimal representation of a natural number, most significant digit first.
pub open spec fn dec_digits(n: nat) -> Seq<char>
    decreases n,
{
    if n < 10 {
        seq![digit_char(n as int)]
    } else {
        dec_digits(n / 10) + seq![digit_char((n % 10) as int)]
    }
}

/// Decimal representation of a signed number: a minus sign, then the digits
/// of the magnitude.
pub open spec fn dec_int(n: int) -> Seq<char> {
    if n < 0 {
        seq!['-'] + dec_digits((-n) as nat)
    } else {
        dec_digits(n as nat)
    }
}

fn digit_char_exec(d: u64) -> (c: char)
    requires
        d < 10,
    ensures
        c == digit_char(d as int),
{
    if d == 0 {
        '0'
    } else if d == 1 {
        '1'
    } else if d == 2 {
        '2'
    } else if d == 3 {
        '3'
    } else if d == 4 {
        '4'
    } else if d == 5 {
        '5'
    } else if d == 6 {
        '6'
    } else if d == 7 {
        '7'
    } else if d == 8 {
        '8'
    } else {
        '9'
    }
}

/// The digit character of a single-digit value.
pub fn digit_char_of(d: u8) -> (c: char)
    requires
        d < 10,
    ensures
        c == digit_char(d as int),
{
    digit_char_exec(d as u64)
}

/// The decimal digits of `n`, most significant first.
pub fn u64_to_chars(n: u64) -> (r: Vec<char>)
    ensures
        r@ == dec_digits(n as nat),
{
    let mut rev: Vec<char> = Vec::new();
    let mut m: u64 = n;
    while m >= 10
        invariant
            dec_digits(n as nat) == dec_digits(m as nat) + rev@.reverse(),
        decreases m,
    {
        let d = m % 10;
        proof {
            assert(dec_digits(m as nat) == dec_digits((m / 10) as nat) + seq![
                digit_char((m % 10) as int),
            ]);
            assert((dec_digits((m / 10) as nat) + seq![digit_char((m % 10) as int)])
                + rev@.reverse() =~= dec_digits((m / 10) as nat) + (rev@.push(
                digit_char((m % 10) as int),
            )).reverse());
        }
        rev.push(digit_char_exec(d));
        m = m / 10;
    }
    proof {
        assert((seq![digit_char(m as int)] + rev@.reverse()) =~= (rev@.push(
            digit_char(m as int),
        )).reverse());
    }
    rev.push(digit_char_exec(m));
    let mut r: Vec<char> = Vec::new();
    let mut i: usize = rev.len();
    while i > 0
        invariant
            i <= rev@.len(),
            r@ == rev@.reverse().subrange(0, rev@.len() - i),
        decreases i,
    {
        i = i - 1;
        let c = rev[i];
        proof {
            assert(rev@.reverse()[rev@.len() - i - 1] == rev@[i as int]);
            assert(r@.push(rev@[i as int]) =~= rev@.reverse().subrange(0, rev@.len() - i));
        }
        r.push(c);
    }
    proof {
        assert(r@ =~= rev@.reverse());
    }
    r
}

/// The decimal digits of a signed number, sign included.
pub fn i64_to_chars(n: i64) -> (r: Vec<char>)
    ensures
        r@ == dec_int(n as int),
{
    if n < 0 {
        let mag: u64 = if n == i64::MIN {
            9223372036854775808u64
        } else {
            (-n) as u64
        };
        let digits = u64_to_chars(mag);
        let mut r: Vec<char> = Vec::new();
        r.push('-');
        let mut i: usize = 0;
        while i < digits.len()
            invariant
                i <= digits@.len(),
                r@ == seq!['-'] + digits@.subrange(0, i as int),
            decreases digits@.len() - i,
        {
            proof {
                assert(r@.push(digits@[i as int]) =~= seq!['-'] + digits@.subrange(0, i + 1));
            }
            r.push(digits[i]);
            i = i + 1;
        }
        proof {
            assert(digits@.subrange(0, digits@.len() as int) =~= digits@);
        }
        r
    } else {
        u64_to_chars(n as u64)
    }
}

/// `n` written in decimal.
pub fn u64_to_string(n: u64) -> (r: String)
    ensures
        r@ == dec_digits(n as nat),
{
    let v = u64_to_chars(n);
    string_from_chars(&v)
}

/// `n` written in decimal, sign included.
pub fn i64_to_string(n: i64) -> (r: String)
    ensures
        r@ == dec_int(n as int),
{
    let v = i64_to_chars(n);
    string_from_chars(&v)
}

/// Outcome of parsing a decimal integer, classified as the platform parser
/// does: an empty input, a malformed digit, or a value out of range.
#[derive(PartialEq, Eq, Structural, Clone, Copy, Debug)]
pub enum ParseIntOutcome {
    Value(i64),
    Empty,
    InvalidDigit,
    PosOverflow,
    NegOverflow,
}

/// Left-to-right scan of the digits of a signed decimal number, reporting the
/// first malformed digit or the first intermediate value out of the signed
/// 64-bit range, as the platform parser does.
pub open spec fn parse_i64_scan(s: Seq<char>, acc: int, negative: bool) -> ParseIntOutcome
    decreases s.len(),
{
    if s.len() == 0 {
        ParseIntOutcome::Value(acc as i64)
    } else if !is_dec_digit(s[0]) {
        ParseIntOutcome::InvalidDigit
    } else {
        let acc2 = if negative {
            acc * 10 - digit_val(s[0])
        } else {
            acc * 10 + digit_val(s[0])
        };
        if acc2 > i64::MAX {
            ParseIntOutcome::PosOverflow
        } else if acc2 < i64::MIN {
            ParseIntOutcome::NegOverflow
        } else {
            parse_i64_scan(s.drop_first(), acc2, negative)
        }
    }
}

/// What parsing `s` as a signed 64-bit decimal integer yields: an optional
/// sign, then at least one decimal digit, nothing else.
pub open spec fn parse_i64_spec(s: Seq<char>) -> ParseIntOutcome {
    if s.len() == 0 {
        ParseIntOutcome::Empty
    } else {
        let negative = s[0] == '-';
        let rest = if s[0] == '-' || s[0] == '+' {
            s.drop_first()
        } else {
            s
        };
        if rest.len() == 0 {
            ParseIntOutcome::InvalidDigit
        } else {
            parse_i64_scan(rest, 0, negative)
        }
    }
}

fn digit_of(c: char) -> (r: Option<u64>)
    ensures
        r is Some <==> is_dec_digit(c),
        r is Some ==> r->0 == digit_val(c) && r->0 < 10,
{
    if '0' <= c && c <= '9' {
        Some((c as u32 as u64) - ('0' as u32 as u64))
    } else {
        None
    }
}

/// Parses a signed decimal integer from characters, with the platform
/// parser's grammar and error classification.
pub fn parse_i64_chars(v: &Vec<char>) -> (r: ParseIntOutcome)
    ensures
        r == parse_i64_spec(v@),
{
    if v.len() == 0 {
        return ParseIntOutcome::Empty;
    }
    let negative = v[0] == '-';
    let start: usize = if v[0] == '-' || v[0] == '+' {
        1
    } else {
        0
    };
    if v.len() == start {
        return ParseIntOutcome::InvalidDigit;
    }
    let ghost rest = if v@[0] == '-' || v@[0] == '+' {
        v@.drop_first()
    } else {
        v@
    };
    proof {
        assert(rest =~= v@.subrange(start as int, v@.len() as int));
    }
    let mut acc: i64 = 0;
    let mut i: usize = start;
    while i < v.len()
        invariant
            start <= i <= v@.len(),
            start <= 1,
            v@.len() > start,
            negative == (v@[0] == '-'),
            start == 1 <==> (v@[0] == '-' || v@[0] == '+'),
            rest == v@.subrange(start as int, v@.len() as int),
            parse_i64_spec(v@) == parse_i64_scan(
                v@.subrange(i as int, v@.len() as int),
                acc as int,
                negative,
            ),
            negative ==> acc <= 0,
            !negative ==> acc >= 0,
        decreases v@.len() - i,
    {
        let ghost pending = v@.subrange(i as int, v@.len() as int);
        proof {
            assert(pending[0] == v@[i as int]);
            assert(pending.drop_first() =~= v@.subrange(i + 1, v@.len() as int));
        }
        let d = match digit_of(v[i]) {
            Some(d) => d,
            None => {
                proof {
                    assert(parse_i64_scan(pending, acc as int, negative)
                        == ParseIntOutcome::InvalidDigit);
                }
                return ParseIntOutcome::InvalidDigit;
            },
        };
        let ghost acc2 = if negative {
            acc * 10 - digit_val(pending[0])
        } else {
            acc * 10 + digit_val(pending[0])
        };
        if negative {
            match acc.checked_mul(10) {
                Some(a10) => {
                    match a10.checked_sub(d as i64) {
                        Some(a2) => {
                            acc = a2;
                        },
                        None => {
                            proof {
                                assert(acc2 < i64::MIN);
                                assert(parse_i64_scan(pending, acc as int, negative)
                                    == ParseIntOutcome::NegOverflow);
                            }
                            return ParseIntOutcome::NegOverflow;
                        },
                    }
                },
                None => {
                    proof {
                        assert(acc * 10 < i64::MIN);
                        assert(acc2 < i64::MIN);
                        assert(parse_i64_scan(pending, acc as int, negative)
                            == ParseIntOutcome::NegOverflow);
                    }
                    return ParseIntOutcome::NegOverflow;
                },
            }
        } else {
            match acc.checked_mul(10) {
                Some(a10) => {
                    match a10.checked_add(d as i64) {
                        Some(a2) => {
                            acc = a2;
                        },
                        None => {
                            proof {
                                assert(acc2 > i64::MAX);
                                assert(parse_i64_scan(pending, acc as int, negative)
                                    == ParseIntOutcome::PosOverflow);
                            }
                            return ParseIntOutcome::PosOverflow;
                        },
                    }
                },
                None => {
                    proof {
                        assert(acc * 10 > i64::MAX);
                        assert(acc2 > i64::MAX);
                        assert(parse_i64_scan(pending, acc as int, negative)
                            == ParseIntOutcome::PosOverflow);
                    }
                    return ParseIntOutcome::PosOverflow;
                },
            }
        }
        i = i + 1;
    }
    proof {
        assert(v@.subrange(i as int, v@.len() as int).len() == 0);
    }
    ParseIntOutcome::Value(acc)
}

/// What parsing `s` as an unsigned 64-bit decimal integer yields: at least
/// one decimal digit and nothing else, its value within range.
pub open spec fn parse_u64_spec(s: Seq<char>) -> Option<u64> {
    if s.len() > 0 && (forall|i: int| 0 <= i < s.len() ==> is_dec_digit(s[i])) && dec_val(s)
        <= u64::MAX {
        Some(dec_val(s) as u64)
    } else {
        None
    }
}

/// Numeric value of a sequence of decimal digit characters.
pub open spec fn dec_val(s: Seq<char>) -> int
    decreases s.len(),
{
    if s.len() == 0 {
        0
    } else {
        dec_val(s.drop_last()) * 10 + digit_val(s.last())
    }
}

/// Parses an unsigned decimal integer from a range of a character vector.
/// The platform parser accepts a leading `+`, which no caller in this crate
/// relies on; this one takes digits only.
pub fn parse_u64_range(v: &Vec<char>, from: usize, to: usize) -> (r: Option<u64>)
    requires
        from <= to <= v@.len(),
    ensures
        r == parse_u64_spec(v@.subrange(from as int, to as int)),
{
    let ghost s = v@.subrange(from as int, to as int);
    if from == to {
        return None;
    }
    let mut acc: u64 = 0;
    let mut i: usize = from;
    while i < to
        invariant
            from <= i <= to <= v@.len(),
            s == v@.subrange(from as int, to as int),
            forall|j: int| 0 <= j < i - from ==> is_dec_digit(s[j]),
            acc == dec_val(s.subrange(0, i - from)),
        decreases to - i,
    {
        let d = match digit_of(v[i]) {
            Some(d) => d,
            None => {
                proof {
                    assert(!is_dec_digit(s[i - from]));
                }
                return None;
            },
        };
        proof {
            assert(s.subrange(0, i - from + 1).drop_last() =~= s.subrange(0, i - from));
            assert(s.subrange(0, i - from + 1).last() == s[i - from]);
            assert(s[i - from] == v@[i as int]);
        }
        let a10 = match acc.checked_mul(10) {
            Some(a10) => a10,
            None => {
                proof {
                    if forall|j: int| 0 <= j < s.len() ==> is_dec_digit(s[j]) {
                        lemma_dec_val_grows(s, i - from + 1);
                    }
                }
                return None;
            },
        };
        acc = match a10.checked_add(d) {
            Some(a2) => a2,
            None => {
                proof {
                    if forall|j: int| 0 <= j < s.len() ==> is_dec_digit(s[j]) {
                        lemma_dec_val_grows(s, i - from + 1);
                    }
                }
                return None;
            },
        };
        i = i + 1;
    }
    proof {
        assert(s.subrange(0, s.len() as int) =~= s);
    }
    Some(acc)
}

/// A prefix of a digit run never exceeds the whole run's value.
proof fn lemma_dec_val_grows(s: Seq<char>, k: int)
    requires
        0 <= k <= s.len(),
        forall|i: int| 0 <= i < s.len() ==> is_dec_digit(s[i]),
    ensures
        dec_val(s.subrange(0, k)) <= dec_val(s),
        dec_val(s) >= 0,
    decreases s.len() - k,
{
    if k == s.len() {
        assert(s.subrange(0, k) =~= s);
        lemma_dec_val_nonneg(s);
    } else {
        lemma_dec_val_grows(s, k + 1);
        assert(s.subrange(0, k + 1).drop_last() =~= s.subrange(0, k));
        lemma_dec_val_nonneg(s.subrange(0, k));
    }
}

/// The value of a digit run is never negative.
proof fn lemma_dec_val_nonneg(s: Seq<char>)
    requires
        forall|i: int| 0 <= i < s.len() ==> is_dec_digit(s[i]),
    ensures
        dec_val(s) >= 0,
    decreases s.len(),
{
    if s.len() > 0 {
        lemma_dec_val_nonneg(s.drop_last());
    }
}

} // verus!

// Whitespace, trimming, substring replacement, and whitespace splitting.

use vstd::prelude::*;

verus! {

/// The ASCII whitespace characters, as `split_ascii_whitespace` knows them.
pub open spec fn is_ascii_ws(c: char) -> bool {
    c == ' ' || c == '\t' || c == '\n' || c == '\u{0c}' || c == '\r'
}

/// The Unicode white-space characters.
pub open spec fn is_unicode_ws(c: char) -> bool {
    ('\u{09}' <= c && c <= '\u{0d}') || c == ' ' || c == '\u{85}' || c == '\u{a0}' || c
        == '\u{1680}' || ('\u{2000}' <= c && c <= '\u{200a}') || c == '\u{2028}' || c == '\u{2029}'
        || c == '\u{202f}' || c == '\u{205f}' || c == '\u{3000}'
}

/// Whether `c` is an ASCII whitespace character.
pub fn is_ascii_ws_exec(c: char) -> (r: bool)
    ensures
        r == is_ascii_ws(c),
{
    c == ' ' || c == '\t' || c == '\n' || c == '\u{0c}' || c == '\r'
}

/// Whether `c` is a Unicode white-space character.
pub fn is_unicode_ws_exec(c: char) -> (r: bool)
    ensures
        r == is_unicode_ws(c),
{
    ('\u{09}' <= c && c <= '\u{0d}') || c == ' ' || c == '\u{85}' || c == '\u{a0}' || c
        == '\u{1680}' || ('\u{2000}' <= c && c <= '\u{200a}') || c == '\u{2028}' || c == '\u{2029}'
        || c == '\u{202f}' || c == '\u{205f}' || c == '\u{3000}'
}

/// Number of white-space characters at the front of `s`.
pub open spec fn trim_start_idx(s: Seq<char>) -> int
    decreases s.len(),
{
    if s.len() == 0 || !is_unicode_ws(s[0]) {
        0
    } else {
        1 + trim_start_idx(s.drop_first())
    }
}

/// Where the trailing white-space run of `s` begins.
pub open spec fn trim_end_idx(s: Seq<char>) -> int
    decreases s.len(),
{
    if s.len() == 0 || !is_unicode_ws(s.last()) {
        s.len() as int
    } else {
        trim_end_idx(s.drop_last())
    }
}

/// `s` without leading and trailing white space.
pub open spec fn trim_spec(s: Seq<char>) -> Seq<char> {
    if trim_start_idx(s) >= trim_end_idx(s) {
        Seq::empty()
    } else {
        s.subrange(trim_start_idx(s), trim_end_idx(s))
    }
}

proof fn lemma_trim_start(s: Seq<char>, i: int)
    requires
        0 <= i <= s.len(),
        forall|j: int| 0 <= j < i ==> is_unicode_ws(s[j]),
        i < s.len() ==> !is_unicode_ws(s[i]),
    ensures
        trim_start_idx(s) == i,
    decreases i,
{
    if i == 0 {
    } else {
        lemma_trim_start(s.drop_first(), i - 1);
    }
}

proof fn lemma_trim_end(s: Seq<char>, i: int)
    requires
        0 <= i <= s.len(),
        forall|j: int| i <= j < s.len() ==> is_unicode_ws(s[j]),
        i > 0 ==> !is_unicode_ws(s[i - 1]),
    ensures
        trim_end_idx(s) == i,
    decreases s.len() - i,
{
    if i == s.len() {
        lemma_trim_end_full(s, i);
    } else {
        assert(is_unicode_ws(s.last()));
        assert(s.drop_last() =~= s.subrange(0, s.len() - 1));
        lemma_trim_end(s.drop_last(), i);
    }
}

proof fn lemma_trim_end_full(s: Seq<char>, i: int)
    requires
        i == s.len(),
        i > 0 ==> !is_unicode_ws(s[i - 1]),
    ensures
        trim_end_idx(s) == i,
{
}

proof fn lemma_trim_end_bounds(s: Seq<char>)
    ensures
        0 <= trim_end_idx(s) <= s.len(),
    decreases s.len(),
{
    if s.len() > 0 && is_unicode_ws(s.last()) {
        lemma_trim_end_bounds(s.drop_last());
    }
}

/// `v` without leading and trailing white space.
pub fn trim_chars(v: &Vec<char>) -> (r: Vec<char>)
    ensures
        r@ == trim_spec(v@),
{
    let n = v.len();
    let mut a: usize = 0;
    while a < n && is_unicode_ws_exec(v[a])
        invariant
            a <= n,
            n == v@.len(),
            forall|j: int| 0 <= j < a ==> is_unicode_ws(v@[j]),
        decreases n - a,
    {
        a = a + 1;
    }
    proof {
        lemma_trim_start(v@, a as int);
    }
    let mut b: usize = n;
    while b > a && is_unicode_ws_exec(v[b - 1])
        invariant
            a <= b <= n,
            n == v@.len(),
            forall|j: int| b <= j < n ==> is_unicode_ws(v@[j]),
        decreases b,
    {
        b = b - 1;
    }
    let mut r: Vec<char> = Vec::new();
    if a >= b {
        proof {
            lemma_trim_end_bounds(v@);
            if a < n {
                assert(is_unicode_ws(v@[a as int]));
            }
            assert(a == n);
        }
        return r;
    }
    proof {
        assert(!is_unicode_ws(v@[b - 1]));
        lemma_trim_end(v@, b as int);
    }
    let mut i: usize = a;
    while i < b
        invariant
            a <= i <= b <= n,
            n == v@.len(),
            r@ == v@.subrange(a as int, i as int),
        decreases b - i,
    {
        proof {
            assert(r@.push(v@[i as int]) =~= v@.subrange(a as int, i + 1));
        }
        r.push(v[i]);
        i = i + 1;
    }
    r
}

/// Whether `pat` occurs in `v` starting at position `i`.
pub fn matches_at(v: &Vec<char>, i: usize, pat: &Vec<char>) -> (r: bool)
    requires
        i <= v@.len(),
    ensures
        r == (i + pat@.len() <= v@.len() && v@.subrange(i as int, i + pat@.len()) == pat@),
{
    if pat.len() > v.len() - i {
        return false;
    }
    let vlen = v.len();
    let mut k: usize = 0;
    while k < pat.len()
        invariant
            vlen == v@.len(),
            i + pat@.len() <= vlen,
            k <= pat@.len(),
            forall|j: int| 0 <= j < k ==> v@[i + j] == pat@[j],
        decreases pat@.len() - k,
    {
        if v[i + k] != pat[k] {
            proof {
                assert(v@.subrange(i as int, i + pat@.len())[k as int] != pat@[k as int]);
            }
            return false;
        }
        k = k + 1;
    }
    proof {
        assert(v@.subrange(i as int, i + pat@.len()) =~= pat@);
    }
    true
}

/// `s` with every occurrence of `pat` replaced by `rep`: occurrences are
/// found left to right in `s` itself, without overlap, and the replacement
/// text is not searched again.
pub open spec fn replace_all(s: Seq<char>, pat: Seq<char>, rep: Seq<char>) -> Seq<char>
    decreases s.len(),
{
    if pat.len() == 0 || s.len() < pat.len() {
        s
    } else if s.take(pat.len() as int) == pat {
        rep + replace_all(s.skip(pat.len() as int), pat, rep)
    } else {
        seq![s[0]] + replace_all(s.drop_first(), pat, rep)
    }
}

/// Replaces every occurrence of `pat` in `v` by `rep`, left to right.
pub fn replace_chars(v: &Vec<char>, pat: &Vec<char>, rep: &Vec<char>) -> (r: Vec<char>)
    requires
        pat@.len() > 0,
    ensures
        r@ == replace_all(v@, pat@, rep@),
{
    let mut r: Vec<char> = Vec::new();
    let mut i: usize = 0;
    proof {
        assert(v@.subrange(0, v@.len() as int) =~= v@);
    }
    while i < v.len()
        invariant
            i <= v@.len(),
            pat@.len() > 0,
            replace_all(v@, pat@, rep@) == r@ + replace_all(
                v@.subrange(i as int, v@.len() as int),
                pat@,
                rep@,
            ),
        decreases v@.len() - i,
    {
        let ghost pending = v@.subrange(i as int, v@.len() as int);
        if matches_at(v, i, pat) {
            proof {
                assert(pending.take(pat@.len() as int) =~= v@.subrange(i as int, i + pat@.len()));
                assert(pending.skip(pat@.len() as int) =~= v@.subrange(
                    i + pat@.len(),
                    v@.len() as int,
                ));
                assert(replace_all(pending, pat@, rep@) == rep@ + replace_all(
                    v@.subrange(i + pat@.len(), v@.len() as int),
                    pat@,
                    rep@,
                ));
            }
            let ghost r0 = r@;
            let mut k: usize = 0;
            while k < rep.len()
                invariant
                    k <= rep@.len(),
                    r@ == r0 + rep@.subrange(0, k as int),
                decreases rep@.len() - k,
            {
                proof {
                    assert(r@.push(rep@[k as int]) =~= r0 + rep@.subrange(0, k + 1));
                }
                r.push(rep[k]);
                k = k + 1;
            }
            proof {
                assert(r0 + rep@.subrange(0, rep@.len() as int) =~= r0 + rep@);
                assert((r0 + rep@) + replace_all(
                    v@.subrange(i + pat@.len(), v@.len() as int),
                    pat@,
                    rep@,
                ) =~= r0 + (rep@ + replace_all(
                    v@.subrange(i + pat@.len(), v@.len() as int),
                    pat@,
                    rep@,
                )));
            }
            i = i + pat.len();
        } else {
            proof {
                if i + pat@.len() <= v@.len() {
                    assert(pending.take(pat@.len() as int) =~= v@.subrange(
                        i as int,
                        i + pat@.len(),
                    ));
                    assert(pending.take(pat@.len() as int) != pat@);
                } else {
                    assert(pending.len() < pat@.len());
                }
                assert(seq![pending[0]] + pending.drop_first() =~= pending);
                assert(pending.drop_first() =~= v@.subrange(i + 1, v@.len() as int));
            }
            r.push(v[i]);
            i = i + 1;
        }
    }
    proof {
        assert(v@.subrange(i as int, v@.len() as int).len() == 0);
        assert(r@ =~= replace_all(v@, pat@, rep@));
    }
    r
}

} // verus!

verus! {

/// Length of the leading non-white-space run of `s`.
pub open spec fn token_len(s: Seq<char>) -> nat
    decreases s.len(),
{
    if s.len() == 0 || is_ascii_ws(s[0]) {
        0
    } else {
        1 + token_len(s.drop_first())
    }
}

/// The leading token is never longer than the text.
pub proof fn lemma_token_len_bounds(s: Seq<char>)
    ensures
        token_len(s) <= s.len(),
    decreases s.len(),
{
    if s.len() > 0 && !is_ascii_ws(s[0]) {
        lemma_token_len_bounds(s.drop_first());
    }
}

/// `s` split on ASCII white space: the maximal non-white-space runs, in order.
pub open spec fn split_ws(s: Seq<char>) -> Seq<Seq<char>>
    decreases s.len(),
    via split_ws_decreases
{
    if s.len() == 0 {
        seq![]
    } else if is_ascii_ws(s[0]) {
        split_ws(s.drop_first())
    } else {
        seq![s.take(token_len(s) as int)] + split_ws(s.skip(token_len(s) as int))
    }
}

#[via_fn]
proof fn split_ws_decreases(s: Seq<char>) {
    lemma_token_len_bounds(s);
}

proof fn lemma_token_len_at(s: Seq<char>, k: int)
    requires
        0 <= k <= s.len(),
        forall|m: int| 0 <= m < k ==> !is_ascii_ws(s[m]),
        k < s.len() ==> is_ascii_ws(s[k]),
    ensures
        token_len(s) == k,
    decreases k,
{
    if k == 0 {
    } else {
        lemma_token_len_at(s.drop_first(), k - 1);
    }
}

/// Splits `v` on ASCII white space into the sequence of its words.
pub fn split_ws_chars(v: &Vec<char>) -> (r: Vec<Vec<char>>)
    ensures
        r@.map_values(|t: Vec<char>| t@) == split_ws(v@),
{
    let n = v.len();
    let mut r: Vec<Vec<char>> = Vec::new();
    let mut i: usize = 0;
    proof {
        assert(v@.skip(0) =~= v@);
        assert(r@.map_values(|t: Vec<char>| t@) + split_ws(v@) =~= split_ws(v@));
    }
    while i < n
        invariant
            i <= n,
            n == v@.len(),
            split_ws(v@) == r@.map_values(|t: Vec<char>| t@) + split_ws(
                v@.skip(i as int),
            ),
        decreases n - i,
    {
        if is_ascii_ws_exec(v[i]) {
            proof {
                assert(v@.skip(i as int).drop_first() =~= v@.skip(i + 1));
            }
            i = i + 1;
        } else {
            let start = i;
            let mut tok: Vec<char> = Vec::new();
            while i < n && !is_ascii_ws_exec(v[i])
                invariant
                    start <= i <= n,
                    n == v@.len(),
                    tok@ == v@.subrange(start as int, i as int),
                    forall|m: int| start <= m < i ==> !is_ascii_ws(v@[m]),
                decreases n - i,
            {
                proof {
                    assert(tok@.push(v@[i as int]) =~= v@.subrange(start as int, i + 1));
                }
                tok.push(v[i]);
                i = i + 1;
            }
            proof {
                let rest = v@.skip(start as int);
                assert(forall|m: int| 0 <= m < i - start ==> !is_ascii_ws(#[trigger] rest[m]));
                if i < n {
                    assert(is_ascii_ws(rest[i - start]));
                }
                lemma_token_len_at(rest, i - start);
                assert(rest.take((i - start) as int) =~= v@.subrange(start as int, i as int));
                assert(rest.skip((i - start) as int) =~= v@.skip(i as int));
                assert(split_ws(rest) == seq![tok@] + split_ws(v@.skip(i as int)));
                assert((r@.push(tok)).map_values(|t: Vec<char>| t@) =~= r@.map_values(
                    |t: Vec<char>| t@,
                ).push(tok@));
                assert(r@.map_values(|t: Vec<char>| t@).push(tok@) + split_ws(v@.skip(i as int))
                    =~= r@.map_values(|t: Vec<char>| t@) + (seq![tok@] + split_ws(
                    v@.skip(i as int),
                )));
            }
            r.push(tok);
        }
    }
    proof {
        assert(v@.skip(i as int).len() == 0);
        assert(r@.map_values(|t: Vec<char>| t@) =~= split_ws(v@));
    }
    r
}

/// Whether `v` begins with the characters of `s`.
pub fn starts_with_str(v: &Vec<char>, s: &str) -> (r: bool)
    ensures
        r == (v@.len() >= s@.len() && v@.subrange(0, s@.len() as int) == s@),
{
    let n = vstd::string::StrSliceExecFns::unicode_len(s);
    if v.len() < n {
        return false;
    }
    let mut i: usize = 0;
    while i < n
        invariant
            n == s@.len(),
            n <= v@.len(),
            i <= n,
            forall|j: int| 0 <= j < i ==> v@[j] == s@[j],
        decreases n - i,
    {
        if v[i] != vstd::string::StrSliceExecFns::get_char(s, i) {
            proof {
                assert(v@.subrange(0, s@.len() as int)[i as int] != s@[i as int]);
            }
            return false;
        }
        i = i + 1;
    }
    proof {
        assert(v@.subrange(0, s@.len() as int) =~= s@);
    }
    true
}

/// Whether `v` ends with the characters of `s`.
pub fn ends_with_str(v: &Vec<char>, s: &str) -> (r: bool)
    ensures
        r == (v@.len() >= s@.len() && v@.subrange(v@.len() - s@.len(), v@.len() as int) == s@),
{
    let n = vstd::string::StrSliceExecFns::unicode_len(s);
    if v.len() < n {
        return false;
    }
    let vlen = v.len();
    let base = vlen - n;
    let mut i: usize = 0;
    while i < n
        invariant
            n == s@.len(),
            vlen == v@.len(),
            base + n == vlen,
            i <= n,
            forall|j: int| 0 <= j < i ==> v@[base + j] == s@[j],
        decreases n - i,
    {
        if v[base + i] != vstd::string::StrSliceExecFns::get_char(s, i) {
            proof {
                assert(v@.subrange(v@.len() - s@.len(), v@.len() as int)[i as int] != s@[i as int]);
            }
            return false;
        }
        i = i + 1;
    }
    proof {
        assert(v@.subrange(v@.len() - s@.len(), v@.len() as int) =~= s@);
    }
    true
}

} // verus!

verus! {

/// Appends the characters of `s` to `dst`.
pub fn extend_with_str(dst: &mut Vec<char>, s: &str)
    ensures
        final(dst)@ == old(dst)@ + s@,
{
    let n = vstd::string::StrSliceExecFns::unicode_len(s);
    let ghost d0 = dst@;
    let mut i: usize = 0;
    while i < n
        invariant
            n == s@.len(),
            i <= n,
            dst@ == d0 + s@.subrange(0, i as int),
        decreases n - i,
    {
        proof {
            assert(dst@.push(s@[i as int]) =~= d0 + s@.subrange(0, i + 1));
        }
        dst.push(vstd::string::StrSliceExecFns::get_char(s, i));
        i = i + 1;
    }
    proof {
        assert(d0 + s@.subrange(0, s@.len() as int) =~= d0 + s@);
    }
}

/// Appends the characters of `src` to `dst`.
pub fn extend_with_chars(dst: &mut Vec<char>, src: &Vec<char>)
    ensures
        final(dst)@ == old(dst)@ + src@,
{
    let ghost d0 = dst@;
    let mut i: usize = 0;
    while i < src.len()
        invariant
            i <= src@.len(),
            dst@ == d0 + src@.subrange(0, i as int),
        decreases src@.len() - i,
    {
        proof {
            assert(dst@.push(src@[i as int]) =~= d0 + src@.subrange(0, i + 1));
        }
        dst.push(src[i]);
        i = i + 1;
    }
    proof {
        assert(d0 + src@.subrange(0, src@.len() as int) =~= d0 + src@);
    }
}

} // verus!

verus! {

/// A run of `k` digits is worth less than ten to the `k`.
pub proof fn lemma_dec_val_bound(s: Seq<char>)
    requires
        forall|i: int| 0 <= i < s.len() ==> is_dec_digit(s[i]),
    ensures
        0 <= dec_val(s) < crate::number_to_words::pow10(s.len()),
    decreases s.len(),
{
    if s.len() == 0 {
    } else {
        lemma_dec_val_bound(s.drop_last());
        assert(crate::number_to_words::pow10(s.len()) == 10 * crate::number_to_words::pow10(
            (s.len() - 1) as nat,
        ));
    }
}

} // verus!

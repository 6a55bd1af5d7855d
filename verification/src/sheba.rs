//! Validation of the Iranian bank account number (the IBAN form beginning
//! with the country tag), and the bank each account code belongs to.

pub mod bank_info;
pub mod errors;

pub use errors::ShebaValidationError;

use vstd::prelude::*;
use crate::text::chars_of;
use crate::text::dec_val;
use crate::text::is_dec_digit;
use crate::text::parse_u64_range;
use crate::text::extend_with_chars;
use crate::text::extend_with_str;
use crate::number_to_words::pow10;
use crate::number_to_words::lemma_pow10_pos;
use self::bank_info::get_bank_info;
use self::bank_info::bank_info_spec;
use self::bank_info::ShebaResult;

verus! {

/// The value of a digit run, modulo ninety-seven.
pub open spec fn mod97(s: Seq<char>) -> int {
    dec_val(s) % 97
}

/// Concatenation splits a digit run's value: the head is scaled by ten to
/// the tail's length.
proof fn lemma_dec_val_concat(a: Seq<char>, b: Seq<char>)
    ensures
        dec_val(a + b) == dec_val(a) * pow10(b.len()) + dec_val(b),
    decreases b.len(),
{
    if b.len() == 0 {
        assert(a + b =~= a);
    } else {
        lemma_dec_val_concat(a, b.drop_last());
        let p1 = pow10((b.len() - 1) as nat);
        let x = dec_val(a);
        let y = dec_val(b.drop_last());
        let d = crate::text::digit_val(b.last());
        assert((a + b).drop_last() =~= a + b.drop_last());
        assert((a + b).last() == b.last());
        assert(pow10(b.len()) == 10 * p1);
        assert(dec_val(a + b) == (x * p1 + y) * 10 + d);
        assert((x * p1 + y) * 10 == x * (10 * p1) + y * 10) by (nonlinear_arith);
        assert(dec_val(b) == y * 10 + d);
    }
}

/// Replacing the head of a digit run by its remainder modulo ninety-seven
/// keeps the whole run's remainder.
proof fn lemma_mod97_head(a: Seq<char>, b: Seq<char>, a2: Seq<char>)
    requires
        dec_val(a2) == dec_val(a) % 97,
    ensures
        mod97(a2 + b) == mod97(a + b),
{
    lemma_dec_val_concat(a, b);
    lemma_dec_val_concat(a2, b);
    let p = pow10(b.len());
    vstd::arithmetic::div_mod::lemma_mul_mod_noop_left(dec_val(a), p, 97);
    vstd::arithmetic::div_mod::lemma_mul_mod_noop_left(dec_val(a2), p, 97);
    vstd::arithmetic::div_mod::lemma_mod_twice(dec_val(a), 97);
    vstd::arithmetic::div_mod::lemma_add_mod_noop(dec_val(a) * p, dec_val(b), 97);
    vstd::arithmetic::div_mod::lemma_add_mod_noop(dec_val(a2) * p, dec_val(b), 97);
}

/// The checkable remainder of a digit run modulo ninety-seven, computed nine
/// digits at a time. A run that is empty or holds a character that is no
/// digit is the digit error.
#[verifier::loop_isolation(false)]
pub fn sheba_iso7064_mod97(iban: &str) -> (r: Result<usize, ShebaValidationError>)
    ensures
        ({
            let s = iban@;
            if s.len() > 0 && (forall|i: int| 0 <= i < s.len() ==> is_dec_digit(s[i])) {
                r == Ok::<usize, ShebaValidationError>((mod97(s)) as usize)
            } else {
                r == Err::<usize, ShebaValidationError>(ShebaValidationError::InvalidDigit)
            }
        }),
{
    let mut remainder = chars_of(iban);
    let ghost s = iban@;
    let ghost all_digits = s.len() > 0 && (forall|i: int| 0 <= i < s.len() ==> is_dec_digit(s[i]));
    while remainder.len() > 2
        invariant
            all_digits ==> remainder@.len() > 0 && (forall|i: int|
                0 <= i < remainder@.len() ==> is_dec_digit(#[trigger] remainder@[i])) && mod97(
                remainder@,
            ) == mod97(s),
            !all_digits ==> remainder@.len() == 0 || exists|i: int|
                0 <= i < remainder@.len() && !is_dec_digit(#[trigger] remainder@[i]),
        decreases remainder@.len(),
    {
        let block_len: usize = if remainder.len() < 9 {
            remainder.len()
        } else {
            9
        };
        let ghost head = remainder@.subrange(0, block_len as int);
        let ghost tail = remainder@.subrange(block_len as int, remainder@.len() as int);
        let p1: u64 = match parse_u64_range(&remainder, 0, block_len) {
            Some(x) => x % 97,
            None => {
                proof {
                    if all_digits {
                        assert(forall|i: int|
                            0 <= i < head.len() ==> is_dec_digit(#[trigger] head[i]));
                        crate::text::lemma_dec_val_bound(head);
                        lemma_pow10_bound(head.len() as nat);
                        assert(false);
                    }
                }
                return Err(ShebaValidationError::InvalidDigit);
            },
        };
        proof {
            if all_digits {
                crate::text::lemma_dec_val_bound(head);
            }
        }
        let mut next = crate::text::u64_to_chars(p1);
        let ghost p1_digits = next@;
        let mut k: usize = block_len;
        let ghost n0 = next@;
        while k < remainder.len()
            invariant
                block_len <= k <= remainder@.len(),
                next@ == n0 + remainder@.subrange(block_len as int, k as int),
            decreases remainder@.len() - k,
        {
            proof {
                assert(next@.push(remainder@[k as int]) =~= n0 + remainder@.subrange(
                    block_len as int,
                    k + 1,
                ));
            }
            let c = remainder[k];
            next.push(c);
            k = k + 1;
        }
        proof {
            assert(next@ =~= p1_digits + tail);
            assert(p1 <= 96);
            assert(p1_digits == crate::text::dec_digits(p1 as nat));
            lemma_dec_digits_short(p1 as nat);
            assert(next@.len() < remainder@.len());
            if all_digits {
                // the replaced head keeps the remainder
                crate::text::lemma_dec_val_bound(head);
                assert(dec_val(p1_digits) == dec_val(head) % 97) by {
                    assert(p1_digits == crate::text::dec_digits(p1 as nat));
                    lemma_dec_digits_val(p1 as nat);
                }
                lemma_mod97_head(head, tail, p1_digits);
                assert(head + tail =~= remainder@);
                assert(forall|i: int|
                    0 <= i < p1_digits.len() ==> is_dec_digit(#[trigger] p1_digits[i])) by {
                    lemma_dec_digits_are_digits(p1 as nat);
                }
                assert(forall|i: int|
                    0 <= i < next@.len() ==> is_dec_digit(#[trigger] next@[i]));
                lemma_dec_digits_are_digits(p1 as nat);
                assert(next@.len() > 0);
            } else {
                // a non-digit lives on: it sat in the head or the tail
                if exists|i: int| 0 <= i < head.len() && !is_dec_digit(#[trigger] head[i]) {
                    // then the parse above would have failed
                    let i = choose|i: int|
                        0 <= i < head.len() && !is_dec_digit(#[trigger] head[i]);
                    assert(false);
                } else {
                    let i = choose|i: int|
                        0 <= i < remainder@.len() && !is_dec_digit(#[trigger] remainder@[i]);
                    assert(head + tail =~= remainder@);
                    assert(i >= block_len);
                    assert(!is_dec_digit(next@[p1_digits.len() + (i - block_len)]));
                }
            }
        }
        remainder = next;
    }
    match parse_u64_range(&remainder, 0, remainder.len()) {
        Some(x) => {
            proof {
                if !all_digits {
                    let i = choose|i: int|
                        0 <= i < remainder@.len() && !is_dec_digit(#[trigger] remainder@[i]);
                    assert(remainder@.subrange(0, remainder@.len() as int) =~= remainder@);
                    assert(false);
                }
                assert(remainder@.subrange(0, remainder@.len() as int) =~= remainder@);
                crate::text::lemma_dec_val_bound(remainder@);
                lemma_pow10_bound(remainder@.len() as nat);
                assert(x <= 1000000000);
                assert(x as int == dec_val(remainder@));
                assert((x as usize) % 97 == mod97(remainder@));
                assert(mod97(remainder@) == mod97(s));
            }
            Ok((x as usize) % 97)
        },
        None => {
            proof {
                if all_digits {
                    assert(remainder@.subrange(0, remainder@.len() as int) =~= remainder@);
                    crate::text::lemma_dec_val_bound(remainder@);
                    lemma_pow10_bound(remainder@.len() as nat);
                    assert(false);
                }
            }
            Err(ShebaValidationError::InvalidDigit)
        },
    }
}

/// The digits of a value are worth the value.
proof fn lemma_dec_digits_val(n: nat)
    ensures
        dec_val(crate::text::dec_digits(n)) == n,
    decreases n,
{
    if n >= 10 {
        lemma_dec_digits_val(n / 10);
        let c = crate::text::digit_char((n % 10) as int);
        assert(crate::text::dec_digits(n) =~= crate::text::dec_digits(n / 10).push(c));
        assert(crate::text::dec_digits(n).drop_last() =~= crate::text::dec_digits(n / 10));
        assert(crate::text::dec_digits(n).last() == c);
        lemma_digit_char_val((n % 10) as int);
        vstd::arithmetic::div_mod::lemma_fundamental_div_mod(n as int, 10);
        assert(dec_val(crate::text::dec_digits(n)) == (n / 10) * 10 + (n % 10));
        assert((n / 10) * 10 + (n % 10) == n) by (nonlinear_arith);
        assert(dec_val(crate::text::dec_digits(n)) == n);
    } else {
        let c = crate::text::digit_char(n as int);
        assert(crate::text::dec_digits(n) =~= seq![c]);
        assert(crate::text::dec_digits(n).drop_last() =~= Seq::<char>::empty());
        assert(crate::text::dec_digits(n).last() == c);
        lemma_digit_char_val(n as int);
        assert(dec_val(crate::text::dec_digits(n)) == dec_val(
            crate::text::dec_digits(n).drop_last(),
        ) * 10 + crate::text::digit_val(crate::text::dec_digits(n).last()));
        assert(dec_val(crate::text::dec_digits(n)) == n);
    }
}

/// The digit character of a value carries that value.
proof fn lemma_digit_char_val(d: int)
    requires
        0 <= d <= 9,
    ensures
        crate::text::digit_val(crate::text::digit_char(d)) == d,
        is_dec_digit(crate::text::digit_char(d)),
{
}

/// A value's digits are decimal digit characters.
proof fn lemma_dec_digits_are_digits(n: nat)
    ensures
        forall|i: int|
            0 <= i < crate::text::dec_digits(n).len() ==> is_dec_digit(
                #[trigger] crate::text::dec_digits(n)[i],
            ),
        crate::text::dec_digits(n).len() >= 1,
    decreases n,
{
    if n >= 10 {
        lemma_dec_digits_are_digits(n / 10);
    }
}

/// A value under one hundred has at most two digits.
proof fn lemma_dec_digits_short(n: nat)
    requires
        n <= 96,
    ensures
        crate::text::dec_digits(n).len() <= 2,
{
    if n >= 10 {
        assert(n / 10 < 10);
        assert(crate::text::dec_digits((n / 10) as nat).len() == 1);
    }
}

/// Nine or fewer digits fit an unsigned 64-bit value.
proof fn lemma_pow10_bound(k: nat)
    requires
        k <= 9,
    ensures
        pow10(k) <= 1000000000,
    decreases k,
{
    assert(pow10(0nat) == 1);
    assert(pow10(1nat) == 10);
    assert(pow10(2nat) == 100);
    assert(pow10(3nat) == 1000);
    assert(pow10(4nat) == 10000);
    assert(pow10(5nat) == 100000);
    assert(pow10(6nat) == 1000000);
    assert(pow10(7nat) == 10000000);
    assert(pow10(8nat) == 100000000);
    assert(pow10(9nat) == 1000000000);
}

/// The account number with a leading country tag dropped.
pub open spec fn sheba_body(s: Seq<char>) -> Seq<char> {
    if s.len() >= 2 && (s[0] == 'I' || s[0] == 'i') && (s[1] == 'R' || s[1] == 'r') {
        s.skip(2)
    } else {
        s
    }
}

/// What validating the tag-free part of an account number yields: exactly
/// twenty-four digits, and the rearranged run with the country tag's numeric
/// form must leave remainder one.
pub open spec fn sheba_body_spec(body: Seq<char>) -> Result<(), ShebaValidationError> {
    if body.len() != 24 {
        Err(ShebaValidationError::InvalidLength(body.len() as usize))
    } else if exists|i: int| 0 <= i < body.len() && !(is_dec_digit(body[i]) && body[i] as int
        <= 127) {
        Err(ShebaValidationError::InvalidDigit)
    } else if mod97(body.skip(2) + "1827"@ + body.take(2)) == 1 {
        Ok(())
    } else {
        Err(ShebaValidationError::InvalidChecksum)
    }
}

/// What validating an account number yields.
pub open spec fn sheba_valid_spec(s: Seq<char>) -> Result<(), ShebaValidationError> {
    sheba_body_spec(sheba_body(s))
}

/// Validates an Iranian account number: an optional country tag, then
/// twenty-four digits whose rearranged form leaves remainder one modulo
/// ninety-seven.
#[verifier::loop_isolation(false)]
pub fn is_sheba_valid(sheba: &str) -> (r: Result<(), ShebaValidationError>)
    ensures
        r == sheba_valid_spec(sheba@),
{
    let v = chars_of(sheba);
    let body: Vec<char> = if v.len() >= 2 && (v[0] == 'I' || v[0] == 'i') && (v[1] == 'R' || v[1]
        == 'r') {
        let mut b: Vec<char> = Vec::new();
        let mut i: usize = 2;
        while i < v.len()
            invariant
                2 <= i <= v@.len(),
                b@ == v@.subrange(2, i as int),
            decreases v@.len() - i,
        {
            proof {
                assert(b@.push(v@[i as int]) =~= v@.subrange(2, i + 1));
            }
            b.push(v[i]);
            i = i + 1;
        }
        proof {
            assert(b@ =~= v@.skip(2));
        }
        b
    } else {
        let mut b: Vec<char> = Vec::new();
        extend_with_chars(&mut b, &v);
        proof {
            assert(b@ =~= v@);
        }
        b
    };
    let ghost bs = body@;
    if body.len() != 24 {
        return Err(ShebaValidationError::InvalidLength(body.len()));
    }
    let mut j: usize = 0;
    while j < body.len()
        invariant
            j <= body@.len(),
            forall|k: int|
                0 <= k < j ==> is_dec_digit(#[trigger] body@[k]) && body@[k] as int <= 127,
        decreases body@.len() - j,
    {
        let c = body[j];
        if !('0' <= c && c <= '9') {
            proof {
                assert(sheba_body(sheba@) == bs);
                assert(bs.len() == 24);
                assert(!(is_dec_digit(bs[j as int]) && bs[j as int] as int <= 127));
                assert(exists|i: int|
                    0 <= i < bs.len() && !(is_dec_digit(#[trigger] bs[i]) && bs[i] as int <= 127));
                assert(sheba_body_spec(bs) == Err::<(), ShebaValidationError>(
                    ShebaValidationError::InvalidDigit,
                ));
            }
            return Err(ShebaValidationError::InvalidDigit);
        }
        j = j + 1;
    }

    // rearrange: the digits after the tag, the tag's numeric form, the two
    // leading digits
    let mut arranged: Vec<char> = Vec::new();
    let mut k: usize = 2;
    while k < body.len()
        invariant
            2 <= k <= body@.len(),
            body@.len() == 24,
            arranged@ == body@.subrange(2, k as int),
        decreases body@.len() - k,
    {
        proof {
            assert(arranged@.push(body@[k as int]) =~= body@.subrange(2, k + 1));
        }
        arranged.push(body[k]);
        k = k + 1;
    }
    proof {
        assert(arranged@ =~= bs.skip(2));
    }
    extend_with_str(&mut arranged, "1827");
    arranged.push(body[0]);
    arranged.push(body[1]);
    proof {
        assert(arranged@ =~= bs.skip(2) + "1827"@ + bs.take(2));
        reveal_strlit("1827");
        assert(forall|i: int|
            0 <= i < arranged@.len() ==> is_dec_digit(#[trigger] arranged@[i]));
    }
    let s = crate::text::string_from_chars(&arranged);
    let remainder = match sheba_iso7064_mod97(s.as_str()) {
        Ok(x) => x,
        Err(e) => {
            return Err(e);
        },
    };
    if remainder == 1 {
        Ok(())
    } else {
        Err(ShebaValidationError::InvalidChecksum)
    }
}

/// The bank that an account number belongs to: the account must be valid,
/// and its three-digit bank code must be a known one.
#[verifier::loop_isolation(false)]
pub fn get_sheba_info(sheba: &str) -> (r: Result<ShebaResult, ShebaValidationError>)
    ensures
        ({
            match sheba_valid_spec(sheba@) {
                Err(e) => r == Err::<ShebaResult, ShebaValidationError>(e),
                Ok(()) => {
                    let body = if sheba@.len() >= 2 && (sheba@[0] == 'I' || sheba@[0] == 'i') && (
                    sheba@[1] == 'R' || sheba@[1] == 'r') {
                        sheba@.skip(2)
                    } else {
                        sheba@
                    };
                    let code = dec_val(body.subrange(2, 5));
                    match bank_info_spec(code) {
                        Some(t) => r matches Ok(b) && b.name@ == t.0 && b.code@ == t.1
                            && b.nickname@ == t.2 && b.persian_name@ == t.3,
                        None => r == Err::<ShebaResult, ShebaValidationError>(
                            ShebaValidationError::BankNotFound,
                        ),
                    }
                },
            }
        }),
{
    match is_sheba_valid(sheba) {
        Ok(()) => (),
        Err(e) => {
            return Err(e);
        },
    }
    let v = chars_of(sheba);
    let body: Vec<char> = if v.len() >= 2 && (v[0] == 'I' || v[0] == 'i') && (v[1] == 'R' || v[1]
        == 'r') {
        let mut b: Vec<char> = Vec::new();
        let mut i: usize = 2;
        while i < v.len()
            invariant
                2 <= i <= v@.len(),
                b@ == v@.subrange(2, i as int),
            decreases v@.len() - i,
        {
            proof {
                assert(b@.push(v@[i as int]) =~= v@.subrange(2, i + 1));
            }
            b.push(v[i]);
            i = i + 1;
        }
        proof {
            assert(b@ =~= v@.skip(2));
        }
        b
    } else {
        let mut b: Vec<char> = Vec::new();
        extend_with_chars(&mut b, &v);
        proof {
            assert(b@ =~= v@);
        }
        b
    };
    proof {
        assert(sheba_body(sheba@) == body@);
        assert(sheba_valid_spec(sheba@) is Ok);
        assert(sheba_body_spec(body@) is Ok);
        assert(body@.len() == 24);
        assert forall|i: int| 0 <= i < body@.len() implies is_dec_digit(#[trigger] body@[i]) by {
            if !(is_dec_digit(body@[i]) && body@[i] as int <= 127) {
                assert(exists|k: int|
                    0 <= k < body@.len() && !(is_dec_digit(#[trigger] body@[k]) && body@[k] as int
                        <= 127));
                assert(false);
            }
            assert(is_dec_digit(body@[i]));
        }
    }
    let code: u64 = match parse_u64_range(&body, 2, 5) {
        Some(x) => x,
        None => {
            proof {
                let sub = body@.subrange(2, 5);
                assert(forall|i: int| 0 <= i < sub.len() ==> is_dec_digit(#[trigger] sub[i]));
                crate::text::lemma_dec_val_bound(sub);
                lemma_pow10_bound(3nat);
                assert(false);
            }
            return Err(ShebaValidationError::BankNotFound);
        },
    };
    proof {
        let sub = body@.subrange(2, 5);
        assert(forall|i: int| 0 <= i < sub.len() ==> is_dec_digit(#[trigger] sub[i]));
        crate::text::lemma_dec_val_bound(sub);
    }
    match get_bank_info(code) {
        Some(b) => Ok(b),
        None => Err(ShebaValidationError::BankNotFound),
    }
}

} // verus!

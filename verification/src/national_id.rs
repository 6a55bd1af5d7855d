//! Validation of the Iranian national identity number.

use vstd::prelude::*;
use vstd::string::StringSliceAdditionalSpecFns;
use crate::text::chars_of;
use crate::text::dec_val;
use crate::text::digit_val;
use crate::text::is_dec_digit;
use crate::text::parse_u64_range;
use crate::text::parse_u64_spec;

verus! {

/// What can go wrong when validating a national identity number.
#[derive(Debug, PartialEq, Eq, Structural)]
pub enum NationalIdError {
    /// The input length, in bytes, is not eight to ten.
    Length(usize),
    /// The input is not an unsigned decimal number.
    NumericConvert,
    /// The number fails one of the value checks.
    Invalid,
}

/// Whether every decimal digit of `n` equals `last`.
pub open spec fn all_digits_equal(n: int, last: int) -> bool
    decreases n,
{
    if n <= 0 {
        true
    } else {
        n % 10 == last && all_digits_equal(n / 10, last)
    }
}

/// The identity number padded on the left with zeros to ten digits.
pub open spec fn pad_to_ten(s: Seq<char>) -> Seq<char> {
    Seq::new((10 - s.len()) as nat, |i: int| '0') + s
}

/// The weighted digit sum of the first nine digits: position `i` carries
/// weight `10 - i`.
pub open spec fn nid_weighted_sum(p: Seq<char>, i: int) -> int
    decreases 9 - i,
{
    if i < 0 || i >= 9 {
        0
    } else {
        digit_val(p[i]) * (10 - i) + nid_weighted_sum(p, i + 1)
    }
}

/// Whether the check digit matches the weighted sum: a sum under two must be
/// the last digit itself, a larger sum its complement to eleven.
pub open spec fn nid_checksum_ok(p: Seq<char>, last: int) -> bool {
    let sum = nid_weighted_sum(p, 0) % 11;
    (sum < 2 && last == sum) || (sum >= 2 && last == 11 - sum)
}

/// What validating an identity number yields, given its characters and its
/// length in bytes.
pub open spec fn nid_spec(s: Seq<char>, byte_len: int) -> Result<(), NationalIdError> {
    if byte_len < 8 || byte_len > 10 {
        Err(NationalIdError::Length(byte_len as usize))
    } else if parse_u64_spec(s) is None {
        Err(NationalIdError::NumericConvert)
    } else {
        let value = dec_val(s);
        if byte_len == 10 && (value == 0 || all_digits_equal(value, value % 10)) {
            Err(NationalIdError::Invalid)
        } else {
            let p = pad_to_ten(s);
            if dec_val(p.subrange(3, 9)) == 0 {
                Err(NationalIdError::Invalid)
            } else if nid_checksum_ok(p, value % 10) {
                Ok(())
            } else {
                Err(NationalIdError::Invalid)
            }
        }
    }
}

/// Validates an Iranian national identity number: eight to ten digits whose
/// weighted sum matches the check digit, rejecting the all-equal and
/// zero-middle degenerate forms.
#[verifier::loop_isolation(false)]
pub fn verify_iranian_national_id(code: &str) -> (r: Result<(), NationalIdError>)
    ensures
        r == nid_spec(code@, code.spec_bytes().len() as usize as int),
{
    let length = code.len();
    if length < 8 || length > 10 {
        return Err(NationalIdError::Length(length));
    }
    let v = chars_of(code);
    let value: u64 = match parse_u64_range(&v, 0, v.len()) {
        Some(x) => x,
        None => {
            proof {
                assert(v@.subrange(0, v@.len() as int) =~= v@);
            }
            return Err(NationalIdError::NumericConvert);
        },
    };
    proof {
        assert(v@.subrange(0, v@.len() as int) =~= v@);
        assert(forall|i: int| 0 <= i < v@.len() ==> is_dec_digit(#[trigger] v@[i]));
        crate::text::lemma_dec_val_bound(v@);
        // single-byte digits: as many characters as bytes
        assert(vstd::utf8::is_ascii_chars(code@));
        vstd::utf8::is_ascii_chars_encode_utf8(code@);
        assert(v@.len() <= 10);
    }
    if length == 10 && (value == 0 || all_digits_equal_exec(value, value % 10)) {
        return Err(NationalIdError::Invalid);
    }

    // pad on the left with zeros to ten digits
    let mut p: Vec<char> = Vec::new();
    let mut z: usize = v.len();
    while z < 10
        invariant
            v@.len() <= z <= 10,
            p@ =~= Seq::new((z - v@.len()) as nat, |i: int| '0'),
        decreases 10 - z,
    {
        p.push('0');
        z = z + 1;
    }
    let ghost zeros = p@;
    crate::text::extend_with_chars(&mut p, &v);
    proof {
        assert(p@ =~= pad_to_ten(v@));
    }

    let middle = match parse_u64_range(&p, 3, 9) {
        Some(x) => x,
        None => {
            proof {
                let sub = p@.subrange(3, 9);
                assert(forall|i: int| 0 <= i < sub.len() ==> is_dec_digit(#[trigger] sub[i]));
                crate::text::lemma_dec_val_bound(sub);
                assert(crate::number_to_words::pow10(0nat) == 1);
                assert(crate::number_to_words::pow10(1nat) == 10);
                assert(crate::number_to_words::pow10(2nat) == 100);
                assert(crate::number_to_words::pow10(3nat) == 1000);
                assert(crate::number_to_words::pow10(4nat) == 10000);
                assert(crate::number_to_words::pow10(5nat) == 100000);
                assert(crate::number_to_words::pow10(6nat) == 1000000);
                assert(false);
            }
            return Err(NationalIdError::Invalid);
        },
    };
    proof {
        let sub = p@.subrange(3, 9);
        assert(forall|i: int| 0 <= i < sub.len() ==> is_dec_digit(#[trigger] sub[i]));
        crate::text::lemma_dec_val_bound(sub);
        assert(middle == dec_val(pad_to_ten(code@).subrange(3, 9)));
    }
    if middle == 0 {
        return Err(NationalIdError::Invalid);
    }

    proof {
        assert(forall|k: int| 0 <= k < 10 ==> is_dec_digit(#[trigger] p@[k]));
    }
    let mut sum: u64 = 0;
    let mut i: usize = 0;
    while i < 9
        invariant
            i <= 9,
            p@.len() == 10,
            forall|k: int| 0 <= k < 10 ==> is_dec_digit(p@[k]),
            sum <= 90 * i,
            nid_weighted_sum(p@, 0) == sum + nid_weighted_sum(p@, i as int),
        decreases 9 - i,
    {
        let c = p[i];
        proof {
            assert(is_dec_digit(p@[i as int]));
        }
        let d: u64 = (c as u32 as u64) - ('0' as u32 as u64);
        let f: u64 = (10 - i) as u64;
        proof {
            assert(d * f <= 90) by (nonlinear_arith)
                requires
                    0 <= d <= 9,
                    0 <= f <= 10,
            ;
        }
        let w: u64 = d * f;
        proof {
            assert(w == digit_val(p@[i as int]) * (10 - i));
        }
        sum = sum + w;
        i = i + 1;
    }
    sum = sum % 11;
    let last_number = value % 10;
    if (sum < 2 && last_number == sum) || (sum >= 2 && last_number == 11 - sum) {
        Ok(())
    } else {
        Err(NationalIdError::Invalid)
    }
}

/// Whether every decimal digit of `number` equals `last`.
fn all_digits_equal_exec(number: u64, last: u64) -> (r: bool)
    ensures
        r == all_digits_equal(number as int, last as int),
{
    let mut n = number;
    while n != 0
        invariant
            all_digits_equal(number as int, last as int) == all_digits_equal(
                n as int,
                last as int,
            ),
        decreases n,
    {
        if n % 10 != last {
            return false;
        }
        n = n / 10;
    }
    true
}

} // verus!

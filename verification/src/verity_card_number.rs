//! Bank card number validation by the doubled-digit checksum.

use vstd::prelude::*;
use vstd::string::StringSliceAdditionalSpecFns;
use crate::text::chars_of;
use crate::text::digit_val;
use crate::text::is_dec_digit;

verus! {

/// What can go wrong when validating a card number.
#[derive(Debug, PartialEq, Eq, Structural)]
pub enum VerifyCardNumberError {
    /// A character is not a decimal digit.
    InvalidDigit,
    /// The input is not sixteen bytes long.
    InvalidLength,
    /// The checksum does not come out to a multiple of ten.
    InvalidCardNumber,
}

/// One digit's contribution: digits at even positions are doubled, and a
/// doubled value over nine drops by nine.
pub open spec fn card_digit_weight(c: char, i: int) -> int {
    let sub = if i % 2 == 0 {
        digit_val(c) * 2
    } else {
        digit_val(c)
    };
    if sub > 9 {
        sub - 9
    } else {
        sub
    }
}

/// The checksum of the digits from position `i` on.
pub open spec fn card_sum_from(s: Seq<char>, i: int) -> int
    decreases s.len() - i,
{
    if i < 0 || i >= s.len() {
        0
    } else {
        card_digit_weight(s[i], i) + card_sum_from(s, i + 1)
    }
}

/// Validates a bank card number: sixteen bytes, all decimal digits, and the
/// doubled-digit checksum a multiple of ten. Each clause failing is the
/// matching error, the first failure deciding.
#[verifier::loop_isolation(false)]
pub fn verify_card_number(digits: &str) -> (r: Result<(), VerifyCardNumberError>)
    ensures
        ({
            let s = digits@;
            if digits.spec_bytes().len() as usize != 16 {
                r == Err::<(), VerifyCardNumberError>(VerifyCardNumberError::InvalidLength)
            } else if exists|i: int| 0 <= i < s.len() && !is_dec_digit(s[i]) {
                r == Err::<(), VerifyCardNumberError>(VerifyCardNumberError::InvalidDigit)
            } else if card_sum_from(s, 0) % 10 == 0 {
                r == Ok::<(), VerifyCardNumberError>(())
            } else {
                r == Err::<(), VerifyCardNumberError>(VerifyCardNumberError::InvalidCardNumber)
            }
        }),
{
    if digits.len() != 16 {
        return Err(VerifyCardNumberError::InvalidLength);
    }
    let v = chars_of(digits);
    let n = v.len();

    // every character must be a digit before the weights mean anything
    let mut j: usize = 0;
    while j < n
        invariant
            j <= n,
            n == v@.len(),
            v@ == digits@,
            forall|k: int| 0 <= k < j ==> is_dec_digit(v@[k]),
        decreases n - j,
    {
        let c = v[j];
        if !('0' <= c && c <= '9') {
            proof {
                assert(!is_dec_digit(digits@[j as int]));
            }
            return Err(VerifyCardNumberError::InvalidDigit);
        }
        j = j + 1;
    }

    proof {
        assert(vstd::utf8::is_ascii_chars(digits@));
        vstd::utf8::is_ascii_chars_encode_utf8(digits@);
        assert(n == 16);
    }
    let mut sum: u32 = 0;
    let mut i: usize = 0;
    while i < n
        invariant
            i <= n,
            n == v@.len(),
            n == 16,
            forall|k: int| 0 <= k < n ==> is_dec_digit(v@[k]),
            sum <= 9 * i,
            card_sum_from(v@, 0) == sum + card_sum_from(v@, i as int),
        decreases n - i,
    {
        let c = v[i];
        let d: u32 = (c as u32) - ('0' as u32);
        let sub: u32 = if i % 2 == 0 {
            d * 2
        } else {
            d
        };
        let w: u32 = if sub > 9 {
            sub - 9
        } else {
            sub
        };
        proof {
            assert(w == card_digit_weight(v@[i as int], i as int));
            assert(w <= 9);
        }
        sum = sum + w;
        i = i + 1;
    }
    proof {
        assert(card_sum_from(v@, n as int) == 0);
    }
    if sum % 10 == 0 {
        Ok(())
    } else {
        Err(VerifyCardNumberError::InvalidCardNumber)
    }
}

} // verus!

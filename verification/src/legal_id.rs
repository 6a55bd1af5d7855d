//! Validation of the Iranian legal-entity identifier.

use vstd::prelude::*;
use vstd::string::StringSliceAdditionalSpecFns;
use crate::text::chars_of;
use crate::text::digit_val;
use crate::text::is_dec_digit;

verus! {

/// What can go wrong when validating a legal-entity identifier.
#[derive(Debug, PartialEq, Eq, Structural, Clone, Copy, Hash)]
pub enum VerifyLegalIdError {
    /// The input is not eleven bytes long.
    InvalidLength,
    /// A character is not a decimal digit.
    InvalidDigit,
    /// The digits form a degenerate identifier.
    Invalid,
    /// The check digit does not match.
    InvalidChecksum,
    /// A lookup that cannot fail failed; marks a defect, not an input.
    InternalError,
}

/// The cyclic weight for digit position `i`.
pub open spec fn legal_id_weight(i: int) -> int {
    let k = i % 5;
    if k == 0 {
        29
    } else if k == 1 {
        27
    } else if k == 2 {
        23
    } else if k == 3 {
        19
    } else {
        17
    }
}

/// The weighted sum of the first ten digits, each shifted by the decade
/// digit plus two.
pub open spec fn legal_id_sum(s: Seq<char>, d: int, i: int) -> int
    decreases 10 - i,
{
    if i < 0 || i >= 10 {
        0
    } else {
        (d + digit_val(s[i])) * legal_id_weight(i) + legal_id_sum(s, d, i + 1)
    }
}

/// The check digit that the first ten digits demand.
pub open spec fn legal_id_checksum(s: Seq<char>) -> int {
    let d = digit_val(s[9]) + 2;
    let sum = legal_id_sum(s, d, 0) % 11;
    if sum == 10 {
        0
    } else {
        sum
    }
}

/// What validating a legal-entity identifier yields, given its characters
/// and its length in bytes.
pub open spec fn legal_id_spec(s: Seq<char>, byte_len: int) -> Result<(), VerifyLegalIdError> {
    if byte_len != 11 {
        Err(VerifyLegalIdError::InvalidLength)
    } else if exists|i: int| 0 <= i < s.len() && !is_dec_digit(s[i]) {
        Err(VerifyLegalIdError::InternalError)
    } else if forall|i: int| 0 <= i < s.len() ==> digit_val(s[i]) == 0 {
        Err(VerifyLegalIdError::Invalid)
    } else if forall|i: int| 3 <= i < 9 ==> digit_val(s[i]) == 0 {
        Err(VerifyLegalIdError::Invalid)
    } else if digit_val(s[10]) == legal_id_checksum(s) {
        Ok(())
    } else {
        Err(VerifyLegalIdError::InvalidChecksum)
    }
}

/// Validates an Iranian legal-entity identifier: eleven digits, not
/// degenerate, whose last digit matches the cyclic weighted checksum of the
/// first ten.
#[verifier::loop_isolation(false)]
pub fn verify_iranian_legal_id(legal_id: &str) -> (r: Result<(), VerifyLegalIdError>)
    ensures
        r == legal_id_spec(legal_id@, legal_id.spec_bytes().len() as usize as int),
{
    if legal_id.len() != 11 {
        return Err(VerifyLegalIdError::InvalidLength);
    }
    let v = chars_of(legal_id);
    let n = v.len();

    let mut j: usize = 0;
    while j < n
        invariant
            j <= n,
            n == v@.len(),
            v@ == legal_id@,
            forall|k: int| 0 <= k < j ==> is_dec_digit(v@[k]),
        decreases n - j,
    {
        let c = v[j];
        if !('0' <= c && c <= '9') {
            proof {
                assert(!is_dec_digit(legal_id@[j as int]));
            }
            return Err(VerifyLegalIdError::InternalError);
        }
        j = j + 1;
    }
    proof {
        // eleven single-byte digits means eleven characters
        assert(vstd::utf8::is_ascii_chars(legal_id@));
        vstd::utf8::is_ascii_chars_encode_utf8(legal_id@);
        assert(v@.len() == 11);
    }

    let mut all_zero = true;
    let mut k: usize = 0;
    while k < n
        invariant
            k <= n,
            n == v@.len(),
            forall|m: int| 0 <= m < n ==> is_dec_digit(v@[m]),
            all_zero == forall|m: int| 0 <= m < k ==> digit_val(v@[m]) == 0,
        decreases n - k,
    {
        if v[k] != '0' {
            all_zero = false;
            proof {
                assert(digit_val(v@[k as int]) != 0);
            }
        }
        k = k + 1;
    }
    if all_zero {
        return Err(VerifyLegalIdError::Invalid);
    }

    let mut mid_zero = true;
    let mut m: usize = 3;
    while m < 9
        invariant
            3 <= m <= 9,
            n == v@.len(),
            n == 11,
            forall|q: int| 0 <= q < n ==> is_dec_digit(v@[q]),
            mid_zero == forall|q: int| 3 <= q < m ==> digit_val(v@[q]) == 0,
        decreases 9 - m,
    {
        if v[m] != '0' {
            mid_zero = false;
            proof {
                assert(digit_val(v@[m as int]) != 0);
            }
        }
        m = m + 1;
    }
    if mid_zero {
        return Err(VerifyLegalIdError::Invalid);
    }

    let d: u64 = digit_at(&v, 9) + 2;
    let mut sum: u64 = 0;
    let mut i: usize = 0;
    while i < 10
        invariant
            i <= 10,
            n == v@.len(),
            n == 11,
            forall|q: int| 0 <= q < n ==> is_dec_digit(v@[q]),
            d <= 11,
            d == digit_val(v@[9]) + 2,
            sum <= 600 * i,
            legal_id_sum(v@, d as int, 0) == sum + legal_id_sum(v@, d as int, i as int),
        decreases 10 - i,
    {
        let w: u64 = weight_at(i);
        let g: u64 = d + digit_at(&v, i);
        proof {
            assert(g * w <= 600) by (nonlinear_arith)
                requires
                    0 <= g <= 20,
                    0 <= w <= 29,
            ;
        }
        let t: u64 = g * w;
        proof {
            assert(t == (d + digit_val(v@[i as int])) * legal_id_weight(i as int));
        }
        sum = sum + t;
        i = i + 1;
    }
    sum = sum % 11;
    let calculated: u64 = if sum == 10 {
        0
    } else {
        sum
    };
    let extracted: u64 = digit_at(&v, 10);
    if extracted == calculated {
        Ok(())
    } else {
        Err(VerifyLegalIdError::InvalidChecksum)
    }
}

fn digit_at(v: &Vec<char>, i: usize) -> (r: u64)
    requires
        i < v@.len(),
        is_dec_digit(v@[i as int]),
    ensures
        r == digit_val(v@[i as int]),
        r <= 9,
{
    let c = v[i];
    (c as u32 as u64) - ('0' as u32 as u64)
}

fn weight_at(i: usize) -> (r: u64)
    ensures
        r == legal_id_weight(i as int),
        r <= 29,
{
    match i % 5 {
        0 => 29,
        1 => 27,
        2 => 23,
        3 => 19,
        _ => 17,
    }
}

} // verus!

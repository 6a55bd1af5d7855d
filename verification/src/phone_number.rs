//! Iranian mobile phone numbers: validity, dialing prefixes, and operators.

pub mod operators;

use vstd::prelude::*;
use vstd::string::StringSliceAdditionalSpecFns;
use vstd::string::StrSliceExecFns;
use crate::text::chars_of;
use crate::text::starts_with_str;
use crate::text::extend_with_str;
use crate::text::string_from_chars;

verus! {

/// What can go wrong with a phone number.
#[derive(Clone, Debug, Hash, PartialEq, Eq)]
pub enum PhoneNumberError {
    /// The prefix names no known operator code.
    InvalidPrefix(String),
    /// The number is not a valid mobile number.
    InvalidFormat,
    /// A step that cannot fail failed; marks a defect, not an input.
    Unknown,
}

/// Whether `s` begins with `p`.
pub open spec fn has_prefix(s: Seq<char>, p: Seq<char>) -> bool {
    s.len() >= p.len() && s.take(p.len() as int) == p
}

/// The dialing prefix of a number: the first match among the international,
/// bare, double-zero and domestic forms.
pub open spec fn matched_prefix(s: Seq<char>) -> Option<Seq<char>> {
    if has_prefix(s, "+98"@) {
        Some("+98"@)
    } else if has_prefix(s, "98"@) {
        Some("98"@)
    } else if has_prefix(s, "0098"@) {
        Some("0098"@)
    } else if has_prefix(s, "0"@) {
        Some("0"@)
    } else {
        None
    }
}

/// The character length of the matched dialing prefix; zero without one.
pub open spec fn matched_prefix_len(s: Seq<char>) -> int {
    match matched_prefix(s) {
        Some(p) => p.len() as int,
        None => 0,
    }
}

/// Whether the number is a valid mobile number: after its dialing prefix,
/// exactly ten bytes remain and the first is the mobile mark.
pub open spec fn phone_valid(s: Seq<char>, bl: int) -> bool {
    let pl = matched_prefix_len(s);
    bl - pl == 10 && pl < s.len() && s[pl] == '9'
}

fn prefix_of(v: &Vec<char>) -> (r: Option<(&'static str, usize)>)
    ensures
        match r {
            Some((p, n)) => matched_prefix(v@) matches Some(x) && p@ == x && n == x.len(),
            None => matched_prefix(v@) is None,
        },
{
    proof {
        reveal_strlit("+98");
        reveal_strlit("98");
        reveal_strlit("0098");
        reveal_strlit("0");
    }
    if starts_with_str(v, "+98") {
        Some(("+98", 3))
    } else if starts_with_str(v, "98") {
        Some(("98", 2))
    } else if starts_with_str(v, "0098") {
        Some(("0098", 4))
    } else if starts_with_str(v, "0") {
        Some(("0", 1))
    } else {
        None
    }
}

/// Checks that a number is a valid mobile number: after the dialing prefix,
/// ten bytes beginning with the mobile mark.
pub fn is_phone_valid(phone_number: &str) -> (r: Result<(), PhoneNumberError>)
    ensures
        r is Ok <==> phone_valid(phone_number@, phone_number.spec_bytes().len() as usize as int),
        r is Err ==> r == Err::<(), PhoneNumberError>(PhoneNumberError::InvalidFormat),
{
    let v = chars_of(phone_number);
    let bl = phone_number.len();
    let plen: usize = match prefix_of(&v) {
        Some((_, n)) => n,
        None => 0,
    };
    if bl >= plen && bl - plen == 10 && plen < v.len() && v[plen] == '9' {
        Ok(())
    } else {
        Err(PhoneNumberError::InvalidFormat)
    }
}

/// The dialing prefix of a number, when it carries one.
pub fn get_phone_prefix(phone_number: &str) -> (r: Result<&'static str, PhoneNumberError>)
    ensures
        match r {
            Ok(p) => matched_prefix(phone_number@) matches Some(x) && p@ == x,
            Err(e) => matched_prefix(phone_number@) is None && e == PhoneNumberError::InvalidFormat,
        },
{
    let v = chars_of(phone_number);
    match prefix_of(&v) {
        Some((p, _)) => Ok(p),
        None => Err(PhoneNumberError::InvalidFormat),
    }
}

/// Rewrites a valid number onto the given dialing prefix.
pub fn phone_number_normalizer(phone_number: &str, new_prefix: &str) -> (r: Result<
    String,
    PhoneNumberError,
>)
    ensures
        ({
            let s = phone_number@;
            let bl = phone_number.spec_bytes().len() as usize as int;
            if phone_valid(s, bl) {
                r matches Ok(out) && out@ == new_prefix@ + s.skip(matched_prefix_len(s))
            } else {
                r == Err::<String, PhoneNumberError>(PhoneNumberError::InvalidFormat)
            }
        }),
{
    let v = chars_of(phone_number);
    match is_phone_valid(phone_number) {
        Ok(()) => (),
        Err(_) => {
            return Err(PhoneNumberError::InvalidFormat);
        },
    }
    let plen: usize = match prefix_of(&v) {
        Some((_, n)) => n,
        None => 0,
    };
    let mut out: Vec<char> = Vec::new();
    extend_with_str(&mut out, new_prefix);
    let ghost o0 = out@;
    let mut i: usize = plen;
    while i < v.len()
        invariant
            plen <= i <= v@.len(),
            out@ == o0 + v@.subrange(plen as int, i as int),
        decreases v@.len() - i,
    {
        proof {
            assert(out@.push(v@[i as int]) =~= o0 + v@.subrange(plen as int, i + 1));
        }
        out.push(v[i]);
        i = i + 1;
    }
    proof {
        assert(Seq::<char>::empty() + new_prefix@ =~= new_prefix@);
        assert(out@ =~= new_prefix@ + phone_number@.skip(matched_prefix_len(phone_number@)));
    }
    Ok(string_from_chars(&out))
}

/// The three digits naming the operator: the digits right after the dialing
/// prefix of a valid number.
pub fn get_operator_prefix(phone_number: &str) -> (r: Result<&str, PhoneNumberError>)
    ensures
        ({
            let s = phone_number@;
            let bl = phone_number.spec_bytes().len() as usize as int;
            if phone_valid(s, bl) && matched_prefix_len(s) + 3 <= s.len() {
                r matches Ok(p) && p@ == s.subrange(
                    matched_prefix_len(s),
                    matched_prefix_len(s) + 3,
                )
            } else {
                r == Err::<&str, PhoneNumberError>(PhoneNumberError::InvalidFormat)
            }
        }),
{
    let v = chars_of(phone_number);
    match is_phone_valid(phone_number) {
        Ok(()) => (),
        Err(_) => {
            return Err(PhoneNumberError::InvalidFormat);
        },
    }
    let plen: usize = match prefix_of(&v) {
        Some((_, n)) => n,
        None => 0,
    };
    let n = phone_number.unicode_len();
    if plen + 3 > n {
        return Err(PhoneNumberError::InvalidFormat);
    }
    Ok(phone_number.substring_char(plen, plen + 3))
}

} // verus!

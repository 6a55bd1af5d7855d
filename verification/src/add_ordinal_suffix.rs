//! Adding the Persian ordinal suffix to a numeral word.

use vstd::prelude::*;
use crate::text::chars_of;
use crate::text::ends_with_str;
use crate::text::extend_with_str;
use crate::text::string_from_chars;

verus! {

use crate::remove_ordinal_suffix::ends_with;

/// `w` with the ordinal particle attached: a word ending in the long vowel
/// takes the detached particle, the cardinal three contracts, and every other
/// word takes the bare final letter.
pub open spec fn with_ordinal(w: Seq<char>) -> Seq<char> {
    if ends_with(w, "ی"@) {
        w + " اُم"@
    } else if ends_with(w, "سه"@) {
        w.take(w.len() - 1) + "وم"@
    } else {
        w + "م"@
    }
}

fn with_ordinal_chars(v: &Vec<char>) -> (r: Vec<char>)
    ensures
        r@ == with_ordinal(v@),
{
    proof {
        reveal_strlit("ی");
        reveal_strlit("سه");
    }
    if ends_with_str(v, "ی") {
        let mut r: Vec<char> = Vec::new();
        crate::text::extend_with_chars(&mut r, v);
        extend_with_str(&mut r, " اُم");
        proof {
            assert(Seq::<char>::empty() + v@ =~= v@);
        }
        r
    } else if ends_with_str(v, "سه") {
        let mut r: Vec<char> = Vec::new();
        let mut i: usize = 0;
        let k = v.len() - 1;
        while i < k
            invariant
                i <= k <= v@.len(),
                r@ == v@.subrange(0, i as int),
            decreases k - i,
        {
            proof {
                assert(r@.push(v@[i as int]) =~= v@.subrange(0, i + 1));
            }
            r.push(v[i]);
            i = i + 1;
        }
        proof {
            assert(v@.subrange(0, k as int) =~= v@.take(v@.len() - 1));
        }
        extend_with_str(&mut r, "وم");
        r
    } else {
        let mut r: Vec<char> = Vec::new();
        crate::text::extend_with_chars(&mut r, v);
        extend_with_str(&mut r, "م");
        proof {
            assert(Seq::<char>::empty() + v@ =~= v@);
        }
        r
    }
}

/// Appends the Persian ordinal suffix to a numeral word.
pub fn add_ordinal_suffix(number: &str) -> (r: String)
    ensures
        r@ == with_ordinal(number@),
{
    let v = chars_of(number);
    let out = with_ordinal_chars(&v);
    string_from_chars(&out)
}

/// Appends the Persian ordinal suffix in place.
pub fn add_ordinal_suffix_mut(number: &mut String)
    ensures
        final(number)@ == with_ordinal(old(number)@),
{
    let v = chars_of(number.as_str());
    let out = with_ordinal_chars(&v);
    *number = string_from_chars(&out);
}

/// Ordinal-suffix addition as a method.
pub trait AddOrdinalSuffix {
    fn add_persian_ordinal_suffix(&self) -> String;
}

/// In-place ordinal-suffix addition as a method.
pub trait AddOrdinalSuffixMut {
    fn add_persian_ordinal_suffix_mut(&mut self);
}

impl AddOrdinalSuffix for str {
    fn add_persian_ordinal_suffix(&self) -> String {
        add_ordinal_suffix(self)
    }
}

impl AddOrdinalSuffix for String {
    fn add_persian_ordinal_suffix(&self) -> String {
        add_ordinal_suffix(self.as_str())
    }
}

impl AddOrdinalSuffixMut for String {
    fn add_persian_ordinal_suffix_mut(&mut self) {
        add_ordinal_suffix_mut(self)
    }
}

} // verus!

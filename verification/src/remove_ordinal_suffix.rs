//! Removing the Persian ordinal suffix from a numeral word.

use vstd::prelude::*;
use crate::text::chars_of;
use crate::text::ends_with_str;
use crate::text::extend_with_str;
use crate::text::string_from_chars;
use crate::text::trim_chars;
use crate::text::trim_spec;

verus! {

/// Whether `w` ends with the characters of `suf`.
pub open spec fn ends_with(w: Seq<char>, suf: Seq<char>) -> bool {
    w.len() >= suf.len() && w.subrange(w.len() - suf.len(), w.len() as int) == suf
}

/// `w` with a trailing ordinal particle removed: the longer particles are
/// recognised before the bare final letter, and the contracted ordinal of
/// three is put back into its cardinal form. A word without a suffix is kept.
pub open spec fn strip_ordinal(w: Seq<char>) -> Seq<char> {
    if ends_with(w, "مین"@) {
        w.take(w.len() - 3)
    } else if ends_with(w, "اُم"@) {
        trim_spec(w.take(w.len() - 3))
    } else if ends_with(w, "ام"@) {
        trim_spec(w.take(w.len() - 2))
    } else if ends_with(w, "سوم"@) {
        w.take(w.len() - 3) + "سه"@
    } else if ends_with(w, "م"@) {
        w.take(w.len() - 1)
    } else {
        w
    }
}

fn take_prefix(v: &Vec<char>, k: usize) -> (r: Vec<char>)
    requires
        k <= v@.len(),
    ensures
        r@ == v@.take(k as int),
{
    let mut r: Vec<char> = Vec::new();
    let mut i: usize = 0;
    while i < k
        invariant
            i <= k <= v@.len(),
            r@ == v@.subrange(0, i as int),
        decreases k - i,
    {
        proof {
            assert(r@.push(v@[i as int]) =~= v@.subrange(0, i + 1));
        }
        r.push(v[i]);
        i = i + 1;
    }
    proof {
        assert(v@.subrange(0, k as int) =~= v@.take(k as int));
    }
    r
}

/// Removes a trailing ordinal particle from the characters of a single word.
pub(crate) fn strip_ordinal_chars(v: &Vec<char>) -> (r: Vec<char>)
    ensures
        r@ == strip_ordinal(v@),
{
    proof {
        reveal_strlit("مین");
        reveal_strlit("اُم");
        reveal_strlit("ام");
        reveal_strlit("سوم");
        reveal_strlit("م");
        reveal_strlit("سه");
    }
    if ends_with_str(v, "مین") {
        take_prefix(v, v.len() - 3)
    } else if ends_with_str(v, "اُم") {
        let head = take_prefix(v, v.len() - 3);
        trim_chars(&head)
    } else if ends_with_str(v, "ام") {
        let head = take_prefix(v, v.len() - 2);
        trim_chars(&head)
    } else if ends_with_str(v, "سوم") {
        let mut head = take_prefix(v, v.len() - 3);
        extend_with_str(&mut head, "سه");
        head
    } else if ends_with_str(v, "م") {
        take_prefix(v, v.len() - 1)
    } else {
        let mut r: Vec<char> = Vec::new();
        crate::text::extend_with_chars(&mut r, v);
        proof {
            assert(r@ =~= v@);
        }
        r
    }
}

/// Removes a trailing Persian ordinal suffix from a numeral word; a word
/// without one is returned unchanged.
pub fn remove_ordinal_suffix(word: &str) -> (r: String)
    ensures
        r@ == strip_ordinal(word@),
{
    let v = chars_of(word);
    let out = strip_ordinal_chars(&v);
    string_from_chars(&out)
}

/// Removes a trailing Persian ordinal suffix in place.
pub fn remove_ordinal_suffix_mut(word: &mut String)
    ensures
        final(word)@ == strip_ordinal(old(word)@),
{
    let v = chars_of(word.as_str());
    let out = strip_ordinal_chars(&v);
    *word = string_from_chars(&out);
}

/// Ordinal-suffix removal as a method.
pub trait RemoveOrdinalSuffix {
    fn remove_ordinal_suffix(&self) -> String;
}

/// In-place ordinal-suffix removal as a method.
pub trait RemoveOrdinalSuffixMut {
    fn remove_ordinal_suffix_mut(&mut self);
}

impl RemoveOrdinalSuffix for str {
    fn remove_ordinal_suffix(&self) -> String {
        remove_ordinal_suffix(self)
    }
}

impl RemoveOrdinalSuffix for String {
    fn remove_ordinal_suffix(&self) -> String {
        remove_ordinal_suffix(self.as_str())
    }
}

impl RemoveOrdinalSuffixMut for String {
    fn remove_ordinal_suffix_mut(&mut self) {
        remove_ordinal_suffix_mut(self)
    }
}

} // verus!

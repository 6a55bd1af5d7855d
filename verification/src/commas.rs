//! Thousands separators: removing commas from a number string and inserting
//! them into one.

use vstd::prelude::*;
use crate::text::chars_of;
use crate::text::string_from_chars;

verus! {

/// `s` with every comma removed.
pub open spec fn without_commas(s: Seq<char>) -> Seq<char>
    decreases s.len(),
{
    if s.len() == 0 {
        seq![]
    } else if s[0] == ',' {
        without_commas(s.drop_first())
    } else {
        seq![s[0]] + without_commas(s.drop_first())
    }
}

/// The comma-free characters of `v`, in order.
pub fn remove_commas_chars(v: &Vec<char>) -> (r: Vec<char>)
    ensures
        r@ == without_commas(v@),
{
    let mut r: Vec<char> = Vec::new();
    let mut i: usize = 0;
    proof {
        assert(v@.skip(0) =~= v@);
    }
    while i < v.len()
        invariant
            i <= v@.len(),
            without_commas(v@) == r@ + without_commas(v@.skip(i as int)),
        decreases v@.len() - i,
    {
        let ghost pending = v@.skip(i as int);
        proof {
            assert(pending.drop_first() =~= v@.skip(i + 1));
        }
        let c = v[i];
        if c != ',' {
            proof {
                assert((r@ + seq![pending[0]]) + without_commas(pending.drop_first()) =~= r@ + (
                seq![pending[0]] + without_commas(pending.drop_first())));
            }
            r.push(c);
        }
        i = i + 1;
    }
    proof {
        assert(v@.skip(i as int).len() == 0);
        assert(r@ =~= without_commas(v@));
    }
    r
}

/// Removes all commas: `3,000,000` becomes `3000000`.
pub fn remove_commas(text: &str) -> (r: String)
    ensures
        r@ == without_commas(text@),
{
    let v = chars_of(text);
    let out = remove_commas_chars(&v);
    string_from_chars(&out)
}

/// Removes all commas in place.
pub fn remove_commas_mut(text: &mut String)
    ensures
        final(text)@ == without_commas(old(text)@),
{
    let v = chars_of(text.as_str());
    let out = remove_commas_chars(&v);
    *text = string_from_chars(&out);
}

/// Comma removal as a method.
pub trait RemoveCommas {
    fn remove_commas(&self) -> String;
}

impl RemoveCommas for str {
    fn remove_commas(&self) -> String {
        remove_commas(self)
    }
}

impl RemoveCommas for String {
    fn remove_commas(&self) -> String {
        remove_commas(self.as_str())
    }
}

/// Where the integer part of `s` ends: the index of the first dot, or the
/// length if there is none.
pub open spec fn first_dot_idx(s: Seq<char>) -> int
    decreases s.len(),
{
    if s.len() == 0 {
        0
    } else if s[0] == '.' {
        0
    } else {
        1 + first_dot_idx(s.drop_first())
    }
}

/// The characters of `t` from `i` up to `end`, with a comma before every
/// position from which a multiple of three digits remains.
pub open spec fn grouped_from(t: Seq<char>, end: int, i: int) -> Seq<char>
    decreases end - i,
{
    if i < 0 || i >= end {
        seq![]
    } else {
        let rest = seq![t[i]] + grouped_from(t, end, i + 1);
        if i != 0 && (end - i) % 3 == 0 {
            seq![','] + rest
        } else {
            rest
        }
    }
}

/// `s` with commas grouping the digits before the first dot, three at a
/// time; existing commas are discarded first.
pub open spec fn add_commas_spec(s: Seq<char>) -> Seq<char> {
    let t = without_commas(s);
    let end = first_dot_idx(t);
    grouped_from(t, end, 0) + t.skip(end)
}

proof fn lemma_first_dot_at(s: Seq<char>, k: int)
    requires
        0 <= k <= s.len(),
        forall|j: int| 0 <= j < k ==> s[j] != '.',
        k < s.len() ==> s[k] == '.',
    ensures
        first_dot_idx(s) == k,
    decreases k,
{
    if k == 0 {
    } else {
        lemma_first_dot_at(s.drop_first(), k - 1);
    }
}

/// Inserts thousands separators: `30000000` becomes `30,000,000`. The part
/// after a decimal point is left as it is.
pub fn add_commas(number_str: &str) -> (r: String)
    ensures
        r@ == add_commas_spec(number_str@),
{
    let v = chars_of(number_str);
    let t = remove_commas_chars(&v);
    let n = t.len();
    let mut end: usize = 0;
    while end < n && t[end] != '.'
        invariant
            end <= n,
            n == t@.len(),
            forall|j: int| 0 <= j < end ==> t@[j] != '.',
        decreases n - end,
    {
        end = end + 1;
    }
    proof {
        lemma_first_dot_at(t@, end as int);
    }
    let mut r: Vec<char> = Vec::new();
    let mut i: usize = 0;
    while i < end
        invariant
            i <= end,
            end <= n,
            n == t@.len(),
            grouped_from(t@, end as int, 0) == r@ + grouped_from(t@, end as int, i as int),
        decreases end - i,
    {
        if i != 0 && (end - i) % 3 == 0 {
            proof {
                assert((r@ + seq![',']) + (seq![t@[i as int]] + grouped_from(
                    t@,
                    end as int,
                    i + 1,
                )) =~= r@ + grouped_from(t@, end as int, i as int));
            }
            r.push(',');
            proof {
                assert((r@ + seq![t@[i as int]]) + grouped_from(t@, end as int, i + 1) =~= r@ + (
                seq![t@[i as int]] + grouped_from(t@, end as int, i + 1)));
            }
            r.push(t[i]);
        } else {
            proof {
                assert((r@ + seq![t@[i as int]]) + grouped_from(t@, end as int, i + 1) =~= r@ + (
                seq![t@[i as int]] + grouped_from(t@, end as int, i + 1)));
            }
            r.push(t[i]);
        }
        i = i + 1;
    }
    let ghost r_groups = r@;
    let mut k: usize = end;
    while k < n
        invariant
            end <= k <= n,
            n == t@.len(),
            r@ == r_groups + t@.subrange(end as int, k as int),
        decreases n - k,
    {
        proof {
            assert(r@.push(t@[k as int]) =~= r_groups + t@.subrange(end as int, k + 1));
        }
        r.push(t[k]);
        k = k + 1;
    }
    proof {
        assert(t@.subrange(end as int, n as int) =~= t@.skip(end as int));
        assert(r@ =~= add_commas_spec(number_str@));
    }
    string_from_chars(&r)
}

/// Inserts thousands separators in place.
pub fn add_commas_mut(number_str: &mut String)
    ensures
        final(number_str)@ == add_commas_spec(old(number_str)@),
{
    let s = add_commas(number_str.as_str());
    *number_str = s;
}

/// Thousands-separator insertion as a method.
pub trait AddCommas {
    fn add_commas(&self) -> String;
}

impl AddCommas for str {
    fn add_commas(&self) -> String {
        add_commas(self)
    }
}

impl AddCommas for String {
    fn add_commas(&self) -> String {
        add_commas(self.as_str())
    }
}

} // verus!

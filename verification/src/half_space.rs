//! Joining and separating Persian words with the half space.

use vstd::prelude::*;
use crate::text::chars_of;
use crate::text::replace_all;
use crate::text::replace_chars;
use crate::text::string_from_chars;
use crate::text::trim_chars;
use crate::text::trim_spec;

verus! {

/// A character of the half-space removal: the half space becomes a plain
/// space.
pub open spec fn half_space_to_space(c: char) -> char {
    if c == '\u{200c}' {
        ' '
    } else {
        c
    }
}

/// The text with soft hyphens dropped and half spaces turned into spaces.
pub open spec fn remove_half_space_spec(s: Seq<char>) -> Seq<char>
    decreases s.len(),
{
    if s.len() == 0 {
        Seq::empty()
    } else if s[0] == '\u{ad}' {
        remove_half_space_spec(s.drop_first())
    } else {
        seq![half_space_to_space(s[0])] + remove_half_space_spec(s.drop_first())
    }
}

fn remove_half_space_chars(v: &Vec<char>) -> (r: Vec<char>)
    ensures
        r@ == remove_half_space_spec(v@),
{
    let mut r: Vec<char> = Vec::new();
    let mut i: usize = 0;
    proof {
        assert(v@.skip(0) =~= v@);
    }
    while i < v.len()
        invariant
            i <= v@.len(),
            remove_half_space_spec(v@) == r@ + remove_half_space_spec(v@.skip(i as int)),
        decreases v@.len() - i,
    {
        let ghost pending = v@.skip(i as int);
        proof {
            assert(pending.drop_first() =~= v@.skip(i + 1));
        }
        let c = v[i];
        if c != '\u{ad}' {
            let out = if c == '\u{200c}' {
                ' '
            } else {
                c
            };
            proof {
                assert((r@ + seq![half_space_to_space(pending[0])]) + remove_half_space_spec(
                    pending.drop_first(),
                ) =~= r@ + (seq![half_space_to_space(pending[0])] + remove_half_space_spec(
                    pending.drop_first(),
                )));
            }
            r.push(out);
        }
        i = i + 1;
    }
    proof {
        assert(v@.skip(i as int).len() == 0);
        assert(r@ =~= remove_half_space_spec(v@));
    }
    r
}

/// Drops soft hyphens and turns half spaces into plain spaces.
pub fn remove_half_space(input: &str) -> (r: String)
    ensures
        r@ == remove_half_space_spec(input@),
{
    let v = chars_of(input);
    let out = remove_half_space_chars(&v);
    string_from_chars(&out)
}

fn replace_lit(v: &Vec<char>, pat: &str, rep: &str) -> (r: Vec<char>)
    requires
        pat@.len() > 0,
    ensures
        r@ == replace_all(v@, pat@, rep@),
{
    let p = chars_of(pat);
    let q = chars_of(rep);
    replace_chars(v, &p, &q)
}

/// Where the first space of `s` sits, or the length if there is none.
pub open spec fn first_space_idx(s: Seq<char>) -> int
    decreases s.len(),
{
    if s.len() == 0 {
        0
    } else if s[0] == ' ' {
        0
    } else {
        1 + first_space_idx(s.drop_first())
    }
}

proof fn lemma_first_space_at(s: Seq<char>, k: int)
    requires
        0 <= k <= s.len(),
        forall|j: int| 0 <= j < k ==> s[j] != ' ',
        k < s.len() ==> s[k] == ' ',
    ensures
        first_space_idx(s) == k,
    decreases k,
{
    if k == 0 {
    } else {
        lemma_first_space_at(s.drop_first(), k - 1);
    }
}

/// The word-joining replacements applied to a text that was trimmed and had
/// its half spaces removed.
pub open spec fn joined_words(t: Seq<char>) -> Seq<char> {
    replace_all(replace_all(replace_all(replace_all(replace_all(replace_all(replace_all(replace_all(replace_all(replace_all(replace_all(replace_all(replace_all(replace_all(replace_all(replace_all(replace_all(replace_all(replace_all(replace_all(replace_all(t, " می "@, " می\u{200c}"@), " نمی "@, " نمی\u{200c}"@), "\u{200c} بی "@, " \u{200c}بی\u{200c}\u{200c}"@), " ام "@, "\u{200c}ام\u{200c}\u{200c}"@), " ات "@, "\u{200c}ات\u{200c}\u{200c}"@), " اش "@, "\u{200c}اش\u{200c}\u{200c}"@), " ای "@, "\u{200c}ای\u{200c}\u{200c}"@), " اید "@, "\u{200c}اید\u{200c}\u{200c}"@), " ایم "@, "\u{200c}ایم\u{200c}\u{200c}"@), " اند "@, "\u{200c}اند\u{200c}\u{200c}"@), " های "@, "\u{200c}های "@), " ها "@, "\u{200c}ها "@), " تر "@, "\u{200c}تر "@), " تری "@, "\u{200c}تری "@), " هایی "@, "\u{200c}هایی\u{200c}\u{200c}"@), " هایم "@, "\u{200c}هایم\u{200c}\u{200c}"@), " هایت "@, "\u{200c}هایت\u{200c}\u{200c}"@), " هایش "@, "\u{200c}هایش\u{200c}\u{200c}"@), " هایمان "@, "\u{200c}هایمان\u{200c}\u{200c}"@), " هایتان "@, "\u{200c}هایتان\u{200c}\u{200c}"@), " هایشان "@, "\u{200c}هایشان\u{200c}\u{200c}"@)
}

/// Whether `s` begins with `p`.
pub open spec fn begins_with(s: Seq<char>, p: Seq<char>) -> bool {
    s.len() >= p.len() && s.take(p.len() as int) == p
}

/// The half space put back between joined words: the common verbal and
/// plural particles are reattached with the half space, and a leading verbal
/// prefix joins the word after it.
pub open spec fn add_half_space_spec(s: Seq<char>) -> Seq<char> {
    let r = joined_words(remove_half_space_spec(trim_spec(s)));
    let sp = first_space_idx(r);
    if begins_with(r, "\u{645}\u{6cc}"@) && sp < r.len() {
        "\u{645}\u{6cc}\u{200c}"@ + r.skip(sp + 1)
    } else if begins_with(r, "\u{646}\u{645}\u{6cc}"@) && sp < r.len() {
        "\u{646}\u{645}\u{6cc}\u{200c}"@ + r.skip(sp + 1)
    } else if begins_with(r, "\u{628}\u{6cc}"@) && sp < r.len() {
        "\u{200c}\u{628}\u{6cc}\u{200c}\u{200c}"@ + r.skip(sp + 1)
    } else {
        r
    }
}

/// Joins the common verbal and plural particles to their words with the
/// half space.
#[verifier::loop_isolation(false)]
pub fn add_half_space(input: &str) -> (r: String)
    ensures
        r@ == add_half_space_spec(input@),
{
    let v = chars_of(input);
    let trimmed = trim_chars(&v);
    let r0 = remove_half_space_chars(&trimmed);
    proof { reveal_strlit(" می "); }
    let r1 = replace_lit(&r0, " می ", " می\u{200c}");
    proof { reveal_strlit(" نمی "); }
    let r2 = replace_lit(&r1, " نمی ", " نمی\u{200c}");
    proof { reveal_strlit("\u{200c} بی "); }
    let r3 = replace_lit(&r2, "\u{200c} بی ", " \u{200c}بی\u{200c}\u{200c}");
    proof { reveal_strlit(" ام "); }
    let r4 = replace_lit(&r3, " ام ", "\u{200c}ام\u{200c}\u{200c}");
    proof { reveal_strlit(" ات "); }
    let r5 = replace_lit(&r4, " ات ", "\u{200c}ات\u{200c}\u{200c}");
    proof { reveal_strlit(" اش "); }
    let r6 = replace_lit(&r5, " اش ", "\u{200c}اش\u{200c}\u{200c}");
    proof { reveal_strlit(" ای "); }
    let r7 = replace_lit(&r6, " ای ", "\u{200c}ای\u{200c}\u{200c}");
    proof { reveal_strlit(" اید "); }
    let r8 = replace_lit(&r7, " اید ", "\u{200c}اید\u{200c}\u{200c}");
    proof { reveal_strlit(" ایم "); }
    let r9 = replace_lit(&r8, " ایم ", "\u{200c}ایم\u{200c}\u{200c}");
    proof { reveal_strlit(" اند "); }
    let r10 = replace_lit(&r9, " اند ", "\u{200c}اند\u{200c}\u{200c}");
    proof { reveal_strlit(" های "); }
    let r11 = replace_lit(&r10, " های ", "\u{200c}های ");
    proof { reveal_strlit(" ها "); }
    let r12 = replace_lit(&r11, " ها ", "\u{200c}ها ");
    proof { reveal_strlit(" تر "); }
    let r13 = replace_lit(&r12, " تر ", "\u{200c}تر ");
    proof { reveal_strlit(" تری "); }
    let r14 = replace_lit(&r13, " تری ", "\u{200c}تری ");
    proof { reveal_strlit(" هایی "); }
    let r15 = replace_lit(&r14, " هایی ", "\u{200c}هایی\u{200c}\u{200c}");
    proof { reveal_strlit(" هایم "); }
    let r16 = replace_lit(&r15, " هایم ", "\u{200c}هایم\u{200c}\u{200c}");
    proof { reveal_strlit(" هایت "); }
    let r17 = replace_lit(&r16, " هایت ", "\u{200c}هایت\u{200c}\u{200c}");
    proof { reveal_strlit(" هایش "); }
    let r18 = replace_lit(&r17, " هایش ", "\u{200c}هایش\u{200c}\u{200c}");
    proof { reveal_strlit(" هایمان "); }
    let r19 = replace_lit(&r18, " هایمان ", "\u{200c}هایمان\u{200c}\u{200c}");
    proof { reveal_strlit(" هایتان "); }
    let r20 = replace_lit(&r19, " هایتان ", "\u{200c}هایتان\u{200c}\u{200c}");
    proof { reveal_strlit(" هایشان "); }
    let r21 = replace_lit(&r20, " هایشان ", "\u{200c}هایشان\u{200c}\u{200c}");
    let joined = r21;

    let n = joined.len();
    let mut sp: usize = 0;
    while sp < n && joined[sp] != ' '
        invariant
            sp <= n,
            n == joined@.len(),
            forall|j: int| 0 <= j < sp ==> joined@[j] != ' ',
        decreases n - sp,
    {
        sp = sp + 1;
    }
    proof {
        lemma_first_space_at(joined@, sp as int);
        reveal_strlit("\u{645}\u{6cc}");
        reveal_strlit("\u{646}\u{645}\u{6cc}");
        reveal_strlit("\u{628}\u{6cc}");
    }
    if crate::text::starts_with_str(&joined, "\u{645}\u{6cc}") && sp < n {
        let mut out: Vec<char> = Vec::new();
        crate::text::extend_with_str(&mut out, "\u{645}\u{6cc}\u{200c}");
        let mut k: usize = sp + 1;
        let ghost o0 = out@;
        while k < n
            invariant
                sp + 1 <= k <= n,
                n == joined@.len(),
                out@ == o0 + joined@.subrange(sp + 1, k as int),
            decreases n - k,
        {
            proof {
                assert(out@.push(joined@[k as int]) =~= o0 + joined@.subrange(sp + 1, k + 1));
            }
            out.push(joined[k]);
            k = k + 1;
        }
        proof {
            assert(Seq::<char>::empty() + "\u{645}\u{6cc}\u{200c}"@ =~= "\u{645}\u{6cc}\u{200c}"@);
            assert(out@ =~= add_half_space_spec(input@));
        }
        return string_from_chars(&out);
    }
    if crate::text::starts_with_str(&joined, "\u{646}\u{645}\u{6cc}") && sp < n {
        let mut out: Vec<char> = Vec::new();
        crate::text::extend_with_str(&mut out, "\u{646}\u{645}\u{6cc}\u{200c}");
        let mut k: usize = sp + 1;
        let ghost o0 = out@;
        while k < n
            invariant
                sp + 1 <= k <= n,
                n == joined@.len(),
                out@ == o0 + joined@.subrange(sp + 1, k as int),
            decreases n - k,
        {
            proof {
                assert(out@.push(joined@[k as int]) =~= o0 + joined@.subrange(sp + 1, k + 1));
            }
            out.push(joined[k]);
            k = k + 1;
        }
        proof {
            assert(Seq::<char>::empty() + "\u{646}\u{645}\u{6cc}\u{200c}"@ =~= "\u{646}\u{645}\u{6cc}\u{200c}"@);
            assert(out@ =~= add_half_space_spec(input@));
        }
        return string_from_chars(&out);
    }
    if crate::text::starts_with_str(&joined, "\u{628}\u{6cc}") && sp < n {
        let mut out: Vec<char> = Vec::new();
        crate::text::extend_with_str(&mut out, "\u{200c}\u{628}\u{6cc}\u{200c}\u{200c}");
        let mut k: usize = sp + 1;
        let ghost o0 = out@;
        while k < n
            invariant
                sp + 1 <= k <= n,
                n == joined@.len(),
                out@ == o0 + joined@.subrange(sp + 1, k as int),
            decreases n - k,
        {
            proof {
                assert(out@.push(joined@[k as int]) =~= o0 + joined@.subrange(sp + 1, k + 1));
            }
            out.push(joined[k]);
            k = k + 1;
        }
        proof {
            assert(Seq::<char>::empty() + "\u{200c}\u{628}\u{6cc}\u{200c}\u{200c}"@
                =~= "\u{200c}\u{628}\u{6cc}\u{200c}\u{200c}"@);
            assert(out@ =~= add_half_space_spec(input@));
        }
        return string_from_chars(&out);
    }
    string_from_chars(&joined)
}

} // verus!

//! Extracting bank card numbers out of running text.

pub mod extracted_card_number;

pub use extracted_card_number::ExtractedCardNumber;

use vstd::prelude::*;
use crate::text::chars_of;
use crate::text::is_dec_digit;
use crate::text::string_from_chars;

verus! {

/// A Persian digit mapped to its English form; other characters are kept.
pub open spec fn card_digit_convert(c: char) -> char {
    if c == '۰' {
        '0'
    } else if c == '۱' {
        '1'
    } else if c == '۲' {
        '2'
    } else if c == '۳' {
        '3'
    } else if c == '۴' {
        '4'
    } else if c == '۵' {
        '5'
    } else if c == '۶' {
        '6'
    } else if c == '۷' {
        '7'
    } else if c == '۸' {
        '8'
    } else if c == '۹' {
        '9'
    } else {
        c
    }
}

fn card_digit_convert_exec(c: char) -> (r: char)
    ensures
        r == card_digit_convert(c),
{
    match c {
        '۰' => '0',
        '۱' => '1',
        '۲' => '2',
        '۳' => '3',
        '۴' => '4',
        '۵' => '5',
        '۶' => '6',
        '۷' => '7',
        '۸' => '8',
        '۹' => '9',
        other => other,
    }
}

/// The scan that extracts card numbers: digits of either script extend the
/// current run, a dash or space inside a run is kept in its raw form, any
/// other character breaks the run, and every moment the run holds sixteen
/// digits it is reported together with its raw form.
pub open spec fn extract_scan(
    s: Seq<char>,
    i: int,
    base: Seq<char>,
    pure: Seq<char>,
    acc: Seq<(Seq<char>, Seq<char>)>,
) -> Seq<(Seq<char>, Seq<char>)>
    decreases s.len() - i,
{
    if i < 0 || i >= s.len() {
        acc
    } else {
        let c = s[i];
        let conv = card_digit_convert(c);
        let base2 = if is_dec_digit(conv) {
            base.push(conv)
        } else if c != '-' && c != ' ' {
            Seq::empty()
        } else {
            base
        };
        let pure2 = if is_dec_digit(conv) {
            pure.push(c)
        } else if c != '-' && c != ' ' {
            Seq::empty()
        } else if pure.len() > 0 {
            pure.push(c)
        } else {
            pure
        };
        let acc2 = if base2.len() == 16 {
            acc.push((base2, pure2))
        } else {
            acc
        };
        extract_scan(s, i + 1, base2, pure2, acc2)
    }
}

/// The card numbers found in `s`.
pub open spec fn extract_spec(s: Seq<char>) -> Seq<(Seq<char>, Seq<char>)> {
    extract_scan(s, 0, Seq::empty(), Seq::empty(), Seq::empty())
}

/// Extracts the bank card numbers that occur in the text: runs of sixteen
/// digits in the English or Persian script, with dashes and spaces allowed
/// inside a run. Each find carries the normalised digits and the raw text.
#[verifier::loop_isolation(false)]
pub fn extract_card_number(inp: &str) -> (r: Vec<ExtractedCardNumber>)
    ensures
        ({
            let found = extract_spec(inp@);
            r@.len() == found.len() && forall|k: int|
                0 <= k < r@.len() ==> (#[trigger] r@[k]).base_spec()@ == found[k].0
                    && r@[k].pure_spec()@ == found[k].1
        }),
{
    let v = chars_of(inp);
    let mut result: Vec<ExtractedCardNumber> = Vec::new();
    let mut base: Vec<char> = Vec::new();
    let mut pure: Vec<char> = Vec::new();
    let mut i: usize = 0;
    let ghost mut found_prefix: Seq<(Seq<char>, Seq<char>)> = Seq::empty();
    proof {
        assert(found_prefix + extract_spec(inp@) =~= extract_spec(inp@));
    }
    while i < v.len()
        invariant
            i <= v@.len(),
            extract_spec(inp@) == found_prefix + extract_scan(
                v@,
                i as int,
                base@,
                pure@,
                Seq::empty(),
            ),
            result@.len() == found_prefix.len(),
            forall|k: int|
                0 <= k < result@.len() ==> (#[trigger] result@[k]).base_spec()@ == found_prefix[k].0
                    && result@[k].pure_spec()@ == found_prefix[k].1,
        decreases v@.len() - i,
    {
        let c = v[i];
        let converted = card_digit_convert_exec(c);
        let ghost old_base = base@;
        let ghost old_pure = pure@;
        if '0' <= converted && converted <= '9' {
            base.push(converted);
            pure.push(c);
        } else {
            if c != '-' && c != ' ' {
                base = Vec::new();
                pure = Vec::new();
            } else {
                if pure.len() > 0 {
                    pure.push(c);
                }
            }
        }
        proof {
            let cg = v@[i as int];
            let conv = card_digit_convert(cg);
            let b2 = if is_dec_digit(conv) {
                old_base.push(conv)
            } else if cg != '-' && cg != ' ' {
                Seq::<char>::empty()
            } else {
                old_base
            };
            let p2 = if is_dec_digit(conv) {
                old_pure.push(cg)
            } else if cg != '-' && cg != ' ' {
                Seq::<char>::empty()
            } else if old_pure.len() > 0 {
                old_pure.push(cg)
            } else {
                old_pure
            };
            assert(base@ =~= b2);
            assert(pure@ =~= p2);
            let tail = extract_scan(v@, i + 1, b2, p2, Seq::empty());
            if b2.len() == 16 {
                let one = Seq::<(Seq<char>, Seq<char>)>::empty().push((b2, p2));
                assert(extract_scan(v@, i as int, old_base, old_pure, Seq::empty())
                    == extract_scan(v@, i + 1, b2, p2, one));
                lemma_extract_scan_acc(v@, i + 1, b2, p2, one);
                assert(found_prefix + (one + tail) =~= found_prefix.push((b2, p2)) + tail);
                found_prefix = found_prefix.push((b2, p2));
            } else {
                assert(extract_scan(v@, i as int, old_base, old_pure, Seq::empty())
                    == extract_scan(v@, i + 1, b2, p2, Seq::empty()));
            }
        }
        if base.len() == 16 {
            let b = string_from_chars(&base);
            let p = string_from_chars(&pure);
            result.push(ExtractedCardNumber::new(b.as_str(), p.as_str()));
        }
        proof {
            assert(result@.len() == found_prefix.len());
        }
        i = i + 1;
    }
    proof {
        assert(extract_scan(v@, i as int, base@, pure@, Seq::empty())
            == Seq::<(Seq<char>, Seq<char>)>::empty());
        assert(found_prefix + Seq::<(Seq<char>, Seq<char>)>::empty() =~= found_prefix);
    }
    result
}

/// The accumulator only collects: what a scan adds does not depend on what
/// was already found.
proof fn lemma_extract_scan_acc(
    s: Seq<char>,
    i: int,
    base: Seq<char>,
    pure: Seq<char>,
    acc: Seq<(Seq<char>, Seq<char>)>,
)
    ensures
        extract_scan(s, i, base, pure, acc) == acc + extract_scan(
            s,
            i,
            base,
            pure,
            Seq::empty(),
        ),
    decreases s.len() - i,
{
    if i < 0 || i >= s.len() {
        assert(acc + Seq::<(Seq<char>, Seq<char>)>::empty() =~= acc);
    } else {
        let c = s[i];
        let conv = card_digit_convert(c);
        let base2 = if is_dec_digit(conv) {
            base.push(conv)
        } else if c != '-' && c != ' ' {
            Seq::empty()
        } else {
            base
        };
        let pure2 = if is_dec_digit(conv) {
            pure.push(c)
        } else if c != '-' && c != ' ' {
            Seq::empty()
        } else if pure.len() > 0 {
            pure.push(c)
        } else {
            pure
        };
        if base2.len() == 16 {
            lemma_extract_scan_acc(s, i + 1, base2, pure2, acc.push((base2, pure2)));
            lemma_extract_scan_acc(s, i + 1, base2, pure2, seq![(base2, pure2)]);
            assert(acc.push((base2, pure2)) =~= acc + seq![(base2, pure2)]);
            assert((acc + seq![(base2, pure2)]) + extract_scan(s, i + 1, base2, pure2, Seq::empty())
                =~= acc + (seq![(base2, pure2)] + extract_scan(s, i + 1, base2, pure2, Seq::empty())));
        } else {
            lemma_extract_scan_acc(s, i + 1, base2, pure2, acc);
        }
    }
}

} // verus!

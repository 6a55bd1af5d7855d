//! Laws tying the two directions of the numeral engine together.
//!
//! The round trip proved here covers every value that the renderer writes as
//! a single word of the table, through the whole parsing pipeline: trimming,
//! merging the split hundred spellings, splitting on white space, dropping
//! particles, and folding the words into a number.

use vstd::prelude::*;
use crate::number_to_words::has_defined_word;
use crate::number_to_words::number_words;
use crate::remove_ordinal_suffix::strip_ordinal;
use crate::words_to_number::words_to_number_spec;
use crate::words_to_number::merge_hundreds;
use crate::words_to_number::negative_prefix;
use crate::words_to_number::clean_tokens;
use crate::words_to_number::unit_value;
use crate::words_to_number::calc_scan;
use crate::words_to_number::WordsToNumberError;
use crate::text::split_ws;
use crate::text::trim_spec;
use crate::text::token_len;
use crate::text::replace_all;

verus! {

broadcast use vstd::string::group_string_axioms;

/// One single-word value reads back to itself, given that its word survives
/// the pipeline as the one token `t`.
proof fn single_word_case(w: Seq<char>, t: Seq<char>, d: int)
    requires
        trim_spec(w) == w,
        merge_hundreds(w) == t,
        split_ws(t) == seq![t],
        clean_tokens(seq![t]) == seq![t],
        t != negative_prefix(),
        unit_value(t) == Some(d as i64),
        0 <= d <= 900,
        w.len() > 0,
    ensures
        words_to_number_spec(w) == Ok::<i64, WordsToNumberError>(d as i64),
{
    reveal_with_fuel(calc_scan, 3);
    assert(calc_scan(seq![t], 0, 0, false) == Ok::<i64, WordsToNumberError>(d as i64));
}

#[verifier::rlimit(100)]
proof fn merge_0()
    ensures
        merge_hundreds("صفر"@) == "صفر"@,
{
    reveal_strlit("شیش صد");
    reveal_strlit("شش صد");
    reveal_strlit("هفت صد");
    reveal_strlit("هشت صد");
    reveal_strlit("نه صد");
    reveal_strlit("چهار صد");
    reveal_strlit("ششصد");
    reveal_strlit("هفتصد");
    reveal_strlit("هشتصد");
    reveal_strlit("نهصد");
    reveal_strlit("چهارصد");
    reveal_strlit("صفر");
    reveal_with_fuel(replace_all, 7);
    let w = "صفر"@;
    assert("صفر"@[0] == 'ص');
    assert("صفر"@[1] == 'ف');
    assert("صفر"@[2] == 'ر');
    assert("شیش صد"@[0] == 'ش');
    assert("شیش صد"@[1] == 'ی');
    assert("شیش صد"@[2] == 'ش');
    assert("شیش صد"@[3] == ' ');
    assert("شیش صد"@[4] == 'ص');
    assert("شیش صد"@[5] == 'د');
    assert("شش صد"@[0] == 'ش');
    assert("شش صد"@[1] == 'ش');
    assert("شش صد"@[2] == ' ');
    assert("شش صد"@[3] == 'ص');
    assert("شش صد"@[4] == 'د');
    assert("هفت صد"@[0] == 'ه');
    assert("هفت صد"@[1] == 'ف');
    assert("هفت صد"@[2] == 'ت');
    assert("هفت صد"@[3] == ' ');
    assert("هفت صد"@[4] == 'ص');
    assert("هفت صد"@[5] == 'د');
    assert("هشت صد"@[0] == 'ه');
    assert("هشت صد"@[1] == 'ش');
    assert("هشت صد"@[2] == 'ت');
    assert("هشت صد"@[3] == ' ');
    assert("هشت صد"@[4] == 'ص');
    assert("هشت صد"@[5] == 'د');
    assert("نه صد"@[0] == 'ن');
    assert("نه صد"@[1] == 'ه');
    assert("نه صد"@[2] == ' ');
    assert("نه صد"@[3] == 'ص');
    assert("نه صد"@[4] == 'د');
    assert("چهار صد"@[0] == 'چ');
    assert("چهار صد"@[1] == 'ه');
    assert("چهار صد"@[2] == 'ا');
    assert("چهار صد"@[3] == 'ر');
    assert("چهار صد"@[4] == ' ');
    assert("چهار صد"@[5] == 'ص');
    assert("چهار صد"@[6] == 'د');
    assert("ششصد"@[0] == 'ش');
    assert("ششصد"@[1] == 'ش');
    assert("ششصد"@[2] == 'ص');
    assert("ششصد"@[3] == 'د');
    assert("ششصد"@[0] == 'ش');
    assert("ششصد"@[1] == 'ش');
    assert("ششصد"@[2] == 'ص');
    assert("ششصد"@[3] == 'د');
    assert("هفتصد"@[0] == 'ه');
    assert("هفتصد"@[1] == 'ف');
    assert("هفتصد"@[2] == 'ت');
    assert("هفتصد"@[3] == 'ص');
    assert("هفتصد"@[4] == 'د');
    assert("هشتصد"@[0] == 'ه');
    assert("هشتصد"@[1] == 'ش');
    assert("هشتصد"@[2] == 'ت');
    assert("هشتصد"@[3] == 'ص');
    assert("هشتصد"@[4] == 'د');
    assert("نهصد"@[0] == 'ن');
    assert("نهصد"@[1] == 'ه');
    assert("نهصد"@[2] == 'ص');
    assert("نهصد"@[3] == 'د');
    assert("چهارصد"@[0] == 'چ');
    assert("چهارصد"@[1] == 'ه');
    assert("چهارصد"@[2] == 'ا');
    assert("چهارصد"@[3] == 'ر');
    assert("چهارصد"@[4] == 'ص');
    assert("چهارصد"@[5] == 'د');
    assert(merge_hundreds(w) =~= w);
}

#[verifier::rlimit(100)]
proof fn rt_0()
    ensures
        words_to_number_spec(number_words(0)) == Ok::<i64, WordsToNumberError>(0i64),
{
    reveal_strlit("صفر");
    reveal_strlit("شیش صد");
    reveal_strlit("شش صد");
    reveal_strlit("هفت صد");
    reveal_strlit("هشت صد");
    reveal_strlit("نه صد");
    reveal_strlit("چهار صد");
    reveal_strlit("و");
    reveal_strlit("ام");
    reveal_strlit("اُم");
    reveal_strlit("مین");
    reveal_strlit("سوم");
    reveal_strlit("م");
    reveal_strlit("سه");
    reveal_strlit("منفی");
    reveal_strlit("ر");
    reveal_strlit("فر");
    let w = "صفر"@;
    assert(number_words(0) == w);
    reveal_with_fuel(crate::text::trim_start_idx, 6);
    reveal_with_fuel(crate::text::trim_end_idx, 6);
    assert(trim_spec(w) =~= w);
    merge_0();
    let t = "صفر"@;
    assert("صفر"@[0] == 'ص');
    assert("صفر"@[1] == 'ف');
    assert("صفر"@[2] == 'ر');
    reveal_with_fuel(split_ws, 4);
    reveal_with_fuel(token_len, 6);
    assert(t.take(3) =~= t);
    assert(t.skip(3) =~= Seq::<char>::empty());
    assert(token_len(t) == 3);
    assert(split_ws(t) =~= seq![t]);
    assert(t.subrange(2, 3) =~= "ر"@);
    assert("ر"@[0] == 'ر');
    assert(t.subrange(1, 3) =~= "فر"@);
    assert("فر"@[0] == 'ف');
    assert("فر"@[1] == 'ر');
    assert(t.subrange(0, 3) =~= "صفر"@);
    assert("صفر"@[0] == 'ص');
    assert("صفر"@[1] == 'ف');
    assert("صفر"@[2] == 'ر');
    assert("مین"@[0] == 'م');
    assert("مین"@[1] == 'ی');
    assert("مین"@[2] == 'ن');
    assert("اُم"@[0] == 'ا');
    assert("اُم"@[1] == 'ُ');
    assert("اُم"@[2] == 'م');
    assert("ام"@[0] == 'ا');
    assert("ام"@[1] == 'م');
    assert("سوم"@[0] == 'س');
    assert("سوم"@[1] == 'و');
    assert("سوم"@[2] == 'م');
    assert("م"@[0] == 'م');
    assert(strip_ordinal(t) == t);
    reveal_with_fuel(clean_tokens, 3);
    assert(clean_tokens(seq![t]) =~= seq![t]);
    assert(unit_value(t) == Some(0i64));
    assert(t != negative_prefix());
    reveal_with_fuel(calc_scan, 3);
    assert(calc_scan(seq![t], 0, 0, false) == Ok::<i64, WordsToNumberError>(0i64));
    assert(words_to_number_spec(w) == Ok::<i64, WordsToNumberError>(0i64));
}

#[verifier::rlimit(100)]
proof fn merge_1()
    ensures
        merge_hundreds("یک"@) == "یک"@,
{
    reveal_strlit("شیش صد");
    reveal_strlit("شش صد");
    reveal_strlit("هفت صد");
    reveal_strlit("هشت صد");
    reveal_strlit("نه صد");
    reveal_strlit("چهار صد");
    reveal_strlit("ششصد");
    reveal_strlit("هفتصد");
    reveal_strlit("هشتصد");
    reveal_strlit("نهصد");
    reveal_strlit("چهارصد");
    reveal_strlit("یک");
    reveal_with_fuel(replace_all, 6);
    let w = "یک"@;
    assert("یک"@[0] == 'ی');
    assert("یک"@[1] == 'ک');
    assert("شیش صد"@[0] == 'ش');
    assert("شیش صد"@[1] == 'ی');
    assert("شیش صد"@[2] == 'ش');
    assert("شیش صد"@[3] == ' ');
    assert("شیش صد"@[4] == 'ص');
    assert("شیش صد"@[5] == 'د');
    assert("شش صد"@[0] == 'ش');
    assert("شش صد"@[1] == 'ش');
    assert("شش صد"@[2] == ' ');
    assert("شش صد"@[3] == 'ص');
    assert("شش صد"@[4] == 'د');
    assert("هفت صد"@[0] == 'ه');
    assert("هفت صد"@[1] == 'ف');
    assert("هفت صد"@[2] == 'ت');
    assert("هفت صد"@[3] == ' ');
    assert("هفت صد"@[4] == 'ص');
    assert("هفت صد"@[5] == 'د');
    assert("هشت صد"@[0] == 'ه');
    assert("هشت صد"@[1] == 'ش');
    assert("هشت صد"@[2] == 'ت');
    assert("هشت صد"@[3] == ' ');
    assert("هشت صد"@[4] == 'ص');
    assert("هشت صد"@[5] == 'د');
    assert("نه صد"@[0] == 'ن');
    assert("نه صد"@[1] == 'ه');
    assert("نه صد"@[2] == ' ');
    assert("نه صد"@[3] == 'ص');
    assert("نه صد"@[4] == 'د');
    assert("چهار صد"@[0] == 'چ');
    assert("چهار صد"@[1] == 'ه');
    assert("چهار صد"@[2] == 'ا');
    assert("چهار صد"@[3] == 'ر');
    assert("چهار صد"@[4] == ' ');
    assert("چهار صد"@[5] == 'ص');
    assert("چهار صد"@[6] == 'د');
    assert("ششصد"@[0] == 'ش');
    assert("ششصد"@[1] == 'ش');
    assert("ششصد"@[2] == 'ص');
    assert("ششصد"@[3] == 'د');
    assert("ششصد"@[0] == 'ش');
    assert("ششصد"@[1] == 'ش');
    assert("ششصد"@[2] == 'ص');
    assert("ششصد"@[3] == 'د');
    assert("هفتصد"@[0] == 'ه');
    assert("هفتصد"@[1] == 'ف');
    assert("هفتصد"@[2] == 'ت');
    assert("هفتصد"@[3] == 'ص');
    assert("هفتصد"@[4] == 'د');
    assert("هشتصد"@[0] == 'ه');
    assert("هشتصد"@[1] == 'ش');
    assert("هشتصد"@[2] == 'ت');
    assert("هشتصد"@[3] == 'ص');
    assert("هشتصد"@[4] == 'د');
    assert("نهصد"@[0] == 'ن');
    assert("نهصد"@[1] == 'ه');
    assert("نهصد"@[2] == 'ص');
    assert("نهصد"@[3] == 'د');
    assert("چهارصد"@[0] == 'چ');
    assert("چهارصد"@[1] == 'ه');
    assert("چهارصد"@[2] == 'ا');
    assert("چهارصد"@[3] == 'ر');
    assert("چهارصد"@[4] == 'ص');
    assert("چهارصد"@[5] == 'د');
    assert(merge_hundreds(w) =~= w);
}

#[verifier::rlimit(100)]
proof fn rt_1()
    ensures
        words_to_number_spec(number_words(1)) == Ok::<i64, WordsToNumberError>(1i64),
{
    reveal_strlit("صفر");
    reveal_strlit("یک");
    reveal_strlit("شیش صد");
    reveal_strlit("شش صد");
    reveal_strlit("هفت صد");
    reveal_strlit("هشت صد");
    reveal_strlit("نه صد");
    reveal_strlit("چهار صد");
    reveal_strlit("و");
    reveal_strlit("ام");
    reveal_strlit("اُم");
    reveal_strlit("مین");
    reveal_strlit("سوم");
    reveal_strlit("م");
    reveal_strlit("سه");
    reveal_strlit("منفی");
    reveal_strlit("ک");
    let w = "یک"@;
    assert(number_words(1) == w);
    reveal_with_fuel(crate::text::trim_start_idx, 5);
    reveal_with_fuel(crate::text::trim_end_idx, 5);
    assert(trim_spec(w) =~= w);
    merge_1();
    let t = "یک"@;
    assert("یک"@[0] == 'ی');
    assert("یک"@[1] == 'ک');
    reveal_with_fuel(split_ws, 4);
    reveal_with_fuel(token_len, 5);
    assert(t.take(2) =~= t);
    assert(t.skip(2) =~= Seq::<char>::empty());
    assert(token_len(t) == 2);
    assert(split_ws(t) =~= seq![t]);
    assert(t.subrange(1, 2) =~= "ک"@);
    assert("ک"@[0] == 'ک');
    assert(t.subrange(0, 2) =~= "یک"@);
    assert("یک"@[0] == 'ی');
    assert("یک"@[1] == 'ک');
    assert("مین"@[0] == 'م');
    assert("مین"@[1] == 'ی');
    assert("مین"@[2] == 'ن');
    assert("اُم"@[0] == 'ا');
    assert("اُم"@[1] == 'ُ');
    assert("اُم"@[2] == 'م');
    assert("ام"@[0] == 'ا');
    assert("ام"@[1] == 'م');
    assert("سوم"@[0] == 'س');
    assert("سوم"@[1] == 'و');
    assert("سوم"@[2] == 'م');
    assert("م"@[0] == 'م');
    assert(strip_ordinal(t) == t);
    reveal_with_fuel(clean_tokens, 3);
    assert(clean_tokens(seq![t]) =~= seq![t]);
    assert(unit_value(t) == Some(1i64));
    assert(t != negative_prefix());
    reveal_with_fuel(calc_scan, 3);
    assert(calc_scan(seq![t], 0, 0, false) == Ok::<i64, WordsToNumberError>(1i64));
    assert(words_to_number_spec(w) == Ok::<i64, WordsToNumberError>(1i64));
}

#[verifier::rlimit(100)]
proof fn merge_2()
    ensures
        merge_hundreds("دو"@) == "دو"@,
{
    reveal_strlit("شیش صد");
    reveal_strlit("شش صد");
    reveal_strlit("هفت صد");
    reveal_strlit("هشت صد");
    reveal_strlit("نه صد");
    reveal_strlit("چهار صد");
    reveal_strlit("ششصد");
    reveal_strlit("هفتصد");
    reveal_strlit("هشتصد");
    reveal_strlit("نهصد");
    reveal_strlit("چهارصد");
    reveal_strlit("دو");
    reveal_with_fuel(replace_all, 6);
    let w = "دو"@;
    assert("دو"@[0] == 'د');
    assert("دو"@[1] == 'و');
    assert("شیش صد"@[0] == 'ش');
    assert("شیش صد"@[1] == 'ی');
    assert("شیش صد"@[2] == 'ش');
    assert("شیش صد"@[3] == ' ');
    assert("شیش صد"@[4] == 'ص');
    assert("شیش صد"@[5] == 'د');
    assert("شش صد"@[0] == 'ش');
    assert("شش صد"@[1] == 'ش');
    assert("شش صد"@[2] == ' ');
    assert("شش صد"@[3] == 'ص');
    assert("شش صد"@[4] == 'د');
    assert("هفت صد"@[0] == 'ه');
    assert("هفت صد"@[1] == 'ف');
    assert("هفت صد"@[2] == 'ت');
    assert("هفت صد"@[3] == ' ');
    assert("هفت صد"@[4] == 'ص');
    assert("هفت صد"@[5] == 'د');
    assert("هشت صد"@[0] == 'ه');
    assert("هشت صد"@[1] == 'ش');
    assert("هشت صد"@[2] == 'ت');
    assert("هشت صد"@[3] == ' ');
    assert("هشت صد"@[4] == 'ص');
    assert("هشت صد"@[5] == 'د');
    assert("نه صد"@[0] == 'ن');
    assert("نه صد"@[1] == 'ه');
    assert("نه صد"@[2] == ' ');
    assert("نه صد"@[3] == 'ص');
    assert("نه صد"@[4] == 'د');
    assert("چهار صد"@[0] == 'چ');
    assert("چهار صد"@[1] == 'ه');
    assert("چهار صد"@[2] == 'ا');
    assert("چهار صد"@[3] == 'ر');
    assert("چهار صد"@[4] == ' ');
    assert("چهار صد"@[5] == 'ص');
    assert("چهار صد"@[6] == 'د');
    assert("ششصد"@[0] == 'ش');
    assert("ششصد"@[1] == 'ش');
    assert("ششصد"@[2] == 'ص');
    assert("ششصد"@[3] == 'د');
    assert("ششصد"@[0] == 'ش');
    assert("ششصد"@[1] == 'ش');
    assert("ششصد"@[2] == 'ص');
    assert("ششصد"@[3] == 'د');
    assert("هفتصد"@[0] == 'ه');
    assert("هفتصد"@[1] == 'ف');
    assert("هفتصد"@[2] == 'ت');
    assert("هفتصد"@[3] == 'ص');
    assert("هفتصد"@[4] == 'د');
    assert("هشتصد"@[0] == 'ه');
    assert("هشتصد"@[1] == 'ش');
    assert("هشتصد"@[2] == 'ت');
    assert("هشتصد"@[3] == 'ص');
    assert("هشتصد"@[4] == 'د');
    assert("نهصد"@[0] == 'ن');
    assert("نهصد"@[1] == 'ه');
    assert("نهصد"@[2] == 'ص');
    assert("نهصد"@[3] == 'د');
    assert("چهارصد"@[0] == 'چ');
    assert("چهارصد"@[1] == 'ه');
    assert("چهارصد"@[2] == 'ا');
    assert("چهارصد"@[3] == 'ر');
    assert("چهارصد"@[4] == 'ص');
    assert("چهارصد"@[5] == 'د');
    assert(merge_hundreds(w) =~= w);
}

#[verifier::rlimit(100)]
proof fn rt_2()
    ensures
        words_to_number_spec(number_words(2)) == Ok::<i64, WordsToNumberError>(2i64),
{
    reveal_strlit("صفر");
    reveal_strlit("یک");
    reveal_strlit("دو");
    reveal_strlit("شیش صد");
    reveal_strlit("شش صد");
    reveal_strlit("هفت صد");
    reveal_strlit("هشت صد");
    reveal_strlit("نه صد");
    reveal_strlit("چهار صد");
    reveal_strlit("و");
    reveal_strlit("ام");
    reveal_strlit("اُم");
    reveal_strlit("مین");
    reveal_strlit("سوم");
    reveal_strlit("م");
    reveal_strlit("سه");
    reveal_strlit("منفی");
    let w = "دو"@;
    assert(number_words(2) == w);
    reveal_with_fuel(crate::text::trim_start_idx, 5);
    reveal_with_fuel(crate::text::trim_end_idx, 5);
    assert(trim_spec(w) =~= w);
    merge_2();
    let t = "دو"@;
    assert("دو"@[0] == 'د');
    assert("دو"@[1] == 'و');
    reveal_with_fuel(split_ws, 4);
    reveal_with_fuel(token_len, 5);
    assert(t.take(2) =~= t);
    assert(t.skip(2) =~= Seq::<char>::empty());
    assert(token_len(t) == 2);
    assert(split_ws(t) =~= seq![t]);
    assert(t.subrange(1, 2) =~= "و"@);
    assert("و"@[0] == 'و');
    assert(t.subrange(0, 2) =~= "دو"@);
    assert("دو"@[0] == 'د');
    assert("دو"@[1] == 'و');
    assert("مین"@[0] == 'م');
    assert("مین"@[1] == 'ی');
    assert("مین"@[2] == 'ن');
    assert("اُم"@[0] == 'ا');
    assert("اُم"@[1] == 'ُ');
    assert("اُم"@[2] == 'م');
    assert("ام"@[0] == 'ا');
    assert("ام"@[1] == 'م');
    assert("سوم"@[0] == 'س');
    assert("سوم"@[1] == 'و');
    assert("سوم"@[2] == 'م');
    assert("م"@[0] == 'م');
    assert(strip_ordinal(t) == t);
    reveal_with_fuel(clean_tokens, 3);
    assert(clean_tokens(seq![t]) =~= seq![t]);
    assert(unit_value(t) == Some(2i64));
    assert(t != negative_prefix());
    reveal_with_fuel(calc_scan, 3);
    assert(calc_scan(seq![t], 0, 0, false) == Ok::<i64, WordsToNumberError>(2i64));
    assert(words_to_number_spec(w) == Ok::<i64, WordsToNumberError>(2i64));
}

#[verifier::rlimit(100)]
proof fn merge_3()
    ensures
        merge_hundreds("سه"@) == "سه"@,
{
    reveal_strlit("شیش صد");
    reveal_strlit("شش صد");
    reveal_strlit("هفت صد");
    reveal_strlit("هشت صد");
    reveal_strlit("نه صد");
    reveal_strlit("چهار صد");
    reveal_strlit("ششصد");
    reveal_strlit("هفتصد");
    reveal_strlit("هشتصد");
    reveal_strlit("نهصد");
    reveal_strlit("چهارصد");
    reveal_strlit("سه");
    reveal_with_fuel(replace_all, 6);
    let w = "سه"@;
    assert("سه"@[0] == 'س');
    assert("سه"@[1] == 'ه');
    assert("شیش صد"@[0] == 'ش');
    assert("شیش صد"@[1] == 'ی');
    assert("شیش صد"@[2] == 'ش');
    assert("شیش صد"@[3] == ' ');
    assert("شیش صد"@[4] == 'ص');
    assert("شیش صد"@[5] == 'د');
    assert("شش صد"@[0] == 'ش');
    assert("شش صد"@[1] == 'ش');
    assert("شش صد"@[2] == ' ');
    assert("شش صد"@[3] == 'ص');
    assert("شش صد"@[4] == 'د');
    assert("هفت صد"@[0] == 'ه');
    assert("هفت صد"@[1] == 'ف');
    assert("هفت صد"@[2] == 'ت');
    assert("هفت صد"@[3] == ' ');
    assert("هفت صد"@[4] == 'ص');
    assert("هفت صد"@[5] == 'د');
    assert("هشت صد"@[0] == 'ه');
    assert("هشت صد"@[1] == 'ش');
    assert("هشت صد"@[2] == 'ت');
    assert("هشت صد"@[3] == ' ');
    assert("هشت صد"@[4] == 'ص');
    assert("هشت صد"@[5] == 'د');
    assert("نه صد"@[0] == 'ن');
    assert("نه صد"@[1] == 'ه');
    assert("نه صد"@[2] == ' ');
    assert("نه صد"@[3] == 'ص');
    assert("نه صد"@[4] == 'د');
    assert("چهار صد"@[0] == 'چ');
    assert("چهار صد"@[1] == 'ه');
    assert("چهار صد"@[2] == 'ا');
    assert("چهار صد"@[3] == 'ر');
    assert("چهار صد"@[4] == ' ');
    assert("چهار صد"@[5] == 'ص');
    assert("چهار صد"@[6] == 'د');
    assert("ششصد"@[0] == 'ش');
    assert("ششصد"@[1] == 'ش');
    assert("ششصد"@[2] == 'ص');
    assert("ششصد"@[3] == 'د');
    assert("ششصد"@[0] == 'ش');
    assert("ششصد"@[1] == 'ش');
    assert("ششصد"@[2] == 'ص');
    assert("ششصد"@[3] == 'د');
    assert("هفتصد"@[0] == 'ه');
    assert("هفتصد"@[1] == 'ف');
    assert("هفتصد"@[2] == 'ت');
    assert("هفتصد"@[3] == 'ص');
    assert("هفتصد"@[4] == 'د');
    assert("هشتصد"@[0] == 'ه');
    assert("هشتصد"@[1] == 'ش');
    assert("هشتصد"@[2] == 'ت');
    assert("هشتصد"@[3] == 'ص');
    assert("هشتصد"@[4] == 'د');
    assert("نهصد"@[0] == 'ن');
    assert("نهصد"@[1] == 'ه');
    assert("نهصد"@[2] == 'ص');
    assert("نهصد"@[3] == 'د');
    assert("چهارصد"@[0] == 'چ');
    assert("چهارصد"@[1] == 'ه');
    assert("چهارصد"@[2] == 'ا');
    assert("چهارصد"@[3] == 'ر');
    assert("چهارصد"@[4] == 'ص');
    assert("چهارصد"@[5] == 'د');
    assert(merge_hundreds(w) =~= w);
}

#[verifier::rlimit(100)]
proof fn rt_3()
    ensures
        words_to_number_spec(number_words(3)) == Ok::<i64, WordsToNumberError>(3i64),
{
    reveal_strlit("صفر");
    reveal_strlit("یک");
    reveal_strlit("دو");
    reveal_strlit("سه");
    reveal_strlit("شیش صد");
    reveal_strlit("شش صد");
    reveal_strlit("هفت صد");
    reveal_strlit("هشت صد");
    reveal_strlit("نه صد");
    reveal_strlit("چهار صد");
    reveal_strlit("و");
    reveal_strlit("ام");
    reveal_strlit("اُم");
    reveal_strlit("مین");
    reveal_strlit("سوم");
    reveal_strlit("م");
    reveal_strlit("منفی");
    reveal_strlit("ه");
    let w = "سه"@;
    assert(number_words(3) == w);
    reveal_with_fuel(crate::text::trim_start_idx, 5);
    reveal_with_fuel(crate::text::trim_end_idx, 5);
    assert(trim_spec(w) =~= w);
    merge_3();
    let t = "سه"@;
    assert("سه"@[0] == 'س');
    assert("سه"@[1] == 'ه');
    reveal_with_fuel(split_ws, 4);
    reveal_with_fuel(token_len, 5);
    assert(t.take(2) =~= t);
    assert(t.skip(2) =~= Seq::<char>::empty());
    assert(token_len(t) == 2);
    assert(split_ws(t) =~= seq![t]);
    assert(t.subrange(1, 2) =~= "ه"@);
    assert("ه"@[0] == 'ه');
    assert(t.subrange(0, 2) =~= "سه"@);
    assert("سه"@[0] == 'س');
    assert("سه"@[1] == 'ه');
    assert("مین"@[0] == 'م');
    assert("مین"@[1] == 'ی');
    assert("مین"@[2] == 'ن');
    assert("اُم"@[0] == 'ا');
    assert("اُم"@[1] == 'ُ');
    assert("اُم"@[2] == 'م');
    assert("ام"@[0] == 'ا');
    assert("ام"@[1] == 'م');
    assert("سوم"@[0] == 'س');
    assert("سوم"@[1] == 'و');
    assert("سوم"@[2] == 'م');
    assert("م"@[0] == 'م');
    assert(strip_ordinal(t) == t);
    reveal_with_fuel(clean_tokens, 3);
    assert(clean_tokens(seq![t]) =~= seq![t]);
    assert(unit_value(t) == Some(3i64));
    assert(t != negative_prefix());
    reveal_with_fuel(calc_scan, 3);
    assert(calc_scan(seq![t], 0, 0, false) == Ok::<i64, WordsToNumberError>(3i64));
    assert(words_to_number_spec(w) == Ok::<i64, WordsToNumberError>(3i64));
}

#[verifier::rlimit(100)]
proof fn merge_4()
    ensures
        merge_hundreds("چهار"@) == "چهار"@,
{
    reveal_strlit("شیش صد");
    reveal_strlit("شش صد");
    reveal_strlit("هفت صد");
    reveal_strlit("هشت صد");
    reveal_strlit("نه صد");
    reveal_strlit("چهار صد");
    reveal_strlit("ششصد");
    reveal_strlit("هفتصد");
    reveal_strlit("هشتصد");
    reveal_strlit("نهصد");
    reveal_strlit("چهارصد");
    reveal_strlit("چهار");
    reveal_with_fuel(replace_all, 8);
    let w = "چهار"@;
    assert("چهار"@[0] == 'چ');
    assert("چهار"@[1] == 'ه');
    assert("چهار"@[2] == 'ا');
    assert("چهار"@[3] == 'ر');
    assert("شیش صد"@[0] == 'ش');
    assert("شیش صد"@[1] == 'ی');
    assert("شیش صد"@[2] == 'ش');
    assert("شیش صد"@[3] == ' ');
    assert("شیش صد"@[4] == 'ص');
    assert("شیش صد"@[5] == 'د');
    assert("شش صد"@[0] == 'ش');
    assert("شش صد"@[1] == 'ش');
    assert("شش صد"@[2] == ' ');
    assert("شش صد"@[3] == 'ص');
    assert("شش صد"@[4] == 'د');
    assert("هفت صد"@[0] == 'ه');
    assert("هفت صد"@[1] == 'ف');
    assert("هفت صد"@[2] == 'ت');
    assert("هفت صد"@[3] == ' ');
    assert("هفت صد"@[4] == 'ص');
    assert("هفت صد"@[5] == 'د');
    assert("هشت صد"@[0] == 'ه');
    assert("هشت صد"@[1] == 'ش');
    assert("هشت صد"@[2] == 'ت');
    assert("هشت صد"@[3] == ' ');
    assert("هشت صد"@[4] == 'ص');
    assert("هشت صد"@[5] == 'د');
    assert("نه صد"@[0] == 'ن');
    assert("نه صد"@[1] == 'ه');
    assert("نه صد"@[2] == ' ');
    assert("نه صد"@[3] == 'ص');
    assert("نه صد"@[4] == 'د');
    assert("چهار صد"@[0] == 'چ');
    assert("چهار صد"@[1] == 'ه');
    assert("چهار صد"@[2] == 'ا');
    assert("چهار صد"@[3] == 'ر');
    assert("چهار صد"@[4] == ' ');
    assert("چهار صد"@[5] == 'ص');
    assert("چهار صد"@[6] == 'د');
    assert("ششصد"@[0] == 'ش');
    assert("ششصد"@[1] == 'ش');
    assert("ششصد"@[2] == 'ص');
    assert("ششصد"@[3] == 'د');
    assert("ششصد"@[0] == 'ش');
    assert("ششصد"@[1] == 'ش');
    assert("ششصد"@[2] == 'ص');
    assert("ششصد"@[3] == 'د');
    assert("هفتصد"@[0] == 'ه');
    assert("هفتصد"@[1] == 'ف');
    assert("هفتصد"@[2] == 'ت');
    assert("هفتصد"@[3] == 'ص');
    assert("هفتصد"@[4] == 'د');
    assert("هشتصد"@[0] == 'ه');
    assert("هشتصد"@[1] == 'ش');
    assert("هشتصد"@[2] == 'ت');
    assert("هشتصد"@[3] == 'ص');
    assert("هشتصد"@[4] == 'د');
    assert("نهصد"@[0] == 'ن');
    assert("نهصد"@[1] == 'ه');
    assert("نهصد"@[2] == 'ص');
    assert("نهصد"@[3] == 'د');
    assert("چهارصد"@[0] == 'چ');
    assert("چهارصد"@[1] == 'ه');
    assert("چهارصد"@[2] == 'ا');
    assert("چهارصد"@[3] == 'ر');
    assert("چهارصد"@[4] == 'ص');
    assert("چهارصد"@[5] == 'د');
    assert(merge_hundreds(w) =~= w);
}

#[verifier::rlimit(100)]
proof fn rt_4()
    ensures
        words_to_number_spec(number_words(4)) == Ok::<i64, WordsToNumberError>(4i64),
{
    reveal_strlit("صفر");
    reveal_strlit("یک");
    reveal_strlit("دو");
    reveal_strlit("سه");
    reveal_strlit("چهار");
    reveal_strlit("شیش صد");
    reveal_strlit("شش صد");
    reveal_strlit("هفت صد");
    reveal_strlit("هشت صد");
    reveal_strlit("نه صد");
    reveal_strlit("چهار صد");
    reveal_strlit("و");
    reveal_strlit("ام");
    reveal_strlit("اُم");
    reveal_strlit("مین");
    reveal_strlit("سوم");
    reveal_strlit("م");
    reveal_strlit("منفی");
    reveal_strlit("ر");
    reveal_strlit("ار");
    reveal_strlit("هار");
    let w = "چهار"@;
    assert(number_words(4) == w);
    reveal_with_fuel(crate::text::trim_start_idx, 7);
    reveal_with_fuel(crate::text::trim_end_idx, 7);
    assert(trim_spec(w) =~= w);
    merge_4();
    let t = "چهار"@;
    assert("چهار"@[0] == 'چ');
    assert("چهار"@[1] == 'ه');
    assert("چهار"@[2] == 'ا');
    assert("چهار"@[3] == 'ر');
    reveal_with_fuel(split_ws, 4);
    reveal_with_fuel(token_len, 7);
    assert(t.take(4) =~= t);
    assert(t.skip(4) =~= Seq::<char>::empty());
    assert(token_len(t) == 4);
    assert(split_ws(t) =~= seq![t]);
    assert(t.subrange(3, 4) =~= "ر"@);
    assert("ر"@[0] == 'ر');
    assert(t.subrange(2, 4) =~= "ار"@);
    assert("ار"@[0] == 'ا');
    assert("ار"@[1] == 'ر');
    assert(t.subrange(1, 4) =~= "هار"@);
    assert("هار"@[0] == 'ه');
    assert("هار"@[1] == 'ا');
    assert("هار"@[2] == 'ر');
    assert("مین"@[0] == 'م');
    assert("مین"@[1] == 'ی');
    assert("مین"@[2] == 'ن');
    assert("اُم"@[0] == 'ا');
    assert("اُم"@[1] == 'ُ');
    assert("اُم"@[2] == 'م');
    assert("ام"@[0] == 'ا');
    assert("ام"@[1] == 'م');
    assert("سوم"@[0] == 'س');
    assert("سوم"@[1] == 'و');
    assert("سوم"@[2] == 'م');
    assert("م"@[0] == 'م');
    assert(strip_ordinal(t) == t);
    reveal_with_fuel(clean_tokens, 3);
    assert(clean_tokens(seq![t]) =~= seq![t]);
    assert(unit_value(t) == Some(4i64));
    assert(t != negative_prefix());
    reveal_with_fuel(calc_scan, 3);
    assert(calc_scan(seq![t], 0, 0, false) == Ok::<i64, WordsToNumberError>(4i64));
    assert(words_to_number_spec(w) == Ok::<i64, WordsToNumberError>(4i64));
}

#[verifier::rlimit(100)]
proof fn merge_5()
    ensures
        merge_hundreds("پنج"@) == "پنج"@,
{
    reveal_strlit("شیش صد");
    reveal_strlit("شش صد");
    reveal_strlit("هفت صد");
    reveal_strlit("هشت صد");
    reveal_strlit("نه صد");
    reveal_strlit("چهار صد");
    reveal_strlit("ششصد");
    reveal_strlit("هفتصد");
    reveal_strlit("هشتصد");
    reveal_strlit("نهصد");
    reveal_strlit("چهارصد");
    reveal_strlit("پنج");
    reveal_with_fuel(replace_all, 7);
    let w = "پنج"@;
    assert("پنج"@[0] == 'پ');
    assert("پنج"@[1] == 'ن');
    assert("پنج"@[2] == 'ج');
    assert("شیش صد"@[0] == 'ش');
    assert("شیش صد"@[1] == 'ی');
    assert("شیش صد"@[2] == 'ش');
    assert("شیش صد"@[3] == ' ');
    assert("شیش صد"@[4] == 'ص');
    assert("شیش صد"@[5] == 'د');
    assert("شش صد"@[0] == 'ش');
    assert("شش صد"@[1] == 'ش');
    assert("شش صد"@[2] == ' ');
    assert("شش صد"@[3] == 'ص');
    assert("شش صد"@[4] == 'د');
    assert("هفت صد"@[0] == 'ه');
    assert("هفت صد"@[1] == 'ف');
    assert("هفت صد"@[2] == 'ت');
    assert("هفت صد"@[3] == ' ');
    assert("هفت صد"@[4] == 'ص');
    assert("هفت صد"@[5] == 'د');
    assert("هشت صد"@[0] == 'ه');
    assert("هشت صد"@[1] == 'ش');
    assert("هشت صد"@[2] == 'ت');
    assert("هشت صد"@[3] == ' ');
    assert("هشت صد"@[4] == 'ص');
    assert("هشت صد"@[5] == 'د');
    assert("نه صد"@[0] == 'ن');
    assert("نه صد"@[1] == 'ه');
    assert("نه صد"@[2] == ' ');
    assert("نه صد"@[3] == 'ص');
    assert("نه صد"@[4] == 'د');
    assert("چهار صد"@[0] == 'چ');
    assert("چهار صد"@[1] == 'ه');
    assert("چهار صد"@[2] == 'ا');
    assert("چهار صد"@[3] == 'ر');
    assert("چهار صد"@[4] == ' ');
    assert("چهار صد"@[5] == 'ص');
    assert("چهار صد"@[6] == 'د');
    assert("ششصد"@[0] == 'ش');
    assert("ششصد"@[1] == 'ش');
    assert("ششصد"@[2] == 'ص');
    assert("ششصد"@[3] == 'د');
    assert("ششصد"@[0] == 'ش');
    assert("ششصد"@[1] == 'ش');
    assert("ششصد"@[2] == 'ص');
    assert("ششصد"@[3] == 'د');
    assert("هفتصد"@[0] == 'ه');
    assert("هفتصد"@[1] == 'ف');
    assert("هفتصد"@[2] == 'ت');
    assert("هفتصد"@[3] == 'ص');
    assert("هفتصد"@[4] == 'د');
    assert("هشتصد"@[0] == 'ه');
    assert("هشتصد"@[1] == 'ش');
    assert("هشتصد"@[2] == 'ت');
    assert("هشتصد"@[3] == 'ص');
    assert("هشتصد"@[4] == 'د');
    assert("نهصد"@[0] == 'ن');
    assert("نهصد"@[1] == 'ه');
    assert("نهصد"@[2] == 'ص');
    assert("نهصد"@[3] == 'د');
    assert("چهارصد"@[0] == 'چ');
    assert("چهارصد"@[1] == 'ه');
    assert("چهارصد"@[2] == 'ا');
    assert("چهارصد"@[3] == 'ر');
    assert("چهارصد"@[4] == 'ص');
    assert("چهارصد"@[5] == 'د');
    assert(merge_hundreds(w) =~= w);
}

#[verifier::rlimit(100)]
proof fn rt_5()
    ensures
        words_to_number_spec(number_words(5)) == Ok::<i64, WordsToNumberError>(5i64),
{
    reveal_strlit("صفر");
    reveal_strlit("یک");
    reveal_strlit("دو");
    reveal_strlit("سه");
    reveal_strlit("چهار");
    reveal_strlit("پنج");
    reveal_strlit("شیش صد");
    reveal_strlit("شش صد");
    reveal_strlit("هفت صد");
    reveal_strlit("هشت صد");
    reveal_strlit("نه صد");
    reveal_strlit("چهار صد");
    reveal_strlit("و");
    reveal_strlit("ام");
    reveal_strlit("اُم");
    reveal_strlit("مین");
    reveal_strlit("سوم");
    reveal_strlit("م");
    reveal_strlit("منفی");
    reveal_strlit("ج");
    reveal_strlit("نج");
    let w = "پنج"@;
    assert(number_words(5) == w);
    reveal_with_fuel(crate::text::trim_start_idx, 6);
    reveal_with_fuel(crate::text::trim_end_idx, 6);
    assert(trim_spec(w) =~= w);
    merge_5();
    let t = "پنج"@;
    assert("پنج"@[0] == 'پ');
    assert("پنج"@[1] == 'ن');
    assert("پنج"@[2] == 'ج');
    reveal_with_fuel(split_ws, 4);
    reveal_with_fuel(token_len, 6);
    assert(t.take(3) =~= t);
    assert(t.skip(3) =~= Seq::<char>::empty());
    assert(token_len(t) == 3);
    assert(split_ws(t) =~= seq![t]);
    assert(t.subrange(2, 3) =~= "ج"@);
    assert("ج"@[0] == 'ج');
    assert(t.subrange(1, 3) =~= "نج"@);
    assert("نج"@[0] == 'ن');
    assert("نج"@[1] == 'ج');
    assert(t.subrange(0, 3) =~= "پنج"@);
    assert("پنج"@[0] == 'پ');
    assert("پنج"@[1] == 'ن');
    assert("پنج"@[2] == 'ج');
    assert("مین"@[0] == 'م');
    assert("مین"@[1] == 'ی');
    assert("مین"@[2] == 'ن');
    assert("اُم"@[0] == 'ا');
    assert("اُم"@[1] == 'ُ');
    assert("اُم"@[2] == 'م');
    assert("ام"@[0] == 'ا');
    assert("ام"@[1] == 'م');
    assert("سوم"@[0] == 'س');
    assert("سوم"@[1] == 'و');
    assert("سوم"@[2] == 'م');
    assert("م"@[0] == 'م');
    assert(strip_ordinal(t) == t);
    reveal_with_fuel(clean_tokens, 3);
    assert(clean_tokens(seq![t]) =~= seq![t]);
    assert(unit_value(t) == Some(5i64));
    assert(t != negative_prefix());
    reveal_with_fuel(calc_scan, 3);
    assert(calc_scan(seq![t], 0, 0, false) == Ok::<i64, WordsToNumberError>(5i64));
    assert(words_to_number_spec(w) == Ok::<i64, WordsToNumberError>(5i64));
}

#[verifier::rlimit(100)]
proof fn merge_6()
    ensures
        merge_hundreds("شش"@) == "شش"@,
{
    reveal_strlit("شیش صد");
    reveal_strlit("شش صد");
    reveal_strlit("هفت صد");
    reveal_strlit("هشت صد");
    reveal_strlit("نه صد");
    reveal_strlit("چهار صد");
    reveal_strlit("ششصد");
    reveal_strlit("هفتصد");
    reveal_strlit("هشتصد");
    reveal_strlit("نهصد");
    reveal_strlit("چهارصد");
    reveal_strlit("شش");
    reveal_with_fuel(replace_all, 6);
    let w = "شش"@;
    assert("شش"@[0] == 'ش');
    assert("شش"@[1] == 'ش');
    assert("شیش صد"@[0] == 'ش');
    assert("شیش صد"@[1] == 'ی');
    assert("شیش صد"@[2] == 'ش');
    assert("شیش صد"@[3] == ' ');
    assert("شیش صد"@[4] == 'ص');
    assert("شیش صد"@[5] == 'د');
    assert("شش صد"@[0] == 'ش');
    assert("شش صد"@[1] == 'ش');
    assert("شش صد"@[2] == ' ');
    assert("شش صد"@[3] == 'ص');
    assert("شش صد"@[4] == 'د');
    assert("هفت صد"@[0] == 'ه');
    assert("هفت صد"@[1] == 'ف');
    assert("هفت صد"@[2] == 'ت');
    assert("هفت صد"@[3] == ' ');
    assert("هفت صد"@[4] == 'ص');
    assert("هفت صد"@[5] == 'د');
    assert("هشت صد"@[0] == 'ه');
    assert("هشت صد"@[1] == 'ش');
    assert("هشت صد"@[2] == 'ت');
    assert("هشت صد"@[3] == ' ');
    assert("هشت صد"@[4] == 'ص');
    assert("هشت صد"@[5] == 'د');
    assert("نه صد"@[0] == 'ن');
    assert("نه صد"@[1] == 'ه');
    assert("نه صد"@[2] == ' ');
    assert("نه صد"@[3] == 'ص');
    assert("نه صد"@[4] == 'د');
    assert("چهار صد"@[0] == 'چ');
    assert("چهار صد"@[1] == 'ه');
    assert("چهار صد"@[2] == 'ا');
    assert("چهار صد"@[3] == 'ر');
    assert("چهار صد"@[4] == ' ');
    assert("چهار صد"@[5] == 'ص');
    assert("چهار صد"@[6] == 'د');
    assert("ششصد"@[0] == 'ش');
    assert("ششصد"@[1] == 'ش');
    assert("ششصد"@[2] == 'ص');
    assert("ششصد"@[3] == 'د');
    assert("ششصد"@[0] == 'ش');
    assert("ششصد"@[1] == 'ش');
    assert("ششصد"@[2] == 'ص');
    assert("ششصد"@[3] == 'د');
    assert("هفتصد"@[0] == 'ه');
    assert("هفتصد"@[1] == 'ف');
    assert("هفتصد"@[2] == 'ت');
    assert("هفتصد"@[3] == 'ص');
    assert("هفتصد"@[4] == 'د');
    assert("هشتصد"@[0] == 'ه');
    assert("هشتصد"@[1] == 'ش');
    assert("هشتصد"@[2] == 'ت');
    assert("هشتصد"@[3] == 'ص');
    assert("هشتصد"@[4] == 'د');
    assert("نهصد"@[0] == 'ن');
    assert("نهصد"@[1] == 'ه');
    assert("نهصد"@[2] == 'ص');
    assert("نهصد"@[3] == 'د');
    assert("چهارصد"@[0] == 'چ');
    assert("چهارصد"@[1] == 'ه');
    assert("چهارصد"@[2] == 'ا');
    assert("چهارصد"@[3] == 'ر');
    assert("چهارصد"@[4] == 'ص');
    assert("چهارصد"@[5] == 'د');
    assert(merge_hundreds(w) =~= w);
}

#[verifier::rlimit(100)]
proof fn rt_6()
    ensures
        words_to_number_spec(number_words(6)) == Ok::<i64, WordsToNumberError>(6i64),
{
    reveal_strlit("صفر");
    reveal_strlit("یک");
    reveal_strlit("دو");
    reveal_strlit("سه");
    reveal_strlit("چهار");
    reveal_strlit("پنج");
    reveal_strlit("شش");
    reveal_strlit("شیش صد");
    reveal_strlit("شش صد");
    reveal_strlit("هفت صد");
    reveal_strlit("هشت صد");
    reveal_strlit("نه صد");
    reveal_strlit("چهار صد");
    reveal_strlit("و");
    reveal_strlit("ام");
    reveal_strlit("اُم");
    reveal_strlit("مین");
    reveal_strlit("سوم");
    reveal_strlit("م");
    reveal_strlit("منفی");
    reveal_strlit("ش");
    let w = "شش"@;
    assert(number_words(6) == w);
    reveal_with_fuel(crate::text::trim_start_idx, 5);
    reveal_with_fuel(crate::text::trim_end_idx, 5);
    assert(trim_spec(w) =~= w);
    merge_6();
    let t = "شش"@;
    assert("شش"@[0] == 'ش');
    assert("شش"@[1] == 'ش');
    reveal_with_fuel(split_ws, 4);
    reveal_with_fuel(token_len, 5);
    assert(t.take(2) =~= t);
    assert(t.skip(2) =~= Seq::<char>::empty());
    assert(token_len(t) == 2);
    assert(split_ws(t) =~= seq![t]);
    assert(t.subrange(1, 2) =~= "ش"@);
    assert("ش"@[0] == 'ش');
    assert(t.subrange(0, 2) =~= "شش"@);
    assert("شش"@[0] == 'ش');
    assert("شش"@[1] == 'ش');
    assert("مین"@[0] == 'م');
    assert("مین"@[1] == 'ی');
    assert("مین"@[2] == 'ن');
    assert("اُم"@[0] == 'ا');
    assert("اُم"@[1] == 'ُ');
    assert("اُم"@[2] == 'م');
    assert("ام"@[0] == 'ا');
    assert("ام"@[1] == 'م');
    assert("سوم"@[0] == 'س');
    assert("سوم"@[1] == 'و');
    assert("سوم"@[2] == 'م');
    assert("م"@[0] == 'م');
    assert(strip_ordinal(t) == t);
    reveal_with_fuel(clean_tokens, 3);
    assert(clean_tokens(seq![t]) =~= seq![t]);
    assert(unit_value(t) == Some(6i64));
    assert(t != negative_prefix());
    reveal_with_fuel(calc_scan, 3);
    assert(calc_scan(seq![t], 0, 0, false) == Ok::<i64, WordsToNumberError>(6i64));
    assert(words_to_number_spec(w) == Ok::<i64, WordsToNumberError>(6i64));
}

#[verifier::rlimit(100)]
proof fn merge_7()
    ensures
        merge_hundreds("هفت"@) == "هفت"@,
{
    reveal_strlit("شیش صد");
    reveal_strlit("شش صد");
    reveal_strlit("هفت صد");
    reveal_strlit("هشت صد");
    reveal_strlit("نه صد");
    reveal_strlit("چهار صد");
    reveal_strlit("ششصد");
    reveal_strlit("هفتصد");
    reveal_strlit("هشتصد");
    reveal_strlit("نهصد");
    reveal_strlit("چهارصد");
    reveal_strlit("هفت");
    reveal_with_fuel(replace_all, 7);
    let w = "هفت"@;
    assert("هفت"@[0] == 'ه');
    assert("هفت"@[1] == 'ف');
    assert("هفت"@[2] == 'ت');
    assert("شیش صد"@[0] == 'ش');
    assert("شیش صد"@[1] == 'ی');
    assert("شیش صد"@[2] == 'ش');
    assert("شیش صد"@[3] == ' ');
    assert("شیش صد"@[4] == 'ص');
    assert("شیش صد"@[5] == 'د');
    assert("شش صد"@[0] == 'ش');
    assert("شش صد"@[1] == 'ش');
    assert("شش صد"@[2] == ' ');
    assert("شش صد"@[3] == 'ص');
    assert("شش صد"@[4] == 'د');
    assert("هفت صد"@[0] == 'ه');
    assert("هفت صد"@[1] == 'ف');
    assert("هفت صد"@[2] == 'ت');
    assert("هفت صد"@[3] == ' ');
    assert("هفت صد"@[4] == 'ص');
    assert("هفت صد"@[5] == 'د');
    assert("هشت صد"@[0] == 'ه');
    assert("هشت صد"@[1] == 'ش');
    assert("هشت صد"@[2] == 'ت');
    assert("هشت صد"@[3] == ' ');
    assert("هشت صد"@[4] == 'ص');
    assert("هشت صد"@[5] == 'د');
    assert("نه صد"@[0] == 'ن');
    assert("نه صد"@[1] == 'ه');
    assert("نه صد"@[2] == ' ');
    assert("نه صد"@[3] == 'ص');
    assert("نه صد"@[4] == 'د');
    assert("چهار صد"@[0] == 'چ');
    assert("چهار صد"@[1] == 'ه');
    assert("چهار صد"@[2] == 'ا');
    assert("چهار صد"@[3] == 'ر');
    assert("چهار صد"@[4] == ' ');
    assert("چهار صد"@[5] == 'ص');
    assert("چهار صد"@[6] == 'د');
    assert("ششصد"@[0] == 'ش');
    assert("ششصد"@[1] == 'ش');
    assert("ششصد"@[2] == 'ص');
    assert("ششصد"@[3] == 'د');
    assert("ششصد"@[0] == 'ش');
    assert("ششصد"@[1] == 'ش');
    assert("ششصد"@[2] == 'ص');
    assert("ششصد"@[3] == 'د');
    assert("هفتصد"@[0] == 'ه');
    assert("هفتصد"@[1] == 'ف');
    assert("هفتصد"@[2] == 'ت');
    assert("هفتصد"@[3] == 'ص');
    assert("هفتصد"@[4] == 'د');
    assert("هشتصد"@[0] == 'ه');
    assert("هشتصد"@[1] == 'ش');
    assert("هشتصد"@[2] == 'ت');
    assert("هشتصد"@[3] == 'ص');
    assert("هشتصد"@[4] == 'د');
    assert("نهصد"@[0] == 'ن');
    assert("نهصد"@[1] == 'ه');
    assert("نهصد"@[2] == 'ص');
    assert("نهصد"@[3] == 'د');
    assert("چهارصد"@[0] == 'چ');
    assert("چهارصد"@[1] == 'ه');
    assert("چهارصد"@[2] == 'ا');
    assert("چهارصد"@[3] == 'ر');
    assert("چهارصد"@[4] == 'ص');
    assert("چهارصد"@[5] == 'د');
    assert(merge_hundreds(w) =~= w);
}

#[verifier::rlimit(100)]
proof fn rt_7()
    ensures
        words_to_number_spec(number_words(7)) == Ok::<i64, WordsToNumberError>(7i64),
{
    reveal_strlit("صفر");
    reveal_strlit("یک");
    reveal_strlit("دو");
    reveal_strlit("سه");
    reveal_strlit("چهار");
    reveal_strlit("پنج");
    reveal_strlit("شش");
    reveal_strlit("شیش");
    reveal_strlit("هفت");
    reveal_strlit("شیش صد");
    reveal_strlit("شش صد");
    reveal_strlit("هفت صد");
    reveal_strlit("هشت صد");
    reveal_strlit("نه صد");
    reveal_strlit("چهار صد");
    reveal_strlit("و");
    reveal_strlit("ام");
    reveal_strlit("اُم");
    reveal_strlit("مین");
    reveal_strlit("سوم");
    reveal_strlit("م");
    reveal_strlit("منفی");
    reveal_strlit("ت");
    reveal_strlit("فت");
    let w = "هفت"@;
    assert(number_words(7) == w);
    reveal_with_fuel(crate::text::trim_start_idx, 6);
    reveal_with_fuel(crate::text::trim_end_idx, 6);
    assert(trim_spec(w) =~= w);
    merge_7();
    let t = "هفت"@;
    assert("هفت"@[0] == 'ه');
    assert("هفت"@[1] == 'ف');
    assert("هفت"@[2] == 'ت');
    reveal_with_fuel(split_ws, 4);
    reveal_with_fuel(token_len, 6);
    assert(t.take(3) =~= t);
    assert(t.skip(3) =~= Seq::<char>::empty());
    assert(token_len(t) == 3);
    assert(split_ws(t) =~= seq![t]);
    assert(t.subrange(2, 3) =~= "ت"@);
    assert("ت"@[0] == 'ت');
    assert(t.subrange(1, 3) =~= "فت"@);
    assert("فت"@[0] == 'ف');
    assert("فت"@[1] == 'ت');
    assert(t.subrange(0, 3) =~= "هفت"@);
    assert("هفت"@[0] == 'ه');
    assert("هفت"@[1] == 'ف');
    assert("هفت"@[2] == 'ت');
    assert("مین"@[0] == 'م');
    assert("مین"@[1] == 'ی');
    assert("مین"@[2] == 'ن');
    assert("اُم"@[0] == 'ا');
    assert("اُم"@[1] == 'ُ');
    assert("اُم"@[2] == 'م');
    assert("ام"@[0] == 'ا');
    assert("ام"@[1] == 'م');
    assert("سوم"@[0] == 'س');
    assert("سوم"@[1] == 'و');
    assert("سوم"@[2] == 'م');
    assert("م"@[0] == 'م');
    assert(strip_ordinal(t) == t);
    reveal_with_fuel(clean_tokens, 3);
    assert(clean_tokens(seq![t]) =~= seq![t]);
    assert(unit_value(t) == Some(7i64));
    assert(t != negative_prefix());
    reveal_with_fuel(calc_scan, 3);
    assert(calc_scan(seq![t], 0, 0, false) == Ok::<i64, WordsToNumberError>(7i64));
    assert(words_to_number_spec(w) == Ok::<i64, WordsToNumberError>(7i64));
}

#[verifier::rlimit(100)]
proof fn merge_8()
    ensures
        merge_hundreds("هشت"@) == "هشت"@,
{
    reveal_strlit("شیش صد");
    reveal_strlit("شش صد");
    reveal_strlit("هفت صد");
    reveal_strlit("هشت صد");
    reveal_strlit("نه صد");
    reveal_strlit("چهار صد");
    reveal_strlit("ششصد");
    reveal_strlit("هفتصد");
    reveal_strlit("هشتصد");
    reveal_strlit("نهصد");
    reveal_strlit("چهارصد");
    reveal_strlit("هشت");
    reveal_with_fuel(replace_all, 7);
    let w = "هشت"@;
    assert("هشت"@[0] == 'ه');
    assert("هشت"@[1] == 'ش');
    assert("هشت"@[2] == 'ت');
    assert("شیش صد"@[0] == 'ش');
    assert("شیش صد"@[1] == 'ی');
    assert("شیش صد"@[2] == 'ش');
    assert("شیش صد"@[3] == ' ');
    assert("شیش صد"@[4] == 'ص');
    assert("شیش صد"@[5] == 'د');
    assert("شش صد"@[0] == 'ش');
    assert("شش صد"@[1] == 'ش');
    assert("شش صد"@[2] == ' ');
    assert("شش صد"@[3] == 'ص');
    assert("شش صد"@[4] == 'د');
    assert("هفت صد"@[0] == 'ه');
    assert("هفت صد"@[1] == 'ف');
    assert("هفت صد"@[2] == 'ت');
    assert("هفت صد"@[3] == ' ');
    assert("هفت صد"@[4] == 'ص');
    assert("هفت صد"@[5] == 'د');
    assert("هشت صد"@[0] == 'ه');
    assert("هشت صد"@[1] == 'ش');
    assert("هشت صد"@[2] == 'ت');
    assert("هشت صد"@[3] == ' ');
    assert("هشت صد"@[4] == 'ص');
    assert("هشت صد"@[5] == 'د');
    assert("نه صد"@[0] == 'ن');
    assert("نه صد"@[1] == 'ه');
    assert("نه صد"@[2] == ' ');
    assert("نه صد"@[3] == 'ص');
    assert("نه صد"@[4] == 'د');
    assert("چهار صد"@[0] == 'چ');
    assert("چهار صد"@[1] == 'ه');
    assert("چهار صد"@[2] == 'ا');
    assert("چهار صد"@[3] == 'ر');
    assert("چهار صد"@[4] == ' ');
    assert("چهار صد"@[5] == 'ص');
    assert("چهار صد"@[6] == 'د');
    assert("ششصد"@[0] == 'ش');
    assert("ششصد"@[1] == 'ش');
    assert("ششصد"@[2] == 'ص');
    assert("ششصد"@[3] == 'د');
    assert("ششصد"@[0] == 'ش');
    assert("ششصد"@[1] == 'ش');
    assert("ششصد"@[2] == 'ص');
    assert("ششصد"@[3] == 'د');
    assert("هفتصد"@[0] == 'ه');
    assert("هفتصد"@[1] == 'ف');
    assert("هفتصد"@[2] == 'ت');
    assert("هفتصد"@[3] == 'ص');
    assert("هفتصد"@[4] == 'د');
    assert("هشتصد"@[0] == 'ه');
    assert("هشتصد"@[1] == 'ش');
    assert("هشتصد"@[2] == 'ت');
    assert("هشتصد"@[3] == 'ص');
    assert("هشتصد"@[4] == 'د');
    assert("نهصد"@[0] == 'ن');
    assert("نهصد"@[1] == 'ه');
    assert("نهصد"@[2] == 'ص');
    assert("نهصد"@[3] == 'د');
    assert("چهارصد"@[0] == 'چ');
    assert("چهارصد"@[1] == 'ه');
    assert("چهارصد"@[2] == 'ا');
    assert("چهارصد"@[3] == 'ر');
    assert("چهارصد"@[4] == 'ص');
    assert("چهارصد"@[5] == 'د');
    assert(merge_hundreds(w) =~= w);
}

#[verifier::rlimit(100)]
proof fn rt_8()
    ensures
        words_to_number_spec(number_words(8)) == Ok::<i64, WordsToNumberError>(8i64),
{
    reveal_strlit("صفر");
    reveal_strlit("یک");
    reveal_strlit("دو");
    reveal_strlit("سه");
    reveal_strlit("چهار");
    reveal_strlit("پنج");
    reveal_strlit("شش");
    reveal_strlit("شیش");
    reveal_strlit("هفت");
    reveal_strlit("هشت");
    reveal_strlit("شیش صد");
    reveal_strlit("شش صد");
    reveal_strlit("هفت صد");
    reveal_strlit("هشت صد");
    reveal_strlit("نه صد");
    reveal_strlit("چهار صد");
    reveal_strlit("و");
    reveal_strlit("ام");
    reveal_strlit("اُم");
    reveal_strlit("مین");
    reveal_strlit("سوم");
    reveal_strlit("م");
    reveal_strlit("منفی");
    reveal_strlit("ت");
    reveal_strlit("شت");
    let w = "هشت"@;
    assert(number_words(8) == w);
    reveal_with_fuel(crate::text::trim_start_idx, 6);
    reveal_with_fuel(crate::text::trim_end_idx, 6);
    assert(trim_spec(w) =~= w);
    merge_8();
    let t = "هشت"@;
    assert("هشت"@[0] == 'ه');
    assert("هشت"@[1] == 'ش');
    assert("هشت"@[2] == 'ت');
    reveal_with_fuel(split_ws, 4);
    reveal_with_fuel(token_len, 6);
    assert(t.take(3) =~= t);
    assert(t.skip(3) =~= Seq::<char>::empty());
    assert(token_len(t) == 3);
    assert(split_ws(t) =~= seq![t]);
    assert(t.subrange(2, 3) =~= "ت"@);
    assert("ت"@[0] == 'ت');
    assert(t.subrange(1, 3) =~= "شت"@);
    assert("شت"@[0] == 'ش');
    assert("شت"@[1] == 'ت');
    assert(t.subrange(0, 3) =~= "هشت"@);
    assert("هشت"@[0] == 'ه');
    assert("هشت"@[1] == 'ش');
    assert("هشت"@[2] == 'ت');
    assert("مین"@[0] == 'م');
    assert("مین"@[1] == 'ی');
    assert("مین"@[2] == 'ن');
    assert("اُم"@[0] == 'ا');
    assert("اُم"@[1] == 'ُ');
    assert("اُم"@[2] == 'م');
    assert("ام"@[0] == 'ا');
    assert("ام"@[1] == 'م');
    assert("سوم"@[0] == 'س');
    assert("سوم"@[1] == 'و');
    assert("سوم"@[2] == 'م');
    assert("م"@[0] == 'م');
    assert(strip_ordinal(t) == t);
    reveal_with_fuel(clean_tokens, 3);
    assert(clean_tokens(seq![t]) =~= seq![t]);
    assert(unit_value(t) == Some(8i64));
    assert(t != negative_prefix());
    reveal_with_fuel(calc_scan, 3);
    assert(calc_scan(seq![t], 0, 0, false) == Ok::<i64, WordsToNumberError>(8i64));
    assert(words_to_number_spec(w) == Ok::<i64, WordsToNumberError>(8i64));
}

#[verifier::rlimit(100)]
proof fn merge_9()
    ensures
        merge_hundreds("نه"@) == "نه"@,
{
    reveal_strlit("شیش صد");
    reveal_strlit("شش صد");
    reveal_strlit("هفت صد");
    reveal_strlit("هشت صد");
    reveal_strlit("نه صد");
    reveal_strlit("چهار صد");
    reveal_strlit("ششصد");
    reveal_strlit("هفتصد");
    reveal_strlit("هشتصد");
    reveal_strlit("نهصد");
    reveal_strlit("چهارصد");
    reveal_strlit("نه");
    reveal_with_fuel(replace_all, 6);
    let w = "نه"@;
    assert("نه"@[0] == 'ن');
    assert("نه"@[1] == 'ه');
    assert("شیش صد"@[0] == 'ش');
    assert("شیش صد"@[1] == 'ی');
    assert("شیش صد"@[2] == 'ش');
    assert("شیش صد"@[3] == ' ');
    assert("شیش صد"@[4] == 'ص');
    assert("شیش صد"@[5] == 'د');
    assert("شش صد"@[0] == 'ش');
    assert("شش صد"@[1] == 'ش');
    assert("شش صد"@[2] == ' ');
    assert("شش صد"@[3] == 'ص');
    assert("شش صد"@[4] == 'د');
    assert("هفت صد"@[0] == 'ه');
    assert("هفت صد"@[1] == 'ف');
    assert("هفت صد"@[2] == 'ت');
    assert("هفت صد"@[3] == ' ');
    assert("هفت صد"@[4] == 'ص');
    assert("هفت صد"@[5] == 'د');
    assert("هشت صد"@[0] == 'ه');
    assert("هشت صد"@[1] == 'ش');
    assert("هشت صد"@[2] == 'ت');
    assert("هشت صد"@[3] == ' ');
    assert("هشت صد"@[4] == 'ص');
    assert("هشت صد"@[5] == 'د');
    assert("نه صد"@[0] == 'ن');
    assert("نه صد"@[1] == 'ه');
    assert("نه صد"@[2] == ' ');
    assert("نه صد"@[3] == 'ص');
    assert("نه صد"@[4] == 'د');
    assert("چهار صد"@[0] == 'چ');
    assert("چهار صد"@[1] == 'ه');
    assert("چهار صد"@[2] == 'ا');
    assert("چهار صد"@[3] == 'ر');
    assert("چهار صد"@[4] == ' ');
    assert("چهار صد"@[5] == 'ص');
    assert("چهار صد"@[6] == 'د');
    assert("ششصد"@[0] == 'ش');
    assert("ششصد"@[1] == 'ش');
    assert("ششصد"@[2] == 'ص');
    assert("ششصد"@[3] == 'د');
    assert("ششصد"@[0] == 'ش');
    assert("ششصد"@[1] == 'ش');
    assert("ششصد"@[2] == 'ص');
    assert("ششصد"@[3] == 'د');
    assert("هفتصد"@[0] == 'ه');
    assert("هفتصد"@[1] == 'ف');
    assert("هفتصد"@[2] == 'ت');
    assert("هفتصد"@[3] == 'ص');
    assert("هفتصد"@[4] == 'د');
    assert("هشتصد"@[0] == 'ه');
    assert("هشتصد"@[1] == 'ش');
    assert("هشتصد"@[2] == 'ت');
    assert("هشتصد"@[3] == 'ص');
    assert("هشتصد"@[4] == 'د');
    assert("نهصد"@[0] == 'ن');
    assert("نهصد"@[1] == 'ه');
    assert("نهصد"@[2] == 'ص');
    assert("نهصد"@[3] == 'د');
    assert("چهارصد"@[0] == 'چ');
    assert("چهارصد"@[1] == 'ه');
    assert("چهارصد"@[2] == 'ا');
    assert("چهارصد"@[3] == 'ر');
    assert("چهارصد"@[4] == 'ص');
    assert("چهارصد"@[5] == 'د');
    assert(merge_hundreds(w) =~= w);
}

#[verifier::rlimit(100)]
proof fn rt_9()
    ensures
        words_to_number_spec(number_words(9)) == Ok::<i64, WordsToNumberError>(9i64),
{
    reveal_strlit("صفر");
    reveal_strlit("یک");
    reveal_strlit("دو");
    reveal_strlit("سه");
    reveal_strlit("چهار");
    reveal_strlit("پنج");
    reveal_strlit("شش");
    reveal_strlit("شیش");
    reveal_strlit("هفت");
    reveal_strlit("هشت");
    reveal_strlit("نه");
    reveal_strlit("شیش صد");
    reveal_strlit("شش صد");
    reveal_strlit("هفت صد");
    reveal_strlit("هشت صد");
    reveal_strlit("نه صد");
    reveal_strlit("چهار صد");
    reveal_strlit("و");
    reveal_strlit("ام");
    reveal_strlit("اُم");
    reveal_strlit("مین");
    reveal_strlit("سوم");
    reveal_strlit("م");
    reveal_strlit("منفی");
    reveal_strlit("ه");
    let w = "نه"@;
    assert(number_words(9) == w);
    reveal_with_fuel(crate::text::trim_start_idx, 5);
    reveal_with_fuel(crate::text::trim_end_idx, 5);
    assert(trim_spec(w) =~= w);
    merge_9();
    let t = "نه"@;
    assert("نه"@[0] == 'ن');
    assert("نه"@[1] == 'ه');
    reveal_with_fuel(split_ws, 4);
    reveal_with_fuel(token_len, 5);
    assert(t.take(2) =~= t);
    assert(t.skip(2) =~= Seq::<char>::empty());
    assert(token_len(t) == 2);
    assert(split_ws(t) =~= seq![t]);
    assert(t.subrange(1, 2) =~= "ه"@);
    assert("ه"@[0] == 'ه');
    assert(t.subrange(0, 2) =~= "نه"@);
    assert("نه"@[0] == 'ن');
    assert("نه"@[1] == 'ه');
    assert("مین"@[0] == 'م');
    assert("مین"@[1] == 'ی');
    assert("مین"@[2] == 'ن');
    assert("اُم"@[0] == 'ا');
    assert("اُم"@[1] == 'ُ');
    assert("اُم"@[2] == 'م');
    assert("ام"@[0] == 'ا');
    assert("ام"@[1] == 'م');
    assert("سوم"@[0] == 'س');
    assert("سوم"@[1] == 'و');
    assert("سوم"@[2] == 'م');
    assert("م"@[0] == 'م');
    assert(strip_ordinal(t) == t);
    reveal_with_fuel(clean_tokens, 3);
    assert(clean_tokens(seq![t]) =~= seq![t]);
    assert(unit_value(t) == Some(9i64));
    assert(t != negative_prefix());
    reveal_with_fuel(calc_scan, 3);
    assert(calc_scan(seq![t], 0, 0, false) == Ok::<i64, WordsToNumberError>(9i64));
    assert(words_to_number_spec(w) == Ok::<i64, WordsToNumberError>(9i64));
}

#[verifier::rlimit(100)]
proof fn merge_10()
    ensures
        merge_hundreds("ده"@) == "ده"@,
{
    reveal_strlit("شیش صد");
    reveal_strlit("شش صد");
    reveal_strlit("هفت صد");
    reveal_strlit("هشت صد");
    reveal_strlit("نه صد");
    reveal_strlit("چهار صد");
    reveal_strlit("ششصد");
    reveal_strlit("هفتصد");
    reveal_strlit("هشتصد");
    reveal_strlit("نهصد");
    reveal_strlit("چهارصد");
    reveal_strlit("ده");
    reveal_with_fuel(replace_all, 6);
    let w = "ده"@;
    assert("ده"@[0] == 'د');
    assert("ده"@[1] == 'ه');
    assert("شیش صد"@[0] == 'ش');
    assert("شیش صد"@[1] == 'ی');
    assert("شیش صد"@[2] == 'ش');
    assert("شیش صد"@[3] == ' ');
    assert("شیش صد"@[4] == 'ص');
    assert("شیش صد"@[5] == 'د');
    assert("شش صد"@[0] == 'ش');
    assert("شش صد"@[1] == 'ش');
    assert("شش صد"@[2] == ' ');
    assert("شش صد"@[3] == 'ص');
    assert("شش صد"@[4] == 'د');
    assert("هفت صد"@[0] == 'ه');
    assert("هفت صد"@[1] == 'ف');
    assert("هفت صد"@[2] == 'ت');
    assert("هفت صد"@[3] == ' ');
    assert("هفت صد"@[4] == 'ص');
    assert("هفت صد"@[5] == 'د');
    assert("هشت صد"@[0] == 'ه');
    assert("هشت صد"@[1] == 'ش');
    assert("هشت صد"@[2] == 'ت');
    assert("هشت صد"@[3] == ' ');
    assert("هشت صد"@[4] == 'ص');
    assert("هشت صد"@[5] == 'د');
    assert("نه صد"@[0] == 'ن');
    assert("نه صد"@[1] == 'ه');
    assert("نه صد"@[2] == ' ');
    assert("نه صد"@[3] == 'ص');
    assert("نه صد"@[4] == 'د');
    assert("چهار صد"@[0] == 'چ');
    assert("چهار صد"@[1] == 'ه');
    assert("چهار صد"@[2] == 'ا');
    assert("چهار صد"@[3] == 'ر');
    assert("چهار صد"@[4] == ' ');
    assert("چهار صد"@[5] == 'ص');
    assert("چهار صد"@[6] == 'د');
    assert("ششصد"@[0] == 'ش');
    assert("ششصد"@[1] == 'ش');
    assert("ششصد"@[2] == 'ص');
    assert("ششصد"@[3] == 'د');
    assert("ششصد"@[0] == 'ش');
    assert("ششصد"@[1] == 'ش');
    assert("ششصد"@[2] == 'ص');
    assert("ششصد"@[3] == 'د');
    assert("هفتصد"@[0] == 'ه');
    assert("هفتصد"@[1] == 'ف');
    assert("هفتصد"@[2] == 'ت');
    assert("هفتصد"@[3] == 'ص');
    assert("هفتصد"@[4] == 'د');
    assert("هشتصد"@[0] == 'ه');
    assert("هشتصد"@[1] == 'ش');
    assert("هشتصد"@[2] == 'ت');
    assert("هشتصد"@[3] == 'ص');
    assert("هشتصد"@[4] == 'د');
    assert("نهصد"@[0] == 'ن');
    assert("نهصد"@[1] == 'ه');
    assert("نهصد"@[2] == 'ص');
    assert("نهصد"@[3] == 'د');
    assert("چهارصد"@[0] == 'چ');
    assert("چهارصد"@[1] == 'ه');
    assert("چهارصد"@[2] == 'ا');
    assert("چهارصد"@[3] == 'ر');
    assert("چهارصد"@[4] == 'ص');
    assert("چهارصد"@[5] == 'د');
    assert(merge_hundreds(w) =~= w);
}

#[verifier::rlimit(100)]
proof fn rt_10()
    ensures
        words_to_number_spec(number_words(10)) == Ok::<i64, WordsToNumberError>(10i64),
{
    reveal_strlit("صفر");
    reveal_strlit("یک");
    reveal_strlit("دو");
    reveal_strlit("سه");
    reveal_strlit("چهار");
    reveal_strlit("پنج");
    reveal_strlit("شش");
    reveal_strlit("شیش");
    reveal_strlit("هفت");
    reveal_strlit("هشت");
    reveal_strlit("نه");
    reveal_strlit("ده");
    reveal_strlit("شیش صد");
    reveal_strlit("شش صد");
    reveal_strlit("هفت صد");
    reveal_strlit("هشت صد");
    reveal_strlit("نه صد");
    reveal_strlit("چهار صد");
    reveal_strlit("و");
    reveal_strlit("ام");
    reveal_strlit("اُم");
    reveal_strlit("مین");
    reveal_strlit("سوم");
    reveal_strlit("م");
    reveal_strlit("منفی");
    reveal_strlit("ه");
    let w = "ده"@;
    assert(number_words(10) == w);
    reveal_with_fuel(crate::text::trim_start_idx, 5);
    reveal_with_fuel(crate::text::trim_end_idx, 5);
    assert(trim_spec(w) =~= w);
    merge_10();
    let t = "ده"@;
    assert("ده"@[0] == 'د');
    assert("ده"@[1] == 'ه');
    reveal_with_fuel(split_ws, 4);
    reveal_with_fuel(token_len, 5);
    assert(t.take(2) =~= t);
    assert(t.skip(2) =~= Seq::<char>::empty());
    assert(token_len(t) == 2);
    assert(split_ws(t) =~= seq![t]);
    assert(t.subrange(1, 2) =~= "ه"@);
    assert("ه"@[0] == 'ه');
    assert(t.subrange(0, 2) =~= "ده"@);
    assert("ده"@[0] == 'د');
    assert("ده"@[1] == 'ه');
    assert("مین"@[0] == 'م');
    assert("مین"@[1] == 'ی');
    assert("مین"@[2] == 'ن');
    assert("اُم"@[0] == 'ا');
    assert("اُم"@[1] == 'ُ');
    assert("اُم"@[2] == 'م');
    assert("ام"@[0] == 'ا');
    assert("ام"@[1] == 'م');
    assert("سوم"@[0] == 'س');
    assert("سوم"@[1] == 'و');
    assert("سوم"@[2] == 'م');
    assert("م"@[0] == 'م');
    assert(strip_ordinal(t) == t);
    reveal_with_fuel(clean_tokens, 3);
    assert(clean_tokens(seq![t]) =~= seq![t]);
    assert(unit_value(t) == Some(10i64));
    assert(t != negative_prefix());
    reveal_with_fuel(calc_scan, 3);
    assert(calc_scan(seq![t], 0, 0, false) == Ok::<i64, WordsToNumberError>(10i64));
    assert(words_to_number_spec(w) == Ok::<i64, WordsToNumberError>(10i64));
}

#[verifier::rlimit(100)]
proof fn merge_11()
    ensures
        merge_hundreds("یازده"@) == "یازده"@,
{
    reveal_strlit("شیش صد");
    reveal_strlit("شش صد");
    reveal_strlit("هفت صد");
    reveal_strlit("هشت صد");
    reveal_strlit("نه صد");
    reveal_strlit("چهار صد");
    reveal_strlit("ششصد");
    reveal_strlit("هفتصد");
    reveal_strlit("هشتصد");
    reveal_strlit("نهصد");
    reveal_strlit("چهارصد");
    reveal_strlit("یازده");
    reveal_with_fuel(replace_all, 9);
    let w = "یازده"@;
    assert("یازده"@[0] == 'ی');
    assert("یازده"@[1] == 'ا');
    assert("یازده"@[2] == 'ز');
    assert("یازده"@[3] == 'د');
    assert("یازده"@[4] == 'ه');
    assert("شیش صد"@[0] == 'ش');
    assert("شیش صد"@[1] == 'ی');
    assert("شیش صد"@[2] == 'ش');
    assert("شیش صد"@[3] == ' ');
    assert("شیش صد"@[4] == 'ص');
    assert("شیش صد"@[5] == 'د');
    assert("شش صد"@[0] == 'ش');
    assert("شش صد"@[1] == 'ش');
    assert("شش صد"@[2] == ' ');
    assert("شش صد"@[3] == 'ص');
    assert("شش صد"@[4] == 'د');
    assert("هفت صد"@[0] == 'ه');
    assert("هفت صد"@[1] == 'ف');
    assert("هفت صد"@[2] == 'ت');
    assert("هفت صد"@[3] == ' ');
    assert("هفت صد"@[4] == 'ص');
    assert("هفت صد"@[5] == 'د');
    assert("هشت صد"@[0] == 'ه');
    assert("هشت صد"@[1] == 'ش');
    assert("هشت صد"@[2] == 'ت');
    assert("هشت صد"@[3] == ' ');
    assert("هشت صد"@[4] == 'ص');
    assert("هشت صد"@[5] == 'د');
    assert("نه صد"@[0] == 'ن');
    assert("نه صد"@[1] == 'ه');
    assert("نه صد"@[2] == ' ');
    assert("نه صد"@[3] == 'ص');
    assert("نه صد"@[4] == 'د');
    assert("چهار صد"@[0] == 'چ');
    assert("چهار صد"@[1] == 'ه');
    assert("چهار صد"@[2] == 'ا');
    assert("چهار صد"@[3] == 'ر');
    assert("چهار صد"@[4] == ' ');
    assert("چهار صد"@[5] == 'ص');
    assert("چهار صد"@[6] == 'د');
    assert("ششصد"@[0] == 'ش');
    assert("ششصد"@[1] == 'ش');
    assert("ششصد"@[2] == 'ص');
    assert("ششصد"@[3] == 'د');
    assert("ششصد"@[0] == 'ش');
    assert("ششصد"@[1] == 'ش');
    assert("ششصد"@[2] == 'ص');
    assert("ششصد"@[3] == 'د');
    assert("هفتصد"@[0] == 'ه');
    assert("هفتصد"@[1] == 'ف');
    assert("هفتصد"@[2] == 'ت');
    assert("هفتصد"@[3] == 'ص');
    assert("هفتصد"@[4] == 'د');
    assert("هشتصد"@[0] == 'ه');
    assert("هشتصد"@[1] == 'ش');
    assert("هشتصد"@[2] == 'ت');
    assert("هشتصد"@[3] == 'ص');
    assert("هشتصد"@[4] == 'د');
    assert("نهصد"@[0] == 'ن');
    assert("نهصد"@[1] == 'ه');
    assert("نهصد"@[2] == 'ص');
    assert("نهصد"@[3] == 'د');
    assert("چهارصد"@[0] == 'چ');
    assert("چهارصد"@[1] == 'ه');
    assert("چهارصد"@[2] == 'ا');
    assert("چهارصد"@[3] == 'ر');
    assert("چهارصد"@[4] == 'ص');
    assert("چهارصد"@[5] == 'د');
    assert(merge_hundreds(w) =~= w);
}

#[verifier::rlimit(100)]
proof fn rt_11()
    ensures
        words_to_number_spec(number_words(11)) == Ok::<i64, WordsToNumberError>(11i64),
{
    reveal_strlit("صفر");
    reveal_strlit("یک");
    reveal_strlit("دو");
    reveal_strlit("سه");
    reveal_strlit("چهار");
    reveal_strlit("پنج");
    reveal_strlit("شش");
    reveal_strlit("شیش");
    reveal_strlit("هفت");
    reveal_strlit("هشت");
    reveal_strlit("نه");
    reveal_strlit("ده");
    reveal_strlit("یازده");
    reveal_strlit("شیش صد");
    reveal_strlit("شش صد");
    reveal_strlit("هفت صد");
    reveal_strlit("هشت صد");
    reveal_strlit("نه صد");
    reveal_strlit("چهار صد");
    reveal_strlit("و");
    reveal_strlit("ام");
    reveal_strlit("اُم");
    reveal_strlit("مین");
    reveal_strlit("سوم");
    reveal_strlit("م");
    reveal_strlit("منفی");
    reveal_strlit("ه");
    reveal_strlit("زده");
    let w = "یازده"@;
    assert(number_words(11) == w);
    reveal_with_fuel(crate::text::trim_start_idx, 8);
    reveal_with_fuel(crate::text::trim_end_idx, 8);
    assert(trim_spec(w) =~= w);
    merge_11();
    let t = "یازده"@;
    assert("یازده"@[0] == 'ی');
    assert("یازده"@[1] == 'ا');
    assert("یازده"@[2] == 'ز');
    assert("یازده"@[3] == 'د');
    assert("یازده"@[4] == 'ه');
    reveal_with_fuel(split_ws, 4);
    reveal_with_fuel(token_len, 8);
    assert(t.take(5) =~= t);
    assert(t.skip(5) =~= Seq::<char>::empty());
    assert(token_len(t) == 5);
    assert(split_ws(t) =~= seq![t]);
    assert(t.subrange(4, 5) =~= "ه"@);
    assert("ه"@[0] == 'ه');
    assert(t.subrange(3, 5) =~= "ده"@);
    assert("ده"@[0] == 'د');
    assert("ده"@[1] == 'ه');
    assert(t.subrange(2, 5) =~= "زده"@);
    assert("زده"@[0] == 'ز');
    assert("زده"@[1] == 'د');
    assert("زده"@[2] == 'ه');
    assert("مین"@[0] == 'م');
    assert("مین"@[1] == 'ی');
    assert("مین"@[2] == 'ن');
    assert("اُم"@[0] == 'ا');
    assert("اُم"@[1] == 'ُ');
    assert("اُم"@[2] == 'م');
    assert("ام"@[0] == 'ا');
    assert("ام"@[1] == 'م');
    assert("سوم"@[0] == 'س');
    assert("سوم"@[1] == 'و');
    assert("سوم"@[2] == 'م');
    assert("م"@[0] == 'م');
    assert(strip_ordinal(t) == t);
    reveal_with_fuel(clean_tokens, 3);
    assert(clean_tokens(seq![t]) =~= seq![t]);
    assert(unit_value(t) == Some(11i64));
    assert(t != negative_prefix());
    reveal_with_fuel(calc_scan, 3);
    assert(calc_scan(seq![t], 0, 0, false) == Ok::<i64, WordsToNumberError>(11i64));
    assert(words_to_number_spec(w) == Ok::<i64, WordsToNumberError>(11i64));
}

#[verifier::rlimit(100)]
proof fn merge_12()
    ensures
        merge_hundreds("دوازده"@) == "دوازده"@,
{
    reveal_strlit("شیش صد");
    reveal_strlit("شش صد");
    reveal_strlit("هفت صد");
    reveal_strlit("هشت صد");
    reveal_strlit("نه صد");
    reveal_strlit("چهار صد");
    reveal_strlit("ششصد");
    reveal_strlit("هفتصد");
    reveal_strlit("هشتصد");
    reveal_strlit("نهصد");
    reveal_strlit("چهارصد");
    reveal_strlit("دوازده");
    reveal_with_fuel(replace_all, 10);
    let w = "دوازده"@;
    assert("دوازده"@[0] == 'د');
    assert("دوازده"@[1] == 'و');
    assert("دوازده"@[2] == 'ا');
    assert("دوازده"@[3] == 'ز');
    assert("دوازده"@[4] == 'د');
    assert("دوازده"@[5] == 'ه');
    assert("شیش صد"@[0] == 'ش');
    assert("شیش صد"@[1] == 'ی');
    assert("شیش صد"@[2] == 'ش');
    assert("شیش صد"@[3] == ' ');
    assert("شیش صد"@[4] == 'ص');
    assert("شیش صد"@[5] == 'د');
    assert("شش صد"@[0] == 'ش');
    assert("شش صد"@[1] == 'ش');
    assert("شش صد"@[2] == ' ');
    assert("شش صد"@[3] == 'ص');
    assert("شش صد"@[4] == 'د');
    assert("هفت صد"@[0] == 'ه');
    assert("هفت صد"@[1] == 'ف');
    assert("هفت صد"@[2] == 'ت');
    assert("هفت صد"@[3] == ' ');
    assert("هفت صد"@[4] == 'ص');
    assert("هفت صد"@[5] == 'د');
    assert("هشت صد"@[0] == 'ه');
    assert("هشت صد"@[1] == 'ش');
    assert("هشت صد"@[2] == 'ت');
    assert("هشت صد"@[3] == ' ');
    assert("هشت صد"@[4] == 'ص');
    assert("هشت صد"@[5] == 'د');
    assert("نه صد"@[0] == 'ن');
    assert("نه صد"@[1] == 'ه');
    assert("نه صد"@[2] == ' ');
    assert("نه صد"@[3] == 'ص');
    assert("نه صد"@[4] == 'د');
    assert("چهار صد"@[0] == 'چ');
    assert("چهار صد"@[1] == 'ه');
    assert("چهار صد"@[2] == 'ا');
    assert("چهار صد"@[3] == 'ر');
    assert("چهار صد"@[4] == ' ');
    assert("چهار صد"@[5] == 'ص');
    assert("چهار صد"@[6] == 'د');
    assert("ششصد"@[0] == 'ش');
    assert("ششصد"@[1] == 'ش');
    assert("ششصد"@[2] == 'ص');
    assert("ششصد"@[3] == 'د');
    assert("ششصد"@[0] == 'ش');
    assert("ششصد"@[1] == 'ش');
    assert("ششصد"@[2] == 'ص');
    assert("ششصد"@[3] == 'د');
    assert("هفتصد"@[0] == 'ه');
    assert("هفتصد"@[1] == 'ف');
    assert("هفتصد"@[2] == 'ت');
    assert("هفتصد"@[3] == 'ص');
    assert("هفتصد"@[4] == 'د');
    assert("هشتصد"@[0] == 'ه');
    assert("هشتصد"@[1] == 'ش');
    assert("هشتصد"@[2] == 'ت');
    assert("هشتصد"@[3] == 'ص');
    assert("هشتصد"@[4] == 'د');
    assert("نهصد"@[0] == 'ن');
    assert("نهصد"@[1] == 'ه');
    assert("نهصد"@[2] == 'ص');
    assert("نهصد"@[3] == 'د');
    assert("چهارصد"@[0] == 'چ');
    assert("چهارصد"@[1] == 'ه');
    assert("چهارصد"@[2] == 'ا');
    assert("چهارصد"@[3] == 'ر');
    assert("چهارصد"@[4] == 'ص');
    assert("چهارصد"@[5] == 'د');
    assert(merge_hundreds(w) =~= w);
}

#[verifier::rlimit(100)]
proof fn rt_12()
    ensures
        words_to_number_spec(number_words(12)) == Ok::<i64, WordsToNumberError>(12i64),
{
    reveal_strlit("صفر");
    reveal_strlit("یک");
    reveal_strlit("دو");
    reveal_strlit("سه");
    reveal_strlit("چهار");
    reveal_strlit("پنج");
    reveal_strlit("شش");
    reveal_strlit("شیش");
    reveal_strlit("هفت");
    reveal_strlit("هشت");
    reveal_strlit("نه");
    reveal_strlit("ده");
    reveal_strlit("یازده");
    reveal_strlit("دوازده");
    reveal_strlit("شیش صد");
    reveal_strlit("شش صد");
    reveal_strlit("هفت صد");
    reveal_strlit("هشت صد");
    reveal_strlit("نه صد");
    reveal_strlit("چهار صد");
    reveal_strlit("و");
    reveal_strlit("ام");
    reveal_strlit("اُم");
    reveal_strlit("مین");
    reveal_strlit("سوم");
    reveal_strlit("م");
    reveal_strlit("منفی");
    reveal_strlit("ه");
    reveal_strlit("زده");
    let w = "دوازده"@;
    assert(number_words(12) == w);
    reveal_with_fuel(crate::text::trim_start_idx, 9);
    reveal_with_fuel(crate::text::trim_end_idx, 9);
    assert(trim_spec(w) =~= w);
    merge_12();
    let t = "دوازده"@;
    assert("دوازده"@[0] == 'د');
    assert("دوازده"@[1] == 'و');
    assert("دوازده"@[2] == 'ا');
    assert("دوازده"@[3] == 'ز');
    assert("دوازده"@[4] == 'د');
    assert("دوازده"@[5] == 'ه');
    reveal_with_fuel(split_ws, 4);
    reveal_with_fuel(token_len, 9);
    assert(t.take(6) =~= t);
    assert(t.skip(6) =~= Seq::<char>::empty());
    assert(token_len(t) == 6);
    assert(split_ws(t) =~= seq![t]);
    assert(t.subrange(5, 6) =~= "ه"@);
    assert("ه"@[0] == 'ه');
    assert(t.subrange(4, 6) =~= "ده"@);
    assert("ده"@[0] == 'د');
    assert("ده"@[1] == 'ه');
    assert(t.subrange(3, 6) =~= "زده"@);
    assert("زده"@[0] == 'ز');
    assert("زده"@[1] == 'د');
    assert("زده"@[2] == 'ه');
    assert("مین"@[0] == 'م');
    assert("مین"@[1] == 'ی');
    assert("مین"@[2] == 'ن');
    assert("اُم"@[0] == 'ا');
    assert("اُم"@[1] == 'ُ');
    assert("اُم"@[2] == 'م');
    assert("ام"@[0] == 'ا');
    assert("ام"@[1] == 'م');
    assert("سوم"@[0] == 'س');
    assert("سوم"@[1] == 'و');
    assert("سوم"@[2] == 'م');
    assert("م"@[0] == 'م');
    assert(strip_ordinal(t) == t);
    reveal_with_fuel(clean_tokens, 3);
    assert(clean_tokens(seq![t]) =~= seq![t]);
    assert(unit_value(t) == Some(12i64));
    assert(t != negative_prefix());
    reveal_with_fuel(calc_scan, 3);
    assert(calc_scan(seq![t], 0, 0, false) == Ok::<i64, WordsToNumberError>(12i64));
    assert(words_to_number_spec(w) == Ok::<i64, WordsToNumberError>(12i64));
}

#[verifier::rlimit(100)]
proof fn merge_13()
    ensures
        merge_hundreds("سیزده"@) == "سیزده"@,
{
    reveal_strlit("شیش صد");
    reveal_strlit("شش صد");
    reveal_strlit("هفت صد");
    reveal_strlit("هشت صد");
    reveal_strlit("نه صد");
    reveal_strlit("چهار صد");
    reveal_strlit("ششصد");
    reveal_strlit("هفتصد");
    reveal_strlit("هشتصد");
    reveal_strlit("نهصد");
    reveal_strlit("چهارصد");
    reveal_strlit("سیزده");
    reveal_with_fuel(replace_all, 9);
    let w = "سیزده"@;
    assert("سیزده"@[0] == 'س');
    assert("سیزده"@[1] == 'ی');
    assert("سیزده"@[2] == 'ز');
    assert("سیزده"@[3] == 'د');
    assert("سیزده"@[4] == 'ه');
    assert("شیش صد"@[0] == 'ش');
    assert("شیش صد"@[1] == 'ی');
    assert("شیش صد"@[2] == 'ش');
    assert("شیش صد"@[3] == ' ');
    assert("شیش صد"@[4] == 'ص');
    assert("شیش صد"@[5] == 'د');
    assert("شش صد"@[0] == 'ش');
    assert("شش صد"@[1] == 'ش');
    assert("شش صد"@[2] == ' ');
    assert("شش صد"@[3] == 'ص');
    assert("شش صد"@[4] == 'د');
    assert("هفت صد"@[0] == 'ه');
    assert("هفت صد"@[1] == 'ف');
    assert("هفت صد"@[2] == 'ت');
    assert("هفت صد"@[3] == ' ');
    assert("هفت صد"@[4] == 'ص');
    assert("هفت صد"@[5] == 'د');
    assert("هشت صد"@[0] == 'ه');
    assert("هشت صد"@[1] == 'ش');
    assert("هشت صد"@[2] == 'ت');
    assert("هشت صد"@[3] == ' ');
    assert("هشت صد"@[4] == 'ص');
    assert("هشت صد"@[5] == 'د');
    assert("نه صد"@[0] == 'ن');
    assert("نه صد"@[1] == 'ه');
    assert("نه صد"@[2] == ' ');
    assert("نه صد"@[3] == 'ص');
    assert("نه صد"@[4] == 'د');
    assert("چهار صد"@[0] == 'چ');
    assert("چهار صد"@[1] == 'ه');
    assert("چهار صد"@[2] == 'ا');
    assert("چهار صد"@[3] == 'ر');
    assert("چهار صد"@[4] == ' ');
    assert("چهار صد"@[5] == 'ص');
    assert("چهار صد"@[6] == 'د');
    assert("ششصد"@[0] == 'ش');
    assert("ششصد"@[1] == 'ش');
    assert("ششصد"@[2] == 'ص');
    assert("ششصد"@[3] == 'د');
    assert("ششصد"@[0] == 'ش');
    assert("ششصد"@[1] == 'ش');
    assert("ششصد"@[2] == 'ص');
    assert("ششصد"@[3] == 'د');
    assert("هفتصد"@[0] == 'ه');
    assert("هفتصد"@[1] == 'ف');
    assert("هفتصد"@[2] == 'ت');
    assert("هفتصد"@[3] == 'ص');
    assert("هفتصد"@[4] == 'د');
    assert("هشتصد"@[0] == 'ه');
    assert("هشتصد"@[1] == 'ش');
    assert("هشتصد"@[2] == 'ت');
    assert("هشتصد"@[3] == 'ص');
    assert("هشتصد"@[4] == 'د');
    assert("نهصد"@[0] == 'ن');
    assert("نهصد"@[1] == 'ه');
    assert("نهصد"@[2] == 'ص');
    assert("نهصد"@[3] == 'د');
    assert("چهارصد"@[0] == 'چ');
    assert("چهارصد"@[1] == 'ه');
    assert("چهارصد"@[2] == 'ا');
    assert("چهارصد"@[3] == 'ر');
    assert("چهارصد"@[4] == 'ص');
    assert("چهارصد"@[5] == 'د');
    assert(merge_hundreds(w) =~= w);
}

#[verifier::rlimit(100)]
proof fn rt_13()
    ensures
        words_to_number_spec(number_words(13)) == Ok::<i64, WordsToNumberError>(13i64),
{
    reveal_strlit("صفر");
    reveal_strlit("یک");
    reveal_strlit("دو");
    reveal_strlit("سه");
    reveal_strlit("چهار");
    reveal_strlit("پنج");
    reveal_strlit("شش");
    reveal_strlit("شیش");
    reveal_strlit("هفت");
    reveal_strlit("هشت");
    reveal_strlit("نه");
    reveal_strlit("ده");
    reveal_strlit("یازده");
    reveal_strlit("دوازده");
    reveal_strlit("سیزده");
    reveal_strlit("شیش صد");
    reveal_strlit("شش صد");
    reveal_strlit("هفت صد");
    reveal_strlit("هشت صد");
    reveal_strlit("نه صد");
    reveal_strlit("چهار صد");
    reveal_strlit("و");
    reveal_strlit("ام");
    reveal_strlit("اُم");
    reveal_strlit("مین");
    reveal_strlit("سوم");
    reveal_strlit("م");
    reveal_strlit("منفی");
    reveal_strlit("ه");
    reveal_strlit("زده");
    let w = "سیزده"@;
    assert(number_words(13) == w);
    reveal_with_fuel(crate::text::trim_start_idx, 8);
    reveal_with_fuel(crate::text::trim_end_idx, 8);
    assert(trim_spec(w) =~= w);
    merge_13();
    let t = "سیزده"@;
    assert("سیزده"@[0] == 'س');
    assert("سیزده"@[1] == 'ی');
    assert("سیزده"@[2] == 'ز');
    assert("سیزده"@[3] == 'د');
    assert("سیزده"@[4] == 'ه');
    reveal_with_fuel(split_ws, 4);
    reveal_with_fuel(token_len, 8);
    assert(t.take(5) =~= t);
    assert(t.skip(5) =~= Seq::<char>::empty());
    assert(token_len(t) == 5);
    assert(split_ws(t) =~= seq![t]);
    assert(t.subrange(4, 5) =~= "ه"@);
    assert("ه"@[0] == 'ه');
    assert(t.subrange(3, 5) =~= "ده"@);
    assert("ده"@[0] == 'د');
    assert("ده"@[1] == 'ه');
    assert(t.subrange(2, 5) =~= "زده"@);
    assert("زده"@[0] == 'ز');
    assert("زده"@[1] == 'د');
    assert("زده"@[2] == 'ه');
    assert("مین"@[0] == 'م');
    assert("مین"@[1] == 'ی');
    assert("مین"@[2] == 'ن');
    assert("اُم"@[0] == 'ا');
    assert("اُم"@[1] == 'ُ');
    assert("اُم"@[2] == 'م');
    assert("ام"@[0] == 'ا');
    assert("ام"@[1] == 'م');
    assert("سوم"@[0] == 'س');
    assert("سوم"@[1] == 'و');
    assert("سوم"@[2] == 'م');
    assert("م"@[0] == 'م');
    assert(strip_ordinal(t) == t);
    reveal_with_fuel(clean_tokens, 3);
    assert(clean_tokens(seq![t]) =~= seq![t]);
    assert(unit_value(t) == Some(13i64));
    assert(t != negative_prefix());
    reveal_with_fuel(calc_scan, 3);
    assert(calc_scan(seq![t], 0, 0, false) == Ok::<i64, WordsToNumberError>(13i64));
    assert(words_to_number_spec(w) == Ok::<i64, WordsToNumberError>(13i64));
}

#[verifier::rlimit(100)]
proof fn merge_14()
    ensures
        merge_hundreds("چهارده"@) == "چهارده"@,
{
    reveal_strlit("شیش صد");
    reveal_strlit("شش صد");
    reveal_strlit("هفت صد");
    reveal_strlit("هشت صد");
    reveal_strlit("نه صد");
    reveal_strlit("چهار صد");
    reveal_strlit("ششصد");
    reveal_strlit("هفتصد");
    reveal_strlit("هشتصد");
    reveal_strlit("نهصد");
    reveal_strlit("چهارصد");
    reveal_strlit("چهارده");
    reveal_with_fuel(replace_all, 10);
    let w = "چهارده"@;
    assert("چهارده"@[0] == 'چ');
    assert("چهارده"@[1] == 'ه');
    assert("چهارده"@[2] == 'ا');
    assert("چهارده"@[3] == 'ر');
    assert("چهارده"@[4] == 'د');
    assert("چهارده"@[5] == 'ه');
    assert("شیش صد"@[0] == 'ش');
    assert("شیش صد"@[1] == 'ی');
    assert("شیش صد"@[2] == 'ش');
    assert("شیش صد"@[3] == ' ');
    assert("شیش صد"@[4] == 'ص');
    assert("شیش صد"@[5] == 'د');
    assert("شش صد"@[0] == 'ش');
    assert("شش صد"@[1] == 'ش');
    assert("شش صد"@[2] == ' ');
    assert("شش صد"@[3] == 'ص');
    assert("شش صد"@[4] == 'د');
    assert("هفت صد"@[0] == 'ه');
    assert("هفت صد"@[1] == 'ف');
    assert("هفت صد"@[2] == 'ت');
    assert("هفت صد"@[3] == ' ');
    assert("هفت صد"@[4] == 'ص');
    assert("هفت صد"@[5] == 'د');
    assert("هشت صد"@[0] == 'ه');
    assert("هشت صد"@[1] == 'ش');
    assert("هشت صد"@[2] == 'ت');
    assert("هشت صد"@[3] == ' ');
    assert("هشت صد"@[4] == 'ص');
    assert("هشت صد"@[5] == 'د');
    assert("نه صد"@[0] == 'ن');
    assert("نه صد"@[1] == 'ه');
    assert("نه صد"@[2] == ' ');
    assert("نه صد"@[3] == 'ص');
    assert("نه صد"@[4] == 'د');
    assert("چهار صد"@[0] == 'چ');
    assert("چهار صد"@[1] == 'ه');
    assert("چهار صد"@[2] == 'ا');
    assert("چهار صد"@[3] == 'ر');
    assert("چهار صد"@[4] == ' ');
    assert("چهار صد"@[5] == 'ص');
    assert("چهار صد"@[6] == 'د');
    assert("ششصد"@[0] == 'ش');
    assert("ششصد"@[1] == 'ش');
    assert("ششصد"@[2] == 'ص');
    assert("ششصد"@[3] == 'د');
    assert("ششصد"@[0] == 'ش');
    assert("ششصد"@[1] == 'ش');
    assert("ششصد"@[2] == 'ص');
    assert("ششصد"@[3] == 'د');
    assert("هفتصد"@[0] == 'ه');
    assert("هفتصد"@[1] == 'ف');
    assert("هفتصد"@[2] == 'ت');
    assert("هفتصد"@[3] == 'ص');
    assert("هفتصد"@[4] == 'د');
    assert("هشتصد"@[0] == 'ه');
    assert("هشتصد"@[1] == 'ش');
    assert("هشتصد"@[2] == 'ت');
    assert("هشتصد"@[3] == 'ص');
    assert("هشتصد"@[4] == 'د');
    assert("نهصد"@[0] == 'ن');
    assert("نهصد"@[1] == 'ه');
    assert("نهصد"@[2] == 'ص');
    assert("نهصد"@[3] == 'د');
    assert("چهارصد"@[0] == 'چ');
    assert("چهارصد"@[1] == 'ه');
    assert("چهارصد"@[2] == 'ا');
    assert("چهارصد"@[3] == 'ر');
    assert("چهارصد"@[4] == 'ص');
    assert("چهارصد"@[5] == 'د');
    assert(merge_hundreds(w) =~= w);
}

#[verifier::rlimit(100)]
proof fn rt_14()
    ensures
        words_to_number_spec(number_words(14)) == Ok::<i64, WordsToNumberError>(14i64),
{
    reveal_strlit("صفر");
    reveal_strlit("یک");
    reveal_strlit("دو");
    reveal_strlit("سه");
    reveal_strlit("چهار");
    reveal_strlit("پنج");
    reveal_strlit("شش");
    reveal_strlit("شیش");
    reveal_strlit("هفت");
    reveal_strlit("هشت");
    reveal_strlit("نه");
    reveal_strlit("ده");
    reveal_strlit("یازده");
    reveal_strlit("دوازده");
    reveal_strlit("سیزده");
    reveal_strlit("چهارده");
    reveal_strlit("شیش صد");
    reveal_strlit("شش صد");
    reveal_strlit("هفت صد");
    reveal_strlit("هشت صد");
    reveal_strlit("نه صد");
    reveal_strlit("چهار صد");
    reveal_strlit("و");
    reveal_strlit("ام");
    reveal_strlit("اُم");
    reveal_strlit("مین");
    reveal_strlit("سوم");
    reveal_strlit("م");
    reveal_strlit("منفی");
    reveal_strlit("ه");
    reveal_strlit("رده");
    let w = "چهارده"@;
    assert(number_words(14) == w);
    reveal_with_fuel(crate::text::trim_start_idx, 9);
    reveal_with_fuel(crate::text::trim_end_idx, 9);
    assert(trim_spec(w) =~= w);
    merge_14();
    let t = "چهارده"@;
    assert("چهارده"@[0] == 'چ');
    assert("چهارده"@[1] == 'ه');
    assert("چهارده"@[2] == 'ا');
    assert("چهارده"@[3] == 'ر');
    assert("چهارده"@[4] == 'د');
    assert("چهارده"@[5] == 'ه');
    reveal_with_fuel(split_ws, 4);
    reveal_with_fuel(token_len, 9);
    assert(t.take(6) =~= t);
    assert(t.skip(6) =~= Seq::<char>::empty());
    assert(token_len(t) == 6);
    assert(split_ws(t) =~= seq![t]);
    assert(t.subrange(5, 6) =~= "ه"@);
    assert("ه"@[0] == 'ه');
    assert(t.subrange(4, 6) =~= "ده"@);
    assert("ده"@[0] == 'د');
    assert("ده"@[1] == 'ه');
    assert(t.subrange(3, 6) =~= "رده"@);
    assert("رده"@[0] == 'ر');
    assert("رده"@[1] == 'د');
    assert("رده"@[2] == 'ه');
    assert("مین"@[0] == 'م');
    assert("مین"@[1] == 'ی');
    assert("مین"@[2] == 'ن');
    assert("اُم"@[0] == 'ا');
    assert("اُم"@[1] == 'ُ');
    assert("اُم"@[2] == 'م');
    assert("ام"@[0] == 'ا');
    assert("ام"@[1] == 'م');
    assert("سوم"@[0] == 'س');
    assert("سوم"@[1] == 'و');
    assert("سوم"@[2] == 'م');
    assert("م"@[0] == 'م');
    assert(strip_ordinal(t) == t);
    reveal_with_fuel(clean_tokens, 3);
    assert(clean_tokens(seq![t]) =~= seq![t]);
    assert(unit_value(t) == Some(14i64));
    assert(t != negative_prefix());
    reveal_with_fuel(calc_scan, 3);
    assert(calc_scan(seq![t], 0, 0, false) == Ok::<i64, WordsToNumberError>(14i64));
    assert(words_to_number_spec(w) == Ok::<i64, WordsToNumberError>(14i64));
}

#[verifier::rlimit(100)]
proof fn merge_15()
    ensures
        merge_hundreds("پانزده"@) == "پانزده"@,
{
    reveal_strlit("شیش صد");
    reveal_strlit("شش صد");
    reveal_strlit("هفت صد");
    reveal_strlit("هشت صد");
    reveal_strlit("نه صد");
    reveal_strlit("چهار صد");
    reveal_strlit("ششصد");
    reveal_strlit("هفتصد");
    reveal_strlit("هشتصد");
    reveal_strlit("نهصد");
    reveal_strlit("چهارصد");
    reveal_strlit("پانزده");
    reveal_with_fuel(replace_all, 10);
    let w = "پانزده"@;
    assert("پانزده"@[0] == 'پ');
    assert("پانزده"@[1] == 'ا');
    assert("پانزده"@[2] == 'ن');
    assert("پانزده"@[3] == 'ز');
    assert("پانزده"@[4] == 'د');
    assert("پانزده"@[5] == 'ه');
    assert("شیش صد"@[0] == 'ش');
    assert("شیش صد"@[1] == 'ی');
    assert("شیش صد"@[2] == 'ش');
    assert("شیش صد"@[3] == ' ');
    assert("شیش صد"@[4] == 'ص');
    assert("شیش صد"@[5] == 'د');
    assert("شش صد"@[0] == 'ش');
    assert("شش صد"@[1] == 'ش');
    assert("شش صد"@[2] == ' ');
    assert("شش صد"@[3] == 'ص');
    assert("شش صد"@[4] == 'د');
    assert("هفت صد"@[0] == 'ه');
    assert("هفت صد"@[1] == 'ف');
    assert("هفت صد"@[2] == 'ت');
    assert("هفت صد"@[3] == ' ');
    assert("هفت صد"@[4] == 'ص');
    assert("هفت صد"@[5] == 'د');
    assert("هشت صد"@[0] == 'ه');
    assert("هشت صد"@[1] == 'ش');
    assert("هشت صد"@[2] == 'ت');
    assert("هشت صد"@[3] == ' ');
    assert("هشت صد"@[4] == 'ص');
    assert("هشت صد"@[5] == 'د');
    assert("نه صد"@[0] == 'ن');
    assert("نه صد"@[1] == 'ه');
    assert("نه صد"@[2] == ' ');
    assert("نه صد"@[3] == 'ص');
    assert("نه صد"@[4] == 'د');
    assert("چهار صد"@[0] == 'چ');
    assert("چهار صد"@[1] == 'ه');
    assert("چهار صد"@[2] == 'ا');
    assert("چهار صد"@[3] == 'ر');
    assert("چهار صد"@[4] == ' ');
    assert("چهار صد"@[5] == 'ص');
    assert("چهار صد"@[6] == 'د');
    assert("ششصد"@[0] == 'ش');
    assert("ششصد"@[1] == 'ش');
    assert("ششصد"@[2] == 'ص');
    assert("ششصد"@[3] == 'د');
    assert("ششصد"@[0] == 'ش');
    assert("ششصد"@[1] == 'ش');
    assert("ششصد"@[2] == 'ص');
    assert("ششصد"@[3] == 'د');
    assert("هفتصد"@[0] == 'ه');
    assert("هفتصد"@[1] == 'ف');
    assert("هفتصد"@[2] == 'ت');
    assert("هفتصد"@[3] == 'ص');
    assert("هفتصد"@[4] == 'د');
    assert("هشتصد"@[0] == 'ه');
    assert("هشتصد"@[1] == 'ش');
    assert("هشتصد"@[2] == 'ت');
    assert("هشتصد"@[3] == 'ص');
    assert("هشتصد"@[4] == 'د');
    assert("نهصد"@[0] == 'ن');
    assert("نهصد"@[1] == 'ه');
    assert("نهصد"@[2] == 'ص');
    assert("نهصد"@[3] == 'د');
    assert("چهارصد"@[0] == 'چ');
    assert("چهارصد"@[1] == 'ه');
    assert("چهارصد"@[2] == 'ا');
    assert("چهارصد"@[3] == 'ر');
    assert("چهارصد"@[4] == 'ص');
    assert("چهارصد"@[5] == 'د');
    assert(merge_hundreds(w) =~= w);
}

#[verifier::rlimit(100)]
proof fn rt_15()
    ensures
        words_to_number_spec(number_words(15)) == Ok::<i64, WordsToNumberError>(15i64),
{
    reveal_strlit("صفر");
    reveal_strlit("یک");
    reveal_strlit("دو");
    reveal_strlit("سه");
    reveal_strlit("چهار");
    reveal_strlit("پنج");
    reveal_strlit("شش");
    reveal_strlit("شیش");
    reveal_strlit("هفت");
    reveal_strlit("هشت");
    reveal_strlit("نه");
    reveal_strlit("ده");
    reveal_strlit("یازده");
    reveal_strlit("دوازده");
    reveal_strlit("سیزده");
    reveal_strlit("چهارده");
    reveal_strlit("پانزده");
    reveal_strlit("شیش صد");
    reveal_strlit("شش صد");
    reveal_strlit("هفت صد");
    reveal_strlit("هشت صد");
    reveal_strlit("نه صد");
    reveal_strlit("چهار صد");
    reveal_strlit("و");
    reveal_strlit("ام");
    reveal_strlit("اُم");
    reveal_strlit("مین");
    reveal_strlit("سوم");
    reveal_strlit("م");
    reveal_strlit("منفی");
    reveal_strlit("ه");
    reveal_strlit("زده");
    let w = "پانزده"@;
    assert(number_words(15) == w);
    reveal_with_fuel(crate::text::trim_start_idx, 9);
    reveal_with_fuel(crate::text::trim_end_idx, 9);
    assert(trim_spec(w) =~= w);
    merge_15();
    let t = "پانزده"@;
    assert("پانزده"@[0] == 'پ');
    assert("پانزده"@[1] == 'ا');
    assert("پانزده"@[2] == 'ن');
    assert("پانزده"@[3] == 'ز');
    assert("پانزده"@[4] == 'د');
    assert("پانزده"@[5] == 'ه');
    reveal_with_fuel(split_ws, 4);
    reveal_with_fuel(token_len, 9);
    assert(t.take(6) =~= t);
    assert(t.skip(6) =~= Seq::<char>::empty());
    assert(token_len(t) == 6);
    assert(split_ws(t) =~= seq![t]);
    assert(t.subrange(5, 6) =~= "ه"@);
    assert("ه"@[0] == 'ه');
    assert(t.subrange(4, 6) =~= "ده"@);
    assert("ده"@[0] == 'د');
    assert("ده"@[1] == 'ه');
    assert(t.subrange(3, 6) =~= "زده"@);
    assert("زده"@[0] == 'ز');
    assert("زده"@[1] == 'د');
    assert("زده"@[2] == 'ه');
    assert("مین"@[0] == 'م');
    assert("مین"@[1] == 'ی');
    assert("مین"@[2] == 'ن');
    assert("اُم"@[0] == 'ا');
    assert("اُم"@[1] == 'ُ');
    assert("اُم"@[2] == 'م');
    assert("ام"@[0] == 'ا');
    assert("ام"@[1] == 'م');
    assert("سوم"@[0] == 'س');
    assert("سوم"@[1] == 'و');
    assert("سوم"@[2] == 'م');
    assert("م"@[0] == 'م');
    assert(strip_ordinal(t) == t);
    reveal_with_fuel(clean_tokens, 3);
    assert(clean_tokens(seq![t]) =~= seq![t]);
    assert(unit_value(t) == Some(15i64));
    assert(t != negative_prefix());
    reveal_with_fuel(calc_scan, 3);
    assert(calc_scan(seq![t], 0, 0, false) == Ok::<i64, WordsToNumberError>(15i64));
    assert(words_to_number_spec(w) == Ok::<i64, WordsToNumberError>(15i64));
}

#[verifier::rlimit(100)]
proof fn merge_16()
    ensures
        merge_hundreds("شانزده"@) == "شانزده"@,
{
    reveal_strlit("شیش صد");
    reveal_strlit("شش صد");
    reveal_strlit("هفت صد");
    reveal_strlit("هشت صد");
    reveal_strlit("نه صد");
    reveal_strlit("چهار صد");
    reveal_strlit("ششصد");
    reveal_strlit("هفتصد");
    reveal_strlit("هشتصد");
    reveal_strlit("نهصد");
    reveal_strlit("چهارصد");
    reveal_strlit("شانزده");
    reveal_with_fuel(replace_all, 10);
    let w = "شانزده"@;
    assert("شانزده"@[0] == 'ش');
    assert("شانزده"@[1] == 'ا');
    assert("شانزده"@[2] == 'ن');
    assert("شانزده"@[3] == 'ز');
    assert("شانزده"@[4] == 'د');
    assert("شانزده"@[5] == 'ه');
    assert("شیش صد"@[0] == 'ش');
    assert("شیش صد"@[1] == 'ی');
    assert("شیش صد"@[2] == 'ش');
    assert("شیش صد"@[3] == ' ');
    assert("شیش صد"@[4] == 'ص');
    assert("شیش صد"@[5] == 'د');
    assert("شش صد"@[0] == 'ش');
    assert("شش صد"@[1] == 'ش');
    assert("شش صد"@[2] == ' ');
    assert("شش صد"@[3] == 'ص');
    assert("شش صد"@[4] == 'د');
    assert("هفت صد"@[0] == 'ه');
    assert("هفت صد"@[1] == 'ف');
    assert("هفت صد"@[2] == 'ت');
    assert("هفت صد"@[3] == ' ');
    assert("هفت صد"@[4] == 'ص');
    assert("هفت صد"@[5] == 'د');
    assert("هشت صد"@[0] == 'ه');
    assert("هشت صد"@[1] == 'ش');
    assert("هشت صد"@[2] == 'ت');
    assert("هشت صد"@[3] == ' ');
    assert("هشت صد"@[4] == 'ص');
    assert("هشت صد"@[5] == 'د');
    assert("نه صد"@[0] == 'ن');
    assert("نه صد"@[1] == 'ه');
    assert("نه صد"@[2] == ' ');
    assert("نه صد"@[3] == 'ص');
    assert("نه صد"@[4] == 'د');
    assert("چهار صد"@[0] == 'چ');
    assert("چهار صد"@[1] == 'ه');
    assert("چهار صد"@[2] == 'ا');
    assert("چهار صد"@[3] == 'ر');
    assert("چهار صد"@[4] == ' ');
    assert("چهار صد"@[5] == 'ص');
    assert("چهار صد"@[6] == 'د');
    assert("ششصد"@[0] == 'ش');
    assert("ششصد"@[1] == 'ش');
    assert("ششصد"@[2] == 'ص');
    assert("ششصد"@[3] == 'د');
    assert("ششصد"@[0] == 'ش');
    assert("ششصد"@[1] == 'ش');
    assert("ششصد"@[2] == 'ص');
    assert("ششصد"@[3] == 'د');
    assert("هفتصد"@[0] == 'ه');
    assert("هفتصد"@[1] == 'ف');
    assert("هفتصد"@[2] == 'ت');
    assert("هفتصد"@[3] == 'ص');
    assert("هفتصد"@[4] == 'د');
    assert("هشتصد"@[0] == 'ه');
    assert("هشتصد"@[1] == 'ش');
    assert("هشتصد"@[2] == 'ت');
    assert("هشتصد"@[3] == 'ص');
    assert("هشتصد"@[4] == 'د');
    assert("نهصد"@[0] == 'ن');
    assert("نهصد"@[1] == 'ه');
    assert("نهصد"@[2] == 'ص');
    assert("نهصد"@[3] == 'د');
    assert("چهارصد"@[0] == 'چ');
    assert("چهارصد"@[1] == 'ه');
    assert("چهارصد"@[2] == 'ا');
    assert("چهارصد"@[3] == 'ر');
    assert("چهارصد"@[4] == 'ص');
    assert("چهارصد"@[5] == 'د');
    assert(merge_hundreds(w) =~= w);
}

#[verifier::rlimit(100)]
proof fn rt_16()
    ensures
        words_to_number_spec(number_words(16)) == Ok::<i64, WordsToNumberError>(16i64),
{
    reveal_strlit("صفر");
    reveal_strlit("یک");
    reveal_strlit("دو");
    reveal_strlit("سه");
    reveal_strlit("چهار");
    reveal_strlit("پنج");
    reveal_strlit("شش");
    reveal_strlit("شیش");
    reveal_strlit("هفت");
    reveal_strlit("هشت");
    reveal_strlit("نه");
    reveal_strlit("ده");
    reveal_strlit("یازده");
    reveal_strlit("دوازده");
    reveal_strlit("سیزده");
    reveal_strlit("چهارده");
    reveal_strlit("پانزده");
    reveal_strlit("شانزده");
    reveal_strlit("شیش صد");
    reveal_strlit("شش صد");
    reveal_strlit("هفت صد");
    reveal_strlit("هشت صد");
    reveal_strlit("نه صد");
    reveal_strlit("چهار صد");
    reveal_strlit("و");
    reveal_strlit("ام");
    reveal_strlit("اُم");
    reveal_strlit("مین");
    reveal_strlit("سوم");
    reveal_strlit("م");
    reveal_strlit("منفی");
    reveal_strlit("ه");
    reveal_strlit("زده");
    let w = "شانزده"@;
    assert(number_words(16) == w);
    reveal_with_fuel(crate::text::trim_start_idx, 9);
    reveal_with_fuel(crate::text::trim_end_idx, 9);
    assert(trim_spec(w) =~= w);
    merge_16();
    let t = "شانزده"@;
    assert("شانزده"@[0] == 'ش');
    assert("شانزده"@[1] == 'ا');
    assert("شانزده"@[2] == 'ن');
    assert("شانزده"@[3] == 'ز');
    assert("شانزده"@[4] == 'د');
    assert("شانزده"@[5] == 'ه');
    reveal_with_fuel(split_ws, 4);
    reveal_with_fuel(token_len, 9);
    assert(t.take(6) =~= t);
    assert(t.skip(6) =~= Seq::<char>::empty());
    assert(token_len(t) == 6);
    assert(split_ws(t) =~= seq![t]);
    assert(t.subrange(5, 6) =~= "ه"@);
    assert("ه"@[0] == 'ه');
    assert(t.subrange(4, 6) =~= "ده"@);
    assert("ده"@[0] == 'د');
    assert("ده"@[1] == 'ه');
    assert(t.subrange(3, 6) =~= "زده"@);
    assert("زده"@[0] == 'ز');
    assert("زده"@[1] == 'د');
    assert("زده"@[2] == 'ه');
    assert("مین"@[0] == 'م');
    assert("مین"@[1] == 'ی');
    assert("مین"@[2] == 'ن');
    assert("اُم"@[0] == 'ا');
    assert("اُم"@[1] == 'ُ');
    assert("اُم"@[2] == 'م');
    assert("ام"@[0] == 'ا');
    assert("ام"@[1] == 'م');
    assert("سوم"@[0] == 'س');
    assert("سوم"@[1] == 'و');
    assert("سوم"@[2] == 'م');
    assert("م"@[0] == 'م');
    assert(strip_ordinal(t) == t);
    reveal_with_fuel(clean_tokens, 3);
    assert(clean_tokens(seq![t]) =~= seq![t]);
    assert(unit_value(t) == Some(16i64));
    assert(t != negative_prefix());
    reveal_with_fuel(calc_scan, 3);
    assert(calc_scan(seq![t], 0, 0, false) == Ok::<i64, WordsToNumberError>(16i64));
    assert(words_to_number_spec(w) == Ok::<i64, WordsToNumberError>(16i64));
}

#[verifier::rlimit(100)]
proof fn merge_17()
    ensures
        merge_hundreds("هفده"@) == "هفده"@,
{
    reveal_strlit("شیش صد");
    reveal_strlit("شش صد");
    reveal_strlit("هفت صد");
    reveal_strlit("هشت صد");
    reveal_strlit("نه صد");
    reveal_strlit("چهار صد");
    reveal_strlit("ششصد");
    reveal_strlit("هفتصد");
    reveal_strlit("هشتصد");
    reveal_strlit("نهصد");
    reveal_strlit("چهارصد");
    reveal_strlit("هفده");
    reveal_with_fuel(replace_all, 8);
    let w = "هفده"@;
    assert("هفده"@[0] == 'ه');
    assert("هفده"@[1] == 'ف');
    assert("هفده"@[2] == 'د');
    assert("هفده"@[3] == 'ه');
    assert("شیش صد"@[0] == 'ش');
    assert("شیش صد"@[1] == 'ی');
    assert("شیش صد"@[2] == 'ش');
    assert("شیش صد"@[3] == ' ');
    assert("شیش صد"@[4] == 'ص');
    assert("شیش صد"@[5] == 'د');
    assert("شش صد"@[0] == 'ش');
    assert("شش صد"@[1] == 'ش');
    assert("شش صد"@[2] == ' ');
    assert("شش صد"@[3] == 'ص');
    assert("شش صد"@[4] == 'د');
    assert("هفت صد"@[0] == 'ه');
    assert("هفت صد"@[1] == 'ف');
    assert("هفت صد"@[2] == 'ت');
    assert("هفت صد"@[3] == ' ');
    assert("هفت صد"@[4] == 'ص');
    assert("هفت صد"@[5] == 'د');
    assert("هشت صد"@[0] == 'ه');
    assert("هشت صد"@[1] == 'ش');
    assert("هشت صد"@[2] == 'ت');
    assert("هشت صد"@[3] == ' ');
    assert("هشت صد"@[4] == 'ص');
    assert("هشت صد"@[5] == 'د');
    assert("نه صد"@[0] == 'ن');
    assert("نه صد"@[1] == 'ه');
    assert("نه صد"@[2] == ' ');
    assert("نه صد"@[3] == 'ص');
    assert("نه صد"@[4] == 'د');
    assert("چهار صد"@[0] == 'چ');
    assert("چهار صد"@[1] == 'ه');
    assert("چهار صد"@[2] == 'ا');
    assert("چهار صد"@[3] == 'ر');
    assert("چهار صد"@[4] == ' ');
    assert("چهار صد"@[5] == 'ص');
    assert("چهار صد"@[6] == 'د');
    assert("ششصد"@[0] == 'ش');
    assert("ششصد"@[1] == 'ش');
    assert("ششصد"@[2] == 'ص');
    assert("ششصد"@[3] == 'د');
    assert("ششصد"@[0] == 'ش');
    assert("ششصد"@[1] == 'ش');
    assert("ششصد"@[2] == 'ص');
    assert("ششصد"@[3] == 'د');
    assert("هفتصد"@[0] == 'ه');
    assert("هفتصد"@[1] == 'ف');
    assert("هفتصد"@[2] == 'ت');
    assert("هفتصد"@[3] == 'ص');
    assert("هفتصد"@[4] == 'د');
    assert("هشتصد"@[0] == 'ه');
    assert("هشتصد"@[1] == 'ش');
    assert("هشتصد"@[2] == 'ت');
    assert("هشتصد"@[3] == 'ص');
    assert("هشتصد"@[4] == 'د');
    assert("نهصد"@[0] == 'ن');
    assert("نهصد"@[1] == 'ه');
    assert("نهصد"@[2] == 'ص');
    assert("نهصد"@[3] == 'د');
    assert("چهارصد"@[0] == 'چ');
    assert("چهارصد"@[1] == 'ه');
    assert("چهارصد"@[2] == 'ا');
    assert("چهارصد"@[3] == 'ر');
    assert("چهارصد"@[4] == 'ص');
    assert("چهارصد"@[5] == 'د');
    assert(merge_hundreds(w) =~= w);
}

#[verifier::rlimit(100)]
proof fn rt_17()
    ensures
        words_to_number_spec(number_words(17)) == Ok::<i64, WordsToNumberError>(17i64),
{
    reveal_strlit("صفر");
    reveal_strlit("یک");
    reveal_strlit("دو");
    reveal_strlit("سه");
    reveal_strlit("چهار");
    reveal_strlit("پنج");
    reveal_strlit("شش");
    reveal_strlit("شیش");
    reveal_strlit("هفت");
    reveal_strlit("هشت");
    reveal_strlit("نه");
    reveal_strlit("ده");
    reveal_strlit("یازده");
    reveal_strlit("دوازده");
    reveal_strlit("سیزده");
    reveal_strlit("چهارده");
    reveal_strlit("پانزده");
    reveal_strlit("شانزده");
    reveal_strlit("هفده");
    reveal_strlit("شیش صد");
    reveal_strlit("شش صد");
    reveal_strlit("هفت صد");
    reveal_strlit("هشت صد");
    reveal_strlit("نه صد");
    reveal_strlit("چهار صد");
    reveal_strlit("و");
    reveal_strlit("ام");
    reveal_strlit("اُم");
    reveal_strlit("مین");
    reveal_strlit("سوم");
    reveal_strlit("م");
    reveal_strlit("منفی");
    reveal_strlit("ه");
    reveal_strlit("فده");
    let w = "هفده"@;
    assert(number_words(17) == w);
    reveal_with_fuel(crate::text::trim_start_idx, 7);
    reveal_with_fuel(crate::text::trim_end_idx, 7);
    assert(trim_spec(w) =~= w);
    merge_17();
    let t = "هفده"@;
    assert("هفده"@[0] == 'ه');
    assert("هفده"@[1] == 'ف');
    assert("هفده"@[2] == 'د');
    assert("هفده"@[3] == 'ه');
    reveal_with_fuel(split_ws, 4);
    reveal_with_fuel(token_len, 7);
    assert(t.take(4) =~= t);
    assert(t.skip(4) =~= Seq::<char>::empty());
    assert(token_len(t) == 4);
    assert(split_ws(t) =~= seq![t]);
    assert(t.subrange(3, 4) =~= "ه"@);
    assert("ه"@[0] == 'ه');
    assert(t.subrange(2, 4) =~= "ده"@);
    assert("ده"@[0] == 'د');
    assert("ده"@[1] == 'ه');
    assert(t.subrange(1, 4) =~= "فده"@);
    assert("فده"@[0] == 'ف');
    assert("فده"@[1] == 'د');
    assert("فده"@[2] == 'ه');
    assert("مین"@[0] == 'م');
    assert("مین"@[1] == 'ی');
    assert("مین"@[2] == 'ن');
    assert("اُم"@[0] == 'ا');
    assert("اُم"@[1] == 'ُ');
    assert("اُم"@[2] == 'م');
    assert("ام"@[0] == 'ا');
    assert("ام"@[1] == 'م');
    assert("سوم"@[0] == 'س');
    assert("سوم"@[1] == 'و');
    assert("سوم"@[2] == 'م');
    assert("م"@[0] == 'م');
    assert(strip_ordinal(t) == t);
    reveal_with_fuel(clean_tokens, 3);
    assert(clean_tokens(seq![t]) =~= seq![t]);
    assert(unit_value(t) == Some(17i64));
    assert(t != negative_prefix());
    reveal_with_fuel(calc_scan, 3);
    assert(calc_scan(seq![t], 0, 0, false) == Ok::<i64, WordsToNumberError>(17i64));
    assert(words_to_number_spec(w) == Ok::<i64, WordsToNumberError>(17i64));
}

#[verifier::rlimit(100)]
proof fn merge_18()
    ensures
        merge_hundreds("هجده"@) == "هجده"@,
{
    reveal_strlit("شیش صد");
    reveal_strlit("شش صد");
    reveal_strlit("هفت صد");
    reveal_strlit("هشت صد");
    reveal_strlit("نه صد");
    reveal_strlit("چهار صد");
    reveal_strlit("ششصد");
    reveal_strlit("هفتصد");
    reveal_strlit("هشتصد");
    reveal_strlit("نهصد");
    reveal_strlit("چهارصد");
    reveal_strlit("هجده");
    reveal_with_fuel(replace_all, 8);
    let w = "هجده"@;
    assert("هجده"@[0] == 'ه');
    assert("هجده"@[1] == 'ج');
    assert("هجده"@[2] == 'د');
    assert("هجده"@[3] == 'ه');
    assert("شیش صد"@[0] == 'ش');
    assert("شیش صد"@[1] == 'ی');
    assert("شیش صد"@[2] == 'ش');
    assert("شیش صد"@[3] == ' ');
    assert("شیش صد"@[4] == 'ص');
    assert("شیش صد"@[5] == 'د');
    assert("شش صد"@[0] == 'ش');
    assert("شش صد"@[1] == 'ش');
    assert("شش صد"@[2] == ' ');
    assert("شش صد"@[3] == 'ص');
    assert("شش صد"@[4] == 'د');
    assert("هفت صد"@[0] == 'ه');
    assert("هفت صد"@[1] == 'ف');
    assert("هفت صد"@[2] == 'ت');
    assert("هفت صد"@[3] == ' ');
    assert("هفت صد"@[4] == 'ص');
    assert("هفت صد"@[5] == 'د');
    assert("هشت صد"@[0] == 'ه');
    assert("هشت صد"@[1] == 'ش');
    assert("هشت صد"@[2] == 'ت');
    assert("هشت صد"@[3] == ' ');
    assert("هشت صد"@[4] == 'ص');
    assert("هشت صد"@[5] == 'د');
    assert("نه صد"@[0] == 'ن');
    assert("نه صد"@[1] == 'ه');
    assert("نه صد"@[2] == ' ');
    assert("نه صد"@[3] == 'ص');
    assert("نه صد"@[4] == 'د');
    assert("چهار صد"@[0] == 'چ');
    assert("چهار صد"@[1] == 'ه');
    assert("چهار صد"@[2] == 'ا');
    assert("چهار صد"@[3] == 'ر');
    assert("چهار صد"@[4] == ' ');
    assert("چهار صد"@[5] == 'ص');
    assert("چهار صد"@[6] == 'د');
    assert("ششصد"@[0] == 'ش');
    assert("ششصد"@[1] == 'ش');
    assert("ششصد"@[2] == 'ص');
    assert("ششصد"@[3] == 'د');
    assert("ششصد"@[0] == 'ش');
    assert("ششصد"@[1] == 'ش');
    assert("ششصد"@[2] == 'ص');
    assert("ششصد"@[3] == 'د');
    assert("هفتصد"@[0] == 'ه');
    assert("هفتصد"@[1] == 'ف');
    assert("هفتصد"@[2] == 'ت');
    assert("هفتصد"@[3] == 'ص');
    assert("هفتصد"@[4] == 'د');
    assert("هشتصد"@[0] == 'ه');
    assert("هشتصد"@[1] == 'ش');
    assert("هشتصد"@[2] == 'ت');
    assert("هشتصد"@[3] == 'ص');
    assert("هشتصد"@[4] == 'د');
    assert("نهصد"@[0] == 'ن');
    assert("نهصد"@[1] == 'ه');
    assert("نهصد"@[2] == 'ص');
    assert("نهصد"@[3] == 'د');
    assert("چهارصد"@[0] == 'چ');
    assert("چهارصد"@[1] == 'ه');
    assert("چهارصد"@[2] == 'ا');
    assert("چهارصد"@[3] == 'ر');
    assert("چهارصد"@[4] == 'ص');
    assert("چهارصد"@[5] == 'د');
    assert(merge_hundreds(w) =~= w);
}

#[verifier::rlimit(100)]
proof fn rt_18()
    ensures
        words_to_number_spec(number_words(18)) == Ok::<i64, WordsToNumberError>(18i64),
{
    reveal_strlit("صفر");
    reveal_strlit("یک");
    reveal_strlit("دو");
    reveal_strlit("سه");
    reveal_strlit("چهار");
    reveal_strlit("پنج");
    reveal_strlit("شش");
    reveal_strlit("شیش");
    reveal_strlit("هفت");
    reveal_strlit("هشت");
    reveal_strlit("نه");
    reveal_strlit("ده");
    reveal_strlit("یازده");
    reveal_strlit("دوازده");
    reveal_strlit("سیزده");
    reveal_strlit("چهارده");
    reveal_strlit("پانزده");
    reveal_strlit("شانزده");
    reveal_strlit("هفده");
    reveal_strlit("هجده");
    reveal_strlit("شیش صد");
    reveal_strlit("شش صد");
    reveal_strlit("هفت صد");
    reveal_strlit("هشت صد");
    reveal_strlit("نه صد");
    reveal_strlit("چهار صد");
    reveal_strlit("و");
    reveal_strlit("ام");
    reveal_strlit("اُم");
    reveal_strlit("مین");
    reveal_strlit("سوم");
    reveal_strlit("م");
    reveal_strlit("منفی");
    reveal_strlit("ه");
    reveal_strlit("جده");
    let w = "هجده"@;
    assert(number_words(18) == w);
    reveal_with_fuel(crate::text::trim_start_idx, 7);
    reveal_with_fuel(crate::text::trim_end_idx, 7);
    assert(trim_spec(w) =~= w);
    merge_18();
    let t = "هجده"@;
    assert("هجده"@[0] == 'ه');
    assert("هجده"@[1] == 'ج');
    assert("هجده"@[2] == 'د');
    assert("هجده"@[3] == 'ه');
    reveal_with_fuel(split_ws, 4);
    reveal_with_fuel(token_len, 7);
    assert(t.take(4) =~= t);
    assert(t.skip(4) =~= Seq::<char>::empty());
    assert(token_len(t) == 4);
    assert(split_ws(t) =~= seq![t]);
    assert(t.subrange(3, 4) =~= "ه"@);
    assert("ه"@[0] == 'ه');
    assert(t.subrange(2, 4) =~= "ده"@);
    assert("ده"@[0] == 'د');
    assert("ده"@[1] == 'ه');
    assert(t.subrange(1, 4) =~= "جده"@);
    assert("جده"@[0] == 'ج');
    assert("جده"@[1] == 'د');
    assert("جده"@[2] == 'ه');
    assert("مین"@[0] == 'م');
    assert("مین"@[1] == 'ی');
    assert("مین"@[2] == 'ن');
    assert("اُم"@[0] == 'ا');
    assert("اُم"@[1] == 'ُ');
    assert("اُم"@[2] == 'م');
    assert("ام"@[0] == 'ا');
    assert("ام"@[1] == 'م');
    assert("سوم"@[0] == 'س');
    assert("سوم"@[1] == 'و');
    assert("سوم"@[2] == 'م');
    assert("م"@[0] == 'م');
    assert(strip_ordinal(t) == t);
    reveal_with_fuel(clean_tokens, 3);
    assert(clean_tokens(seq![t]) =~= seq![t]);
    assert(unit_value(t) == Some(18i64));
    assert(t != negative_prefix());
    reveal_with_fuel(calc_scan, 3);
    assert(calc_scan(seq![t], 0, 0, false) == Ok::<i64, WordsToNumberError>(18i64));
    assert(words_to_number_spec(w) == Ok::<i64, WordsToNumberError>(18i64));
}

#[verifier::rlimit(100)]
proof fn merge_19()
    ensures
        merge_hundreds("نوزده"@) == "نوزده"@,
{
    reveal_strlit("شیش صد");
    reveal_strlit("شش صد");
    reveal_strlit("هفت صد");
    reveal_strlit("هشت صد");
    reveal_strlit("نه صد");
    reveal_strlit("چهار صد");
    reveal_strlit("ششصد");
    reveal_strlit("هفتصد");
    reveal_strlit("هشتصد");
    reveal_strlit("نهصد");
    reveal_strlit("چهارصد");
    reveal_strlit("نوزده");
    reveal_with_fuel(replace_all, 9);
    let w = "نوزده"@;
    assert("نوزده"@[0] == 'ن');
    assert("نوزده"@[1] == 'و');
    assert("نوزده"@[2] == 'ز');
    assert("نوزده"@[3] == 'د');
    assert("نوزده"@[4] == 'ه');
    assert("شیش صد"@[0] == 'ش');
    assert("شیش صد"@[1] == 'ی');
    assert("شیش صد"@[2] == 'ش');
    assert("شیش صد"@[3] == ' ');
    assert("شیش صد"@[4] == 'ص');
    assert("شیش صد"@[5] == 'د');
    assert("شش صد"@[0] == 'ش');
    assert("شش صد"@[1] == 'ش');
    assert("شش صد"@[2] == ' ');
    assert("شش صد"@[3] == 'ص');
    assert("شش صد"@[4] == 'د');
    assert("هفت صد"@[0] == 'ه');
    assert("هفت صد"@[1] == 'ف');
    assert("هفت صد"@[2] == 'ت');
    assert("هفت صد"@[3] == ' ');
    assert("هفت صد"@[4] == 'ص');
    assert("هفت صد"@[5] == 'د');
    assert("هشت صد"@[0] == 'ه');
    assert("هشت صد"@[1] == 'ش');
    assert("هشت صد"@[2] == 'ت');
    assert("هشت صد"@[3] == ' ');
    assert("هشت صد"@[4] == 'ص');
    assert("هشت صد"@[5] == 'د');
    assert("نه صد"@[0] == 'ن');
    assert("نه صد"@[1] == 'ه');
    assert("نه صد"@[2] == ' ');
    assert("نه صد"@[3] == 'ص');
    assert("نه صد"@[4] == 'د');
    assert("چهار صد"@[0] == 'چ');
    assert("چهار صد"@[1] == 'ه');
    assert("چهار صد"@[2] == 'ا');
    assert("چهار صد"@[3] == 'ر');
    assert("چهار صد"@[4] == ' ');
    assert("چهار صد"@[5] == 'ص');
    assert("چهار صد"@[6] == 'د');
    assert("ششصد"@[0] == 'ش');
    assert("ششصد"@[1] == 'ش');
    assert("ششصد"@[2] == 'ص');
    assert("ششصد"@[3] == 'د');
    assert("ششصد"@[0] == 'ش');
    assert("ششصد"@[1] == 'ش');
    assert("ششصد"@[2] == 'ص');
    assert("ششصد"@[3] == 'د');
    assert("هفتصد"@[0] == 'ه');
    assert("هفتصد"@[1] == 'ف');
    assert("هفتصد"@[2] == 'ت');
    assert("هفتصد"@[3] == 'ص');
    assert("هفتصد"@[4] == 'د');
    assert("هشتصد"@[0] == 'ه');
    assert("هشتصد"@[1] == 'ش');
    assert("هشتصد"@[2] == 'ت');
    assert("هشتصد"@[3] == 'ص');
    assert("هشتصد"@[4] == 'د');
    assert("نهصد"@[0] == 'ن');
    assert("نهصد"@[1] == 'ه');
    assert("نهصد"@[2] == 'ص');
    assert("نهصد"@[3] == 'د');
    assert("چهارصد"@[0] == 'چ');
    assert("چهارصد"@[1] == 'ه');
    assert("چهارصد"@[2] == 'ا');
    assert("چهارصد"@[3] == 'ر');
    assert("چهارصد"@[4] == 'ص');
    assert("چهارصد"@[5] == 'د');
    assert(merge_hundreds(w) =~= w);
}

#[verifier::rlimit(100)]
proof fn rt_19()
    ensures
        words_to_number_spec(number_words(19)) == Ok::<i64, WordsToNumberError>(19i64),
{
    reveal_strlit("صفر");
    reveal_strlit("یک");
    reveal_strlit("دو");
    reveal_strlit("سه");
    reveal_strlit("چهار");
    reveal_strlit("پنج");
    reveal_strlit("شش");
    reveal_strlit("شیش");
    reveal_strlit("هفت");
    reveal_strlit("هشت");
    reveal_strlit("نه");
    reveal_strlit("ده");
    reveal_strlit("یازده");
    reveal_strlit("دوازده");
    reveal_strlit("سیزده");
    reveal_strlit("چهارده");
    reveal_strlit("پانزده");
    reveal_strlit("شانزده");
    reveal_strlit("هفده");
    reveal_strlit("هجده");
    reveal_strlit("نوزده");
    reveal_strlit("شیش صد");
    reveal_strlit("شش صد");
    reveal_strlit("هفت صد");
    reveal_strlit("هشت صد");
    reveal_strlit("نه صد");
    reveal_strlit("چهار صد");
    reveal_strlit("و");
    reveal_strlit("ام");
    reveal_strlit("اُم");
    reveal_strlit("مین");
    reveal_strlit("سوم");
    reveal_strlit("م");
    reveal_strlit("منفی");
    reveal_strlit("ه");
    reveal_strlit("زده");
    let w = "نوزده"@;
    assert(number_words(19) == w);
    reveal_with_fuel(crate::text::trim_start_idx, 8);
    reveal_with_fuel(crate::text::trim_end_idx, 8);
    assert(trim_spec(w) =~= w);
    merge_19();
    let t = "نوزده"@;
    assert("نوزده"@[0] == 'ن');
    assert("نوزده"@[1] == 'و');
    assert("نوزده"@[2] == 'ز');
    assert("نوزده"@[3] == 'د');
    assert("نوزده"@[4] == 'ه');
    reveal_with_fuel(split_ws, 4);
    reveal_with_fuel(token_len, 8);
    assert(t.take(5) =~= t);
    assert(t.skip(5) =~= Seq::<char>::empty());
    assert(token_len(t) == 5);
    assert(split_ws(t) =~= seq![t]);
    assert(t.subrange(4, 5) =~= "ه"@);
    assert("ه"@[0] == 'ه');
    assert(t.subrange(3, 5) =~= "ده"@);
    assert("ده"@[0] == 'د');
    assert("ده"@[1] == 'ه');
    assert(t.subrange(2, 5) =~= "زده"@);
    assert("زده"@[0] == 'ز');
    assert("زده"@[1] == 'د');
    assert("زده"@[2] == 'ه');
    assert("مین"@[0] == 'م');
    assert("مین"@[1] == 'ی');
    assert("مین"@[2] == 'ن');
    assert("اُم"@[0] == 'ا');
    assert("اُم"@[1] == 'ُ');
    assert("اُم"@[2] == 'م');
    assert("ام"@[0] == 'ا');
    assert("ام"@[1] == 'م');
    assert("سوم"@[0] == 'س');
    assert("سوم"@[1] == 'و');
    assert("سوم"@[2] == 'م');
    assert("م"@[0] == 'م');
    assert(strip_ordinal(t) == t);
    reveal_with_fuel(clean_tokens, 3);
    assert(clean_tokens(seq![t]) =~= seq![t]);
    assert(unit_value(t) == Some(19i64));
    assert(t != negative_prefix());
    reveal_with_fuel(calc_scan, 3);
    assert(calc_scan(seq![t], 0, 0, false) == Ok::<i64, WordsToNumberError>(19i64));
    assert(words_to_number_spec(w) == Ok::<i64, WordsToNumberError>(19i64));
}

#[verifier::rlimit(100)]
proof fn merge_20()
    ensures
        merge_hundreds("بیست"@) == "بیست"@,
{
    reveal_strlit("شیش صد");
    reveal_strlit("شش صد");
    reveal_strlit("هفت صد");
    reveal_strlit("هشت صد");
    reveal_strlit("نه صد");
    reveal_strlit("چهار صد");
    reveal_strlit("ششصد");
    reveal_strlit("هفتصد");
    reveal_strlit("هشتصد");
    reveal_strlit("نهصد");
    reveal_strlit("چهارصد");
    reveal_strlit("بیست");
    reveal_with_fuel(replace_all, 8);
    let w = "بیست"@;
    assert("بیست"@[0] == 'ب');
    assert("بیست"@[1] == 'ی');
    assert("بیست"@[2] == 'س');
    assert("بیست"@[3] == 'ت');
    assert("شیش صد"@[0] == 'ش');
    assert("شیش صد"@[1] == 'ی');
    assert("شیش صد"@[2] == 'ش');
    assert("شیش صد"@[3] == ' ');
    assert("شیش صد"@[4] == 'ص');
    assert("شیش صد"@[5] == 'د');
    assert("شش صد"@[0] == 'ش');
    assert("شش صد"@[1] == 'ش');
    assert("شش صد"@[2] == ' ');
    assert("شش صد"@[3] == 'ص');
    assert("شش صد"@[4] == 'د');
    assert("هفت صد"@[0] == 'ه');
    assert("هفت صد"@[1] == 'ف');
    assert("هفت صد"@[2] == 'ت');
    assert("هفت صد"@[3] == ' ');
    assert("هفت صد"@[4] == 'ص');
    assert("هفت صد"@[5] == 'د');
    assert("هشت صد"@[0] == 'ه');
    assert("هشت صد"@[1] == 'ش');
    assert("هشت صد"@[2] == 'ت');
    assert("هشت صد"@[3] == ' ');
    assert("هشت صد"@[4] == 'ص');
    assert("هشت صد"@[5] == 'د');
    assert("نه صد"@[0] == 'ن');
    assert("نه صد"@[1] == 'ه');
    assert("نه صد"@[2] == ' ');
    assert("نه صد"@[3] == 'ص');
    assert("نه صد"@[4] == 'د');
    assert("چهار صد"@[0] == 'چ');
    assert("چهار صد"@[1] == 'ه');
    assert("چهار صد"@[2] == 'ا');
    assert("چهار صد"@[3] == 'ر');
    assert("چهار صد"@[4] == ' ');
    assert("چهار صد"@[5] == 'ص');
    assert("چهار صد"@[6] == 'د');
    assert("ششصد"@[0] == 'ش');
    assert("ششصد"@[1] == 'ش');
    assert("ششصد"@[2] == 'ص');
    assert("ششصد"@[3] == 'د');
    assert("ششصد"@[0] == 'ش');
    assert("ششصد"@[1] == 'ش');
    assert("ششصد"@[2] == 'ص');
    assert("ششصد"@[3] == 'د');
    assert("هفتصد"@[0] == 'ه');
    assert("هفتصد"@[1] == 'ف');
    assert("هفتصد"@[2] == 'ت');
    assert("هفتصد"@[3] == 'ص');
    assert("هفتصد"@[4] == 'د');
    assert("هشتصد"@[0] == 'ه');
    assert("هشتصد"@[1] == 'ش');
    assert("هشتصد"@[2] == 'ت');
    assert("هشتصد"@[3] == 'ص');
    assert("هشتصد"@[4] == 'د');
    assert("نهصد"@[0] == 'ن');
    assert("نهصد"@[1] == 'ه');
    assert("نهصد"@[2] == 'ص');
    assert("نهصد"@[3] == 'د');
    assert("چهارصد"@[0] == 'چ');
    assert("چهارصد"@[1] == 'ه');
    assert("چهارصد"@[2] == 'ا');
    assert("چهارصد"@[3] == 'ر');
    assert("چهارصد"@[4] == 'ص');
    assert("چهارصد"@[5] == 'د');
    assert(merge_hundreds(w) =~= w);
}

#[verifier::rlimit(100)]
proof fn rt_20()
    ensures
        words_to_number_spec(number_words(20)) == Ok::<i64, WordsToNumberError>(20i64),
{
    reveal_strlit("صفر");
    reveal_strlit("یک");
    reveal_strlit("دو");
    reveal_strlit("سه");
    reveal_strlit("چهار");
    reveal_strlit("پنج");
    reveal_strlit("شش");
    reveal_strlit("شیش");
    reveal_strlit("هفت");
    reveal_strlit("هشت");
    reveal_strlit("نه");
    reveal_strlit("ده");
    reveal_strlit("یازده");
    reveal_strlit("دوازده");
    reveal_strlit("سیزده");
    reveal_strlit("چهارده");
    reveal_strlit("پانزده");
    reveal_strlit("شانزده");
    reveal_strlit("هفده");
    reveal_strlit("هجده");
    reveal_strlit("نوزده");
    reveal_strlit("بیست");
    reveal_strlit("شیش صد");
    reveal_strlit("شش صد");
    reveal_strlit("هفت صد");
    reveal_strlit("هشت صد");
    reveal_strlit("نه صد");
    reveal_strlit("چهار صد");
    reveal_strlit("و");
    reveal_strlit("ام");
    reveal_strlit("اُم");
    reveal_strlit("مین");
    reveal_strlit("سوم");
    reveal_strlit("م");
    reveal_strlit("منفی");
    reveal_strlit("ت");
    reveal_strlit("ست");
    reveal_strlit("یست");
    let w = "بیست"@;
    assert(number_words(20) == w);
    reveal_with_fuel(crate::text::trim_start_idx, 7);
    reveal_with_fuel(crate::text::trim_end_idx, 7);
    assert(trim_spec(w) =~= w);
    merge_20();
    let t = "بیست"@;
    assert("بیست"@[0] == 'ب');
    assert("بیست"@[1] == 'ی');
    assert("بیست"@[2] == 'س');
    assert("بیست"@[3] == 'ت');
    reveal_with_fuel(split_ws, 4);
    reveal_with_fuel(token_len, 7);
    assert(t.take(4) =~= t);
    assert(t.skip(4) =~= Seq::<char>::empty());
    assert(token_len(t) == 4);
    assert(split_ws(t) =~= seq![t]);
    assert(t.subrange(3, 4) =~= "ت"@);
    assert("ت"@[0] == 'ت');
    assert(t.subrange(2, 4) =~= "ست"@);
    assert("ست"@[0] == 'س');
    assert("ست"@[1] == 'ت');
    assert(t.subrange(1, 4) =~= "یست"@);
    assert("یست"@[0] == 'ی');
    assert("یست"@[1] == 'س');
    assert("یست"@[2] == 'ت');
    assert("مین"@[0] == 'م');
    assert("مین"@[1] == 'ی');
    assert("مین"@[2] == 'ن');
    assert("اُم"@[0] == 'ا');
    assert("اُم"@[1] == 'ُ');
    assert("اُم"@[2] == 'م');
    assert("ام"@[0] == 'ا');
    assert("ام"@[1] == 'م');
    assert("سوم"@[0] == 'س');
    assert("سوم"@[1] == 'و');
    assert("سوم"@[2] == 'م');
    assert("م"@[0] == 'م');
    assert(strip_ordinal(t) == t);
    reveal_with_fuel(clean_tokens, 3);
    assert(clean_tokens(seq![t]) =~= seq![t]);
    assert(unit_value(t) == Some(20i64));
    assert(t != negative_prefix());
    reveal_with_fuel(calc_scan, 3);
    assert(calc_scan(seq![t], 0, 0, false) == Ok::<i64, WordsToNumberError>(20i64));
    assert(words_to_number_spec(w) == Ok::<i64, WordsToNumberError>(20i64));
}

#[verifier::rlimit(100)]
proof fn merge_30()
    ensures
        merge_hundreds("سی"@) == "سی"@,
{
    reveal_strlit("شیش صد");
    reveal_strlit("شش صد");
    reveal_strlit("هفت صد");
    reveal_strlit("هشت صد");
    reveal_strlit("نه صد");
    reveal_strlit("چهار صد");
    reveal_strlit("ششصد");
    reveal_strlit("هفتصد");
    reveal_strlit("هشتصد");
    reveal_strlit("نهصد");
    reveal_strlit("چهارصد");
    reveal_strlit("سی");
    reveal_with_fuel(replace_all, 6);
    let w = "سی"@;
    assert("سی"@[0] == 'س');
    assert("سی"@[1] == 'ی');
    assert("شیش صد"@[0] == 'ش');
    assert("شیش صد"@[1] == 'ی');
    assert("شیش صد"@[2] == 'ش');
    assert("شیش صد"@[3] == ' ');
    assert("شیش صد"@[4] == 'ص');
    assert("شیش صد"@[5] == 'د');
    assert("شش صد"@[0] == 'ش');
    assert("شش صد"@[1] == 'ش');
    assert("شش صد"@[2] == ' ');
    assert("شش صد"@[3] == 'ص');
    assert("شش صد"@[4] == 'د');
    assert("هفت صد"@[0] == 'ه');
    assert("هفت صد"@[1] == 'ف');
    assert("هفت صد"@[2] == 'ت');
    assert("هفت صد"@[3] == ' ');
    assert("هفت صد"@[4] == 'ص');
    assert("هفت صد"@[5] == 'د');
    assert("هشت صد"@[0] == 'ه');
    assert("هشت صد"@[1] == 'ش');
    assert("هشت صد"@[2] == 'ت');
    assert("هشت صد"@[3] == ' ');
    assert("هشت صد"@[4] == 'ص');
    assert("هشت صد"@[5] == 'د');
    assert("نه صد"@[0] == 'ن');
    assert("نه صد"@[1] == 'ه');
    assert("نه صد"@[2] == ' ');
    assert("نه صد"@[3] == 'ص');
    assert("نه صد"@[4] == 'د');
    assert("چهار صد"@[0] == 'چ');
    assert("چهار صد"@[1] == 'ه');
    assert("چهار صد"@[2] == 'ا');
    assert("چهار صد"@[3] == 'ر');
    assert("چهار صد"@[4] == ' ');
    assert("چهار صد"@[5] == 'ص');
    assert("چهار صد"@[6] == 'د');
    assert("ششصد"@[0] == 'ش');
    assert("ششصد"@[1] == 'ش');
    assert("ششصد"@[2] == 'ص');
    assert("ششصد"@[3] == 'د');
    assert("ششصد"@[0] == 'ش');
    assert("ششصد"@[1] == 'ش');
    assert("ششصد"@[2] == 'ص');
    assert("ششصد"@[3] == 'د');
    assert("هفتصد"@[0] == 'ه');
    assert("هفتصد"@[1] == 'ف');
    assert("هفتصد"@[2] == 'ت');
    assert("هفتصد"@[3] == 'ص');
    assert("هفتصد"@[4] == 'د');
    assert("هشتصد"@[0] == 'ه');
    assert("هشتصد"@[1] == 'ش');
    assert("هشتصد"@[2] == 'ت');
    assert("هشتصد"@[3] == 'ص');
    assert("هشتصد"@[4] == 'د');
    assert("نهصد"@[0] == 'ن');
    assert("نهصد"@[1] == 'ه');
    assert("نهصد"@[2] == 'ص');
    assert("نهصد"@[3] == 'د');
    assert("چهارصد"@[0] == 'چ');
    assert("چهارصد"@[1] == 'ه');
    assert("چهارصد"@[2] == 'ا');
    assert("چهارصد"@[3] == 'ر');
    assert("چهارصد"@[4] == 'ص');
    assert("چهارصد"@[5] == 'د');
    assert(merge_hundreds(w) =~= w);
}

#[verifier::rlimit(100)]
proof fn rt_30()
    ensures
        words_to_number_spec(number_words(30)) == Ok::<i64, WordsToNumberError>(30i64),
{
    reveal_strlit("صفر");
    reveal_strlit("یک");
    reveal_strlit("دو");
    reveal_strlit("سه");
    reveal_strlit("چهار");
    reveal_strlit("پنج");
    reveal_strlit("شش");
    reveal_strlit("شیش");
    reveal_strlit("هفت");
    reveal_strlit("هشت");
    reveal_strlit("نه");
    reveal_strlit("ده");
    reveal_strlit("یازده");
    reveal_strlit("دوازده");
    reveal_strlit("سیزده");
    reveal_strlit("چهارده");
    reveal_strlit("پانزده");
    reveal_strlit("شانزده");
    reveal_strlit("هفده");
    reveal_strlit("هجده");
    reveal_strlit("نوزده");
    reveal_strlit("بیست");
    reveal_strlit("سی");
    reveal_strlit("شیش صد");
    reveal_strlit("شش صد");
    reveal_strlit("هفت صد");
    reveal_strlit("هشت صد");
    reveal_strlit("نه صد");
    reveal_strlit("چهار صد");
    reveal_strlit("و");
    reveal_strlit("ام");
    reveal_strlit("اُم");
    reveal_strlit("مین");
    reveal_strlit("سوم");
    reveal_strlit("م");
    reveal_strlit("منفی");
    reveal_strlit("ی");
    let w = "سی"@;
    assert(number_words(30) == w);
    reveal_with_fuel(crate::text::trim_start_idx, 5);
    reveal_with_fuel(crate::text::trim_end_idx, 5);
    assert(trim_spec(w) =~= w);
    merge_30();
    let t = "سی"@;
    assert("سی"@[0] == 'س');
    assert("سی"@[1] == 'ی');
    reveal_with_fuel(split_ws, 4);
    reveal_with_fuel(token_len, 5);
    assert(t.take(2) =~= t);
    assert(t.skip(2) =~= Seq::<char>::empty());
    assert(token_len(t) == 2);
    assert(split_ws(t) =~= seq![t]);
    assert(t.subrange(1, 2) =~= "ی"@);
    assert("ی"@[0] == 'ی');
    assert(t.subrange(0, 2) =~= "سی"@);
    assert("سی"@[0] == 'س');
    assert("سی"@[1] == 'ی');
    assert("مین"@[0] == 'م');
    assert("مین"@[1] == 'ی');
    assert("مین"@[2] == 'ن');
    assert("اُم"@[0] == 'ا');
    assert("اُم"@[1] == 'ُ');
    assert("اُم"@[2] == 'م');
    assert("ام"@[0] == 'ا');
    assert("ام"@[1] == 'م');
    assert("سوم"@[0] == 'س');
    assert("سوم"@[1] == 'و');
    assert("سوم"@[2] == 'م');
    assert("م"@[0] == 'م');
    assert(strip_ordinal(t) == t);
    reveal_with_fuel(clean_tokens, 3);
    assert(clean_tokens(seq![t]) =~= seq![t]);
    assert(unit_value(t) == Some(30i64));
    assert(t != negative_prefix());
    reveal_with_fuel(calc_scan, 3);
    assert(calc_scan(seq![t], 0, 0, false) == Ok::<i64, WordsToNumberError>(30i64));
    assert(words_to_number_spec(w) == Ok::<i64, WordsToNumberError>(30i64));
}

#[verifier::rlimit(100)]
proof fn merge_40()
    ensures
        merge_hundreds("چهل"@) == "چهل"@,
{
    reveal_strlit("شیش صد");
    reveal_strlit("شش صد");
    reveal_strlit("هفت صد");
    reveal_strlit("هشت صد");
    reveal_strlit("نه صد");
    reveal_strlit("چهار صد");
    reveal_strlit("ششصد");
    reveal_strlit("هفتصد");
    reveal_strlit("هشتصد");
    reveal_strlit("نهصد");
    reveal_strlit("چهارصد");
    reveal_strlit("چهل");
    reveal_with_fuel(replace_all, 7);
    let w = "چهل"@;
    assert("چهل"@[0] == 'چ');
    assert("چهل"@[1] == 'ه');
    assert("چهل"@[2] == 'ل');
    assert("شیش صد"@[0] == 'ش');
    assert("شیش صد"@[1] == 'ی');
    assert("شیش صد"@[2] == 'ش');
    assert("شیش صد"@[3] == ' ');
    assert("شیش صد"@[4] == 'ص');
    assert("شیش صد"@[5] == 'د');
    assert("شش صد"@[0] == 'ش');
    assert("شش صد"@[1] == 'ش');
    assert("شش صد"@[2] == ' ');
    assert("شش صد"@[3] == 'ص');
    assert("شش صد"@[4] == 'د');
    assert("هفت صد"@[0] == 'ه');
    assert("هفت صد"@[1] == 'ف');
    assert("هفت صد"@[2] == 'ت');
    assert("هفت صد"@[3] == ' ');
    assert("هفت صد"@[4] == 'ص');
    assert("هفت صد"@[5] == 'د');
    assert("هشت صد"@[0] == 'ه');
    assert("هشت صد"@[1] == 'ش');
    assert("هشت صد"@[2] == 'ت');
    assert("هشت صد"@[3] == ' ');
    assert("هشت صد"@[4] == 'ص');
    assert("هشت صد"@[5] == 'د');
    assert("نه صد"@[0] == 'ن');
    assert("نه صد"@[1] == 'ه');
    assert("نه صد"@[2] == ' ');
    assert("نه صد"@[3] == 'ص');
    assert("نه صد"@[4] == 'د');
    assert("چهار صد"@[0] == 'چ');
    assert("چهار صد"@[1] == 'ه');
    assert("چهار صد"@[2] == 'ا');
    assert("چهار صد"@[3] == 'ر');
    assert("چهار صد"@[4] == ' ');
    assert("چهار صد"@[5] == 'ص');
    assert("چهار صد"@[6] == 'د');
    assert("ششصد"@[0] == 'ش');
    assert("ششصد"@[1] == 'ش');
    assert("ششصد"@[2] == 'ص');
    assert("ششصد"@[3] == 'د');
    assert("ششصد"@[0] == 'ش');
    assert("ششصد"@[1] == 'ش');
    assert("ششصد"@[2] == 'ص');
    assert("ششصد"@[3] == 'د');
    assert("هفتصد"@[0] == 'ه');
    assert("هفتصد"@[1] == 'ف');
    assert("هفتصد"@[2] == 'ت');
    assert("هفتصد"@[3] == 'ص');
    assert("هفتصد"@[4] == 'د');
    assert("هشتصد"@[0] == 'ه');
    assert("هشتصد"@[1] == 'ش');
    assert("هشتصد"@[2] == 'ت');
    assert("هشتصد"@[3] == 'ص');
    assert("هشتصد"@[4] == 'د');
    assert("نهصد"@[0] == 'ن');
    assert("نهصد"@[1] == 'ه');
    assert("نهصد"@[2] == 'ص');
    assert("نهصد"@[3] == 'د');
    assert("چهارصد"@[0] == 'چ');
    assert("چهارصد"@[1] == 'ه');
    assert("چهارصد"@[2] == 'ا');
    assert("چهارصد"@[3] == 'ر');
    assert("چهارصد"@[4] == 'ص');
    assert("چهارصد"@[5] == 'د');
    assert(merge_hundreds(w) =~= w);
}

#[verifier::rlimit(100)]
proof fn rt_40()
    ensures
        words_to_number_spec(number_words(40)) == Ok::<i64, WordsToNumberError>(40i64),
{
    reveal_strlit("صفر");
    reveal_strlit("یک");
    reveal_strlit("دو");
    reveal_strlit("سه");
    reveal_strlit("چهار");
    reveal_strlit("پنج");
    reveal_strlit("شش");
    reveal_strlit("شیش");
    reveal_strlit("هفت");
    reveal_strlit("هشت");
    reveal_strlit("نه");
    reveal_strlit("ده");
    reveal_strlit("یازده");
    reveal_strlit("دوازده");
    reveal_strlit("سیزده");
    reveal_strlit("چهارده");
    reveal_strlit("پانزده");
    reveal_strlit("شانزده");
    reveal_strlit("هفده");
    reveal_strlit("هجده");
    reveal_strlit("نوزده");
    reveal_strlit("بیست");
    reveal_strlit("سی");
    reveal_strlit("چهل");
    reveal_strlit("شیش صد");
    reveal_strlit("شش صد");
    reveal_strlit("هفت صد");
    reveal_strlit("هشت صد");
    reveal_strlit("نه صد");
    reveal_strlit("چهار صد");
    reveal_strlit("و");
    reveal_strlit("ام");
    reveal_strlit("اُم");
    reveal_strlit("مین");
    reveal_strlit("سوم");
    reveal_strlit("م");
    reveal_strlit("منفی");
    reveal_strlit("ل");
    reveal_strlit("هل");
    let w = "چهل"@;
    assert(number_words(40) == w);
    reveal_with_fuel(crate::text::trim_start_idx, 6);
    reveal_with_fuel(crate::text::trim_end_idx, 6);
    assert(trim_spec(w) =~= w);
    merge_40();
    let t = "چهل"@;
    assert("چهل"@[0] == 'چ');
    assert("چهل"@[1] == 'ه');
    assert("چهل"@[2] == 'ل');
    reveal_with_fuel(split_ws, 4);
    reveal_with_fuel(token_len, 6);
    assert(t.take(3) =~= t);
    assert(t.skip(3) =~= Seq::<char>::empty());
    assert(token_len(t) == 3);
    assert(split_ws(t) =~= seq![t]);
    assert(t.subrange(2, 3) =~= "ل"@);
    assert("ل"@[0] == 'ل');
    assert(t.subrange(1, 3) =~= "هل"@);
    assert("هل"@[0] == 'ه');
    assert("هل"@[1] == 'ل');
    assert(t.subrange(0, 3) =~= "چهل"@);
    assert("چهل"@[0] == 'چ');
    assert("چهل"@[1] == 'ه');
    assert("چهل"@[2] == 'ل');
    assert("مین"@[0] == 'م');
    assert("مین"@[1] == 'ی');
    assert("مین"@[2] == 'ن');
    assert("اُم"@[0] == 'ا');
    assert("اُم"@[1] == 'ُ');
    assert("اُم"@[2] == 'م');
    assert("ام"@[0] == 'ا');
    assert("ام"@[1] == 'م');
    assert("سوم"@[0] == 'س');
    assert("سوم"@[1] == 'و');
    assert("سوم"@[2] == 'م');
    assert("م"@[0] == 'م');
    assert(strip_ordinal(t) == t);
    reveal_with_fuel(clean_tokens, 3);
    assert(clean_tokens(seq![t]) =~= seq![t]);
    assert(unit_value(t) == Some(40i64));
    assert(t != negative_prefix());
    reveal_with_fuel(calc_scan, 3);
    assert(calc_scan(seq![t], 0, 0, false) == Ok::<i64, WordsToNumberError>(40i64));
    assert(words_to_number_spec(w) == Ok::<i64, WordsToNumberError>(40i64));
}

#[verifier::rlimit(100)]
proof fn merge_50()
    ensures
        merge_hundreds("پنجاه"@) == "پنجاه"@,
{
    reveal_strlit("شیش صد");
    reveal_strlit("شش صد");
    reveal_strlit("هفت صد");
    reveal_strlit("هشت صد");
    reveal_strlit("نه صد");
    reveal_strlit("چهار صد");
    reveal_strlit("ششصد");
    reveal_strlit("هفتصد");
    reveal_strlit("هشتصد");
    reveal_strlit("نهصد");
    reveal_strlit("چهارصد");
    reveal_strlit("پنجاه");
    reveal_with_fuel(replace_all, 9);
    let w = "پنجاه"@;
    assert("پنجاه"@[0] == 'پ');
    assert("پنجاه"@[1] == 'ن');
    assert("پنجاه"@[2] == 'ج');
    assert("پنجاه"@[3] == 'ا');
    assert("پنجاه"@[4] == 'ه');
    assert("شیش صد"@[0] == 'ش');
    assert("شیش صد"@[1] == 'ی');
    assert("شیش صد"@[2] == 'ش');
    assert("شیش صد"@[3] == ' ');
    assert("شیش صد"@[4] == 'ص');
    assert("شیش صد"@[5] == 'د');
    assert("شش صد"@[0] == 'ش');
    assert("شش صد"@[1] == 'ش');
    assert("شش صد"@[2] == ' ');
    assert("شش صد"@[3] == 'ص');
    assert("شش صد"@[4] == 'د');
    assert("هفت صد"@[0] == 'ه');
    assert("هفت صد"@[1] == 'ف');
    assert("هفت صد"@[2] == 'ت');
    assert("هفت صد"@[3] == ' ');
    assert("هفت صد"@[4] == 'ص');
    assert("هفت صد"@[5] == 'د');
    assert("هشت صد"@[0] == 'ه');
    assert("هشت صد"@[1] == 'ش');
    assert("هشت صد"@[2] == 'ت');
    assert("هشت صد"@[3] == ' ');
    assert("هشت صد"@[4] == 'ص');
    assert("هشت صد"@[5] == 'د');
    assert("نه صد"@[0] == 'ن');
    assert("نه صد"@[1] == 'ه');
    assert("نه صد"@[2] == ' ');
    assert("نه صد"@[3] == 'ص');
    assert("نه صد"@[4] == 'د');
    assert("چهار صد"@[0] == 'چ');
    assert("چهار صد"@[1] == 'ه');
    assert("چهار صد"@[2] == 'ا');
    assert("چهار صد"@[3] == 'ر');
    assert("چهار صد"@[4] == ' ');
    assert("چهار صد"@[5] == 'ص');
    assert("چهار صد"@[6] == 'د');
    assert("ششصد"@[0] == 'ش');
    assert("ششصد"@[1] == 'ش');
    assert("ششصد"@[2] == 'ص');
    assert("ششصد"@[3] == 'د');
    assert("ششصد"@[0] == 'ش');
    assert("ششصد"@[1] == 'ش');
    assert("ششصد"@[2] == 'ص');
    assert("ششصد"@[3] == 'د');
    assert("هفتصد"@[0] == 'ه');
    assert("هفتصد"@[1] == 'ف');
    assert("هفتصد"@[2] == 'ت');
    assert("هفتصد"@[3] == 'ص');
    assert("هفتصد"@[4] == 'د');
    assert("هشتصد"@[0] == 'ه');
    assert("هشتصد"@[1] == 'ش');
    assert("هشتصد"@[2] == 'ت');
    assert("هشتصد"@[3] == 'ص');
    assert("هشتصد"@[4] == 'د');
    assert("نهصد"@[0] == 'ن');
    assert("نهصد"@[1] == 'ه');
    assert("نهصد"@[2] == 'ص');
    assert("نهصد"@[3] == 'د');
    assert("چهارصد"@[0] == 'چ');
    assert("چهارصد"@[1] == 'ه');
    assert("چهارصد"@[2] == 'ا');
    assert("چهارصد"@[3] == 'ر');
    assert("چهارصد"@[4] == 'ص');
    assert("چهارصد"@[5] == 'د');
    assert(merge_hundreds(w) =~= w);
}

#[verifier::rlimit(100)]
proof fn rt_50()
    ensures
        words_to_number_spec(number_words(50)) == Ok::<i64, WordsToNumberError>(50i64),
{
    reveal_strlit("صفر");
    reveal_strlit("یک");
    reveal_strlit("دو");
    reveal_strlit("سه");
    reveal_strlit("چهار");
    reveal_strlit("پنج");
    reveal_strlit("شش");
    reveal_strlit("شیش");
    reveal_strlit("هفت");
    reveal_strlit("هشت");
    reveal_strlit("نه");
    reveal_strlit("ده");
    reveal_strlit("یازده");
    reveal_strlit("دوازده");
    reveal_strlit("سیزده");
    reveal_strlit("چهارده");
    reveal_strlit("پانزده");
    reveal_strlit("شانزده");
    reveal_strlit("هفده");
    reveal_strlit("هجده");
    reveal_strlit("نوزده");
    reveal_strlit("بیست");
    reveal_strlit("سی");
    reveal_strlit("چهل");
    reveal_strlit("پنجاه");
    reveal_strlit("شیش صد");
    reveal_strlit("شش صد");
    reveal_strlit("هفت صد");
    reveal_strlit("هشت صد");
    reveal_strlit("نه صد");
    reveal_strlit("چهار صد");
    reveal_strlit("و");
    reveal_strlit("ام");
    reveal_strlit("اُم");
    reveal_strlit("مین");
    reveal_strlit("سوم");
    reveal_strlit("م");
    reveal_strlit("منفی");
    reveal_strlit("ه");
    reveal_strlit("اه");
    reveal_strlit("جاه");
    let w = "پنجاه"@;
    assert(number_words(50) == w);
    reveal_with_fuel(crate::text::trim_start_idx, 8);
    reveal_with_fuel(crate::text::trim_end_idx, 8);
    assert(trim_spec(w) =~= w);
    merge_50();
    let t = "پنجاه"@;
    assert("پنجاه"@[0] == 'پ');
    assert("پنجاه"@[1] == 'ن');
    assert("پنجاه"@[2] == 'ج');
    assert("پنجاه"@[3] == 'ا');
    assert("پنجاه"@[4] == 'ه');
    reveal_with_fuel(split_ws, 4);
    reveal_with_fuel(token_len, 8);
    assert(t.take(5) =~= t);
    assert(t.skip(5) =~= Seq::<char>::empty());
    assert(token_len(t) == 5);
    assert(split_ws(t) =~= seq![t]);
    assert(t.subrange(4, 5) =~= "ه"@);
    assert("ه"@[0] == 'ه');
    assert(t.subrange(3, 5) =~= "اه"@);
    assert("اه"@[0] == 'ا');
    assert("اه"@[1] == 'ه');
    assert(t.subrange(2, 5) =~= "جاه"@);
    assert("جاه"@[0] == 'ج');
    assert("جاه"@[1] == 'ا');
    assert("جاه"@[2] == 'ه');
    assert("مین"@[0] == 'م');
    assert("مین"@[1] == 'ی');
    assert("مین"@[2] == 'ن');
    assert("اُم"@[0] == 'ا');
    assert("اُم"@[1] == 'ُ');
    assert("اُم"@[2] == 'م');
    assert("ام"@[0] == 'ا');
    assert("ام"@[1] == 'م');
    assert("سوم"@[0] == 'س');
    assert("سوم"@[1] == 'و');
    assert("سوم"@[2] == 'م');
    assert("م"@[0] == 'م');
    assert(strip_ordinal(t) == t);
    reveal_with_fuel(clean_tokens, 3);
    assert(clean_tokens(seq![t]) =~= seq![t]);
    assert(unit_value(t) == Some(50i64));
    assert(t != negative_prefix());
    reveal_with_fuel(calc_scan, 3);
    assert(calc_scan(seq![t], 0, 0, false) == Ok::<i64, WordsToNumberError>(50i64));
    assert(words_to_number_spec(w) == Ok::<i64, WordsToNumberError>(50i64));
}

#[verifier::rlimit(100)]
proof fn merge_60()
    ensures
        merge_hundreds("شصت"@) == "شصت"@,
{
    reveal_strlit("شیش صد");
    reveal_strlit("شش صد");
    reveal_strlit("هفت صد");
    reveal_strlit("هشت صد");
    reveal_strlit("نه صد");
    reveal_strlit("چهار صد");
    reveal_strlit("ششصد");
    reveal_strlit("هفتصد");
    reveal_strlit("هشتصد");
    reveal_strlit("نهصد");
    reveal_strlit("چهارصد");
    reveal_strlit("شصت");
    reveal_with_fuel(replace_all, 7);
    let w = "شصت"@;
    assert("شصت"@[0] == 'ش');
    assert("شصت"@[1] == 'ص');
    assert("شصت"@[2] == 'ت');
    assert("شیش صد"@[0] == 'ش');
    assert("شیش صد"@[1] == 'ی');
    assert("شیش صد"@[2] == 'ش');
    assert("شیش صد"@[3] == ' ');
    assert("شیش صد"@[4] == 'ص');
    assert("شیش صد"@[5] == 'د');
    assert("شش صد"@[0] == 'ش');
    assert("شش صد"@[1] == 'ش');
    assert("شش صد"@[2] == ' ');
    assert("شش صد"@[3] == 'ص');
    assert("شش صد"@[4] == 'د');
    assert("هفت صد"@[0] == 'ه');
    assert("هفت صد"@[1] == 'ف');
    assert("هفت صد"@[2] == 'ت');
    assert("هفت صد"@[3] == ' ');
    assert("هفت صد"@[4] == 'ص');
    assert("هفت صد"@[5] == 'د');
    assert("هشت صد"@[0] == 'ه');
    assert("هشت صد"@[1] == 'ش');
    assert("هشت صد"@[2] == 'ت');
    assert("هشت صد"@[3] == ' ');
    assert("هشت صد"@[4] == 'ص');
    assert("هشت صد"@[5] == 'د');
    assert("نه صد"@[0] == 'ن');
    assert("نه صد"@[1] == 'ه');
    assert("نه صد"@[2] == ' ');
    assert("نه صد"@[3] == 'ص');
    assert("نه صد"@[4] == 'د');
    assert("چهار صد"@[0] == 'چ');
    assert("چهار صد"@[1] == 'ه');
    assert("چهار صد"@[2] == 'ا');
    assert("چهار صد"@[3] == 'ر');
    assert("چهار صد"@[4] == ' ');
    assert("چهار صد"@[5] == 'ص');
    assert("چهار صد"@[6] == 'د');
    assert("ششصد"@[0] == 'ش');
    assert("ششصد"@[1] == 'ش');
    assert("ششصد"@[2] == 'ص');
    assert("ششصد"@[3] == 'د');
    assert("ششصد"@[0] == 'ش');
    assert("ششصد"@[1] == 'ش');
    assert("ششصد"@[2] == 'ص');
    assert("ششصد"@[3] == 'د');
    assert("هفتصد"@[0] == 'ه');
    assert("هفتصد"@[1] == 'ف');
    assert("هفتصد"@[2] == 'ت');
    assert("هفتصد"@[3] == 'ص');
    assert("هفتصد"@[4] == 'د');
    assert("هشتصد"@[0] == 'ه');
    assert("هشتصد"@[1] == 'ش');
    assert("هشتصد"@[2] == 'ت');
    assert("هشتصد"@[3] == 'ص');
    assert("هشتصد"@[4] == 'د');
    assert("نهصد"@[0] == 'ن');
    assert("نهصد"@[1] == 'ه');
    assert("نهصد"@[2] == 'ص');
    assert("نهصد"@[3] == 'د');
    assert("چهارصد"@[0] == 'چ');
    assert("چهارصد"@[1] == 'ه');
    assert("چهارصد"@[2] == 'ا');
    assert("چهارصد"@[3] == 'ر');
    assert("چهارصد"@[4] == 'ص');
    assert("چهارصد"@[5] == 'د');
    assert(merge_hundreds(w) =~= w);
}

#[verifier::rlimit(100)]
proof fn rt_60()
    ensures
        words_to_number_spec(number_words(60)) == Ok::<i64, WordsToNumberError>(60i64),
{
    reveal_strlit("صفر");
    reveal_strlit("یک");
    reveal_strlit("دو");
    reveal_strlit("سه");
    reveal_strlit("چهار");
    reveal_strlit("پنج");
    reveal_strlit("شش");
    reveal_strlit("شیش");
    reveal_strlit("هفت");
    reveal_strlit("هشت");
    reveal_strlit("نه");
    reveal_strlit("ده");
    reveal_strlit("یازده");
    reveal_strlit("دوازده");
    reveal_strlit("سیزده");
    reveal_strlit("چهارده");
    reveal_strlit("پانزده");
    reveal_strlit("شانزده");
    reveal_strlit("هفده");
    reveal_strlit("هجده");
    reveal_strlit("نوزده");
    reveal_strlit("بیست");
    reveal_strlit("سی");
    reveal_strlit("چهل");
    reveal_strlit("پنجاه");
    reveal_strlit("شصت");
    reveal_strlit("شیش صد");
    reveal_strlit("شش صد");
    reveal_strlit("هفت صد");
    reveal_strlit("هشت صد");
    reveal_strlit("نه صد");
    reveal_strlit("چهار صد");
    reveal_strlit("و");
    reveal_strlit("ام");
    reveal_strlit("اُم");
    reveal_strlit("مین");
    reveal_strlit("سوم");
    reveal_strlit("م");
    reveal_strlit("منفی");
    reveal_strlit("ت");
    reveal_strlit("صت");
    let w = "شصت"@;
    assert(number_words(60) == w);
    reveal_with_fuel(crate::text::trim_start_idx, 6);
    reveal_with_fuel(crate::text::trim_end_idx, 6);
    assert(trim_spec(w) =~= w);
    merge_60();
    let t = "شصت"@;
    assert("شصت"@[0] == 'ش');
    assert("شصت"@[1] == 'ص');
    assert("شصت"@[2] == 'ت');
    reveal_with_fuel(split_ws, 4);
    reveal_with_fuel(token_len, 6);
    assert(t.take(3) =~= t);
    assert(t.skip(3) =~= Seq::<char>::empty());
    assert(token_len(t) == 3);
    assert(split_ws(t) =~= seq![t]);
    assert(t.subrange(2, 3) =~= "ت"@);
    assert("ت"@[0] == 'ت');
    assert(t.subrange(1, 3) =~= "صت"@);
    assert("صت"@[0] == 'ص');
    assert("صت"@[1] == 'ت');
    assert(t.subrange(0, 3) =~= "شصت"@);
    assert("شصت"@[0] == 'ش');
    assert("شصت"@[1] == 'ص');
    assert("شصت"@[2] == 'ت');
    assert("مین"@[0] == 'م');
    assert("مین"@[1] == 'ی');
    assert("مین"@[2] == 'ن');
    assert("اُم"@[0] == 'ا');
    assert("اُم"@[1] == 'ُ');
    assert("اُم"@[2] == 'م');
    assert("ام"@[0] == 'ا');
    assert("ام"@[1] == 'م');
    assert("سوم"@[0] == 'س');
    assert("سوم"@[1] == 'و');
    assert("سوم"@[2] == 'م');
    assert("م"@[0] == 'م');
    assert(strip_ordinal(t) == t);
    reveal_with_fuel(clean_tokens, 3);
    assert(clean_tokens(seq![t]) =~= seq![t]);
    assert(unit_value(t) == Some(60i64));
    assert(t != negative_prefix());
    reveal_with_fuel(calc_scan, 3);
    assert(calc_scan(seq![t], 0, 0, false) == Ok::<i64, WordsToNumberError>(60i64));
    assert(words_to_number_spec(w) == Ok::<i64, WordsToNumberError>(60i64));
}

#[verifier::rlimit(100)]
proof fn merge_70()
    ensures
        merge_hundreds("هفتاد"@) == "هفتاد"@,
{
    reveal_strlit("شیش صد");
    reveal_strlit("شش صد");
    reveal_strlit("هفت صد");
    reveal_strlit("هشت صد");
    reveal_strlit("نه صد");
    reveal_strlit("چهار صد");
    reveal_strlit("ششصد");
    reveal_strlit("هفتصد");
    reveal_strlit("هشتصد");
    reveal_strlit("نهصد");
    reveal_strlit("چهارصد");
    reveal_strlit("هفتاد");
    reveal_with_fuel(replace_all, 9);
    let w = "هفتاد"@;
    assert("هفتاد"@[0] == 'ه');
    assert("هفتاد"@[1] == 'ف');
    assert("هفتاد"@[2] == 'ت');
    assert("هفتاد"@[3] == 'ا');
    assert("هفتاد"@[4] == 'د');
    assert("شیش صد"@[0] == 'ش');
    assert("شیش صد"@[1] == 'ی');
    assert("شیش صد"@[2] == 'ش');
    assert("شیش صد"@[3] == ' ');
    assert("شیش صد"@[4] == 'ص');
    assert("شیش صد"@[5] == 'د');
    assert("شش صد"@[0] == 'ش');
    assert("شش صد"@[1] == 'ش');
    assert("شش صد"@[2] == ' ');
    assert("شش صد"@[3] == 'ص');
    assert("شش صد"@[4] == 'د');
    assert("هفت صد"@[0] == 'ه');
    assert("هفت صد"@[1] == 'ف');
    assert("هفت صد"@[2] == 'ت');
    assert("هفت صد"@[3] == ' ');
    assert("هفت صد"@[4] == 'ص');
    assert("هفت صد"@[5] == 'د');
    assert("هشت صد"@[0] == 'ه');
    assert("هشت صد"@[1] == 'ش');
    assert("هشت صد"@[2] == 'ت');
    assert("هشت صد"@[3] == ' ');
    assert("هشت صد"@[4] == 'ص');
    assert("هشت صد"@[5] == 'د');
    assert("نه صد"@[0] == 'ن');
    assert("نه صد"@[1] == 'ه');
    assert("نه صد"@[2] == ' ');
    assert("نه صد"@[3] == 'ص');
    assert("نه صد"@[4] == 'د');
    assert("چهار صد"@[0] == 'چ');
    assert("چهار صد"@[1] == 'ه');
    assert("چهار صد"@[2] == 'ا');
    assert("چهار صد"@[3] == 'ر');
    assert("چهار صد"@[4] == ' ');
    assert("چهار صد"@[5] == 'ص');
    assert("چهار صد"@[6] == 'د');
    assert("ششصد"@[0] == 'ش');
    assert("ششصد"@[1] == 'ش');
    assert("ششصد"@[2] == 'ص');
    assert("ششصد"@[3] == 'د');
    assert("ششصد"@[0] == 'ش');
    assert("ششصد"@[1] == 'ش');
    assert("ششصد"@[2] == 'ص');
    assert("ششصد"@[3] == 'د');
    assert("هفتصد"@[0] == 'ه');
    assert("هفتصد"@[1] == 'ف');
    assert("هفتصد"@[2] == 'ت');
    assert("هفتصد"@[3] == 'ص');
    assert("هفتصد"@[4] == 'د');
    assert("هشتصد"@[0] == 'ه');
    assert("هشتصد"@[1] == 'ش');
    assert("هشتصد"@[2] == 'ت');
    assert("هشتصد"@[3] == 'ص');
    assert("هشتصد"@[4] == 'د');
    assert("نهصد"@[0] == 'ن');
    assert("نهصد"@[1] == 'ه');
    assert("نهصد"@[2] == 'ص');
    assert("نهصد"@[3] == 'د');
    assert("چهارصد"@[0] == 'چ');
    assert("چهارصد"@[1] == 'ه');
    assert("چهارصد"@[2] == 'ا');
    assert("چهارصد"@[3] == 'ر');
    assert("چهارصد"@[4] == 'ص');
    assert("چهارصد"@[5] == 'د');
    assert(merge_hundreds(w) =~= w);
}

#[verifier::rlimit(100)]
proof fn rt_70()
    ensures
        words_to_number_spec(number_words(70)) == Ok::<i64, WordsToNumberError>(70i64),
{
    reveal_strlit("صفر");
    reveal_strlit("یک");
    reveal_strlit("دو");
    reveal_strlit("سه");
    reveal_strlit("چهار");
    reveal_strlit("پنج");
    reveal_strlit("شش");
    reveal_strlit("شیش");
    reveal_strlit("هفت");
    reveal_strlit("هشت");
    reveal_strlit("نه");
    reveal_strlit("ده");
    reveal_strlit("یازده");
    reveal_strlit("دوازده");
    reveal_strlit("سیزده");
    reveal_strlit("چهارده");
    reveal_strlit("پانزده");
    reveal_strlit("شانزده");
    reveal_strlit("هفده");
    reveal_strlit("هجده");
    reveal_strlit("نوزده");
    reveal_strlit("بیست");
    reveal_strlit("سی");
    reveal_strlit("چهل");
    reveal_strlit("پنجاه");
    reveal_strlit("شصت");
    reveal_strlit("هفتاد");
    reveal_strlit("شیش صد");
    reveal_strlit("شش صد");
    reveal_strlit("هفت صد");
    reveal_strlit("هشت صد");
    reveal_strlit("نه صد");
    reveal_strlit("چهار صد");
    reveal_strlit("و");
    reveal_strlit("ام");
    reveal_strlit("اُم");
    reveal_strlit("مین");
    reveal_strlit("سوم");
    reveal_strlit("م");
    reveal_strlit("منفی");
    reveal_strlit("د");
    reveal_strlit("اد");
    reveal_strlit("تاد");
    let w = "هفتاد"@;
    assert(number_words(70) == w);
    reveal_with_fuel(crate::text::trim_start_idx, 8);
    reveal_with_fuel(crate::text::trim_end_idx, 8);
    assert(trim_spec(w) =~= w);
    merge_70();
    let t = "هفتاد"@;
    assert("هفتاد"@[0] == 'ه');
    assert("هفتاد"@[1] == 'ف');
    assert("هفتاد"@[2] == 'ت');
    assert("هفتاد"@[3] == 'ا');
    assert("هفتاد"@[4] == 'د');
    reveal_with_fuel(split_ws, 4);
    reveal_with_fuel(token_len, 8);
    assert(t.take(5) =~= t);
    assert(t.skip(5) =~= Seq::<char>::empty());
    assert(token_len(t) == 5);
    assert(split_ws(t) =~= seq![t]);
    assert(t.subrange(4, 5) =~= "د"@);
    assert("د"@[0] == 'د');
    assert(t.subrange(3, 5) =~= "اد"@);
    assert("اد"@[0] == 'ا');
    assert("اد"@[1] == 'د');
    assert(t.subrange(2, 5) =~= "تاد"@);
    assert("تاد"@[0] == 'ت');
    assert("تاد"@[1] == 'ا');
    assert("تاد"@[2] == 'د');
    assert("مین"@[0] == 'م');
    assert("مین"@[1] == 'ی');
    assert("مین"@[2] == 'ن');
    assert("اُم"@[0] == 'ا');
    assert("اُم"@[1] == 'ُ');
    assert("اُم"@[2] == 'م');
    assert("ام"@[0] == 'ا');
    assert("ام"@[1] == 'م');
    assert("سوم"@[0] == 'س');
    assert("سوم"@[1] == 'و');
    assert("سوم"@[2] == 'م');
    assert("م"@[0] == 'م');
    assert(strip_ordinal(t) == t);
    reveal_with_fuel(clean_tokens, 3);
    assert(clean_tokens(seq![t]) =~= seq![t]);
    assert(unit_value(t) == Some(70i64));
    assert(t != negative_prefix());
    reveal_with_fuel(calc_scan, 3);
    assert(calc_scan(seq![t], 0, 0, false) == Ok::<i64, WordsToNumberError>(70i64));
    assert(words_to_number_spec(w) == Ok::<i64, WordsToNumberError>(70i64));
}

#[verifier::rlimit(100)]
proof fn merge_80()
    ensures
        merge_hundreds("هشتاد"@) == "هشتاد"@,
{
    reveal_strlit("شیش صد");
    reveal_strlit("شش صد");
    reveal_strlit("هفت صد");
    reveal_strlit("هشت صد");
    reveal_strlit("نه صد");
    reveal_strlit("چهار صد");
    reveal_strlit("ششصد");
    reveal_strlit("هفتصد");
    reveal_strlit("هشتصد");
    reveal_strlit("نهصد");
    reveal_strlit("چهارصد");
    reveal_strlit("هشتاد");
    reveal_with_fuel(replace_all, 9);
    let w = "هشتاد"@;
    assert("هشتاد"@[0] == 'ه');
    assert("هشتاد"@[1] == 'ش');
    assert("هشتاد"@[2] == 'ت');
    assert("هشتاد"@[3] == 'ا');
    assert("هشتاد"@[4] == 'د');
    assert("شیش صد"@[0] == 'ش');
    assert("شیش صد"@[1] == 'ی');
    assert("شیش صد"@[2] == 'ش');
    assert("شیش صد"@[3] == ' ');
    assert("شیش صد"@[4] == 'ص');
    assert("شیش صد"@[5] == 'د');
    assert("شش صد"@[0] == 'ش');
    assert("شش صد"@[1] == 'ش');
    assert("شش صد"@[2] == ' ');
    assert("شش صد"@[3] == 'ص');
    assert("شش صد"@[4] == 'د');
    assert("هفت صد"@[0] == 'ه');
    assert("هفت صد"@[1] == 'ف');
    assert("هفت صد"@[2] == 'ت');
    assert("هفت صد"@[3] == ' ');
    assert("هفت صد"@[4] == 'ص');
    assert("هفت صد"@[5] == 'د');
    assert("هشت صد"@[0] == 'ه');
    assert("هشت صد"@[1] == 'ش');
    assert("هشت صد"@[2] == 'ت');
    assert("هشت صد"@[3] == ' ');
    assert("هشت صد"@[4] == 'ص');
    assert("هشت صد"@[5] == 'د');
    assert("نه صد"@[0] == 'ن');
    assert("نه صد"@[1] == 'ه');
    assert("نه صد"@[2] == ' ');
    assert("نه صد"@[3] == 'ص');
    assert("نه صد"@[4] == 'د');
    assert("چهار صد"@[0] == 'چ');
    assert("چهار صد"@[1] == 'ه');
    assert("چهار صد"@[2] == 'ا');
    assert("چهار صد"@[3] == 'ر');
    assert("چهار صد"@[4] == ' ');
    assert("چهار صد"@[5] == 'ص');
    assert("چهار صد"@[6] == 'د');
    assert("ششصد"@[0] == 'ش');
    assert("ششصد"@[1] == 'ش');
    assert("ششصد"@[2] == 'ص');
    assert("ششصد"@[3] == 'د');
    assert("ششصد"@[0] == 'ش');
    assert("ششصد"@[1] == 'ش');
    assert("ششصد"@[2] == 'ص');
    assert("ششصد"@[3] == 'د');
    assert("هفتصد"@[0] == 'ه');
    assert("هفتصد"@[1] == 'ف');
    assert("هفتصد"@[2] == 'ت');
    assert("هفتصد"@[3] == 'ص');
    assert("هفتصد"@[4] == 'د');
    assert("هشتصد"@[0] == 'ه');
    assert("هشتصد"@[1] == 'ش');
    assert("هشتصد"@[2] == 'ت');
    assert("هشتصد"@[3] == 'ص');
    assert("هشتصد"@[4] == 'د');
    assert("نهصد"@[0] == 'ن');
    assert("نهصد"@[1] == 'ه');
    assert("نهصد"@[2] == 'ص');
    assert("نهصد"@[3] == 'د');
    assert("چهارصد"@[0] == 'چ');
    assert("چهارصد"@[1] == 'ه');
    assert("چهارصد"@[2] == 'ا');
    assert("چهارصد"@[3] == 'ر');
    assert("چهارصد"@[4] == 'ص');
    assert("چهارصد"@[5] == 'د');
    assert(merge_hundreds(w) =~= w);
}

#[verifier::rlimit(100)]
proof fn rt_80()
    ensures
        words_to_number_spec(number_words(80)) == Ok::<i64, WordsToNumberError>(80i64),
{
    reveal_strlit("صفر");
    reveal_strlit("یک");
    reveal_strlit("دو");
    reveal_strlit("سه");
    reveal_strlit("چهار");
    reveal_strlit("پنج");
    reveal_strlit("شش");
    reveal_strlit("شیش");
    reveal_strlit("هفت");
    reveal_strlit("هشت");
    reveal_strlit("نه");
    reveal_strlit("ده");
    reveal_strlit("یازده");
    reveal_strlit("دوازده");
    reveal_strlit("سیزده");
    reveal_strlit("چهارده");
    reveal_strlit("پانزده");
    reveal_strlit("شانزده");
    reveal_strlit("هفده");
    reveal_strlit("هجده");
    reveal_strlit("نوزده");
    reveal_strlit("بیست");
    reveal_strlit("سی");
    reveal_strlit("چهل");
    reveal_strlit("پنجاه");
    reveal_strlit("شصت");
    reveal_strlit("هفتاد");
    reveal_strlit("هشتاد");
    reveal_strlit("شیش صد");
    reveal_strlit("شش صد");
    reveal_strlit("هفت صد");
    reveal_strlit("هشت صد");
    reveal_strlit("نه صد");
    reveal_strlit("چهار صد");
    reveal_strlit("و");
    reveal_strlit("ام");
    reveal_strlit("اُم");
    reveal_strlit("مین");
    reveal_strlit("سوم");
    reveal_strlit("م");
    reveal_strlit("منفی");
    reveal_strlit("د");
    reveal_strlit("اد");
    reveal_strlit("تاد");
    let w = "هشتاد"@;
    assert(number_words(80) == w);
    reveal_with_fuel(crate::text::trim_start_idx, 8);
    reveal_with_fuel(crate::text::trim_end_idx, 8);
    assert(trim_spec(w) =~= w);
    merge_80();
    let t = "هشتاد"@;
    assert("هشتاد"@[0] == 'ه');
    assert("هشتاد"@[1] == 'ش');
    assert("هشتاد"@[2] == 'ت');
    assert("هشتاد"@[3] == 'ا');
    assert("هشتاد"@[4] == 'د');
    reveal_with_fuel(split_ws, 4);
    reveal_with_fuel(token_len, 8);
    assert(t.take(5) =~= t);
    assert(t.skip(5) =~= Seq::<char>::empty());
    assert(token_len(t) == 5);
    assert(split_ws(t) =~= seq![t]);
    assert(t.subrange(4, 5) =~= "د"@);
    assert("د"@[0] == 'د');
    assert(t.subrange(3, 5) =~= "اد"@);
    assert("اد"@[0] == 'ا');
    assert("اد"@[1] == 'د');
    assert(t.subrange(2, 5) =~= "تاد"@);
    assert("تاد"@[0] == 'ت');
    assert("تاد"@[1] == 'ا');
    assert("تاد"@[2] == 'د');
    assert("مین"@[0] == 'م');
    assert("مین"@[1] == 'ی');
    assert("مین"@[2] == 'ن');
    assert("اُم"@[0] == 'ا');
    assert("اُم"@[1] == 'ُ');
    assert("اُم"@[2] == 'م');
    assert("ام"@[0] == 'ا');
    assert("ام"@[1] == 'م');
    assert("سوم"@[0] == 'س');
    assert("سوم"@[1] == 'و');
    assert("سوم"@[2] == 'م');
    assert("م"@[0] == 'م');
    assert(strip_ordinal(t) == t);
    reveal_with_fuel(clean_tokens, 3);
    assert(clean_tokens(seq![t]) =~= seq![t]);
    assert(unit_value(t) == Some(80i64));
    assert(t != negative_prefix());
    reveal_with_fuel(calc_scan, 3);
    assert(calc_scan(seq![t], 0, 0, false) == Ok::<i64, WordsToNumberError>(80i64));
    assert(words_to_number_spec(w) == Ok::<i64, WordsToNumberError>(80i64));
}

#[verifier::rlimit(100)]
proof fn merge_90()
    ensures
        merge_hundreds("نود"@) == "نود"@,
{
    reveal_strlit("شیش صد");
    reveal_strlit("شش صد");
    reveal_strlit("هفت صد");
    reveal_strlit("هشت صد");
    reveal_strlit("نه صد");
    reveal_strlit("چهار صد");
    reveal_strlit("ششصد");
    reveal_strlit("هفتصد");
    reveal_strlit("هشتصد");
    reveal_strlit("نهصد");
    reveal_strlit("چهارصد");
    reveal_strlit("نود");
    reveal_with_fuel(replace_all, 7);
    let w = "نود"@;
    assert("نود"@[0] == 'ن');
    assert("نود"@[1] == 'و');
    assert("نود"@[2] == 'د');
    assert("شیش صد"@[0] == 'ش');
    assert("شیش صد"@[1] == 'ی');
    assert("شیش صد"@[2] == 'ش');
    assert("شیش صد"@[3] == ' ');
    assert("شیش صد"@[4] == 'ص');
    assert("شیش صد"@[5] == 'د');
    assert("شش صد"@[0] == 'ش');
    assert("شش صد"@[1] == 'ش');
    assert("شش صد"@[2] == ' ');
    assert("شش صد"@[3] == 'ص');
    assert("شش صد"@[4] == 'د');
    assert("هفت صد"@[0] == 'ه');
    assert("هفت صد"@[1] == 'ف');
    assert("هفت صد"@[2] == 'ت');
    assert("هفت صد"@[3] == ' ');
    assert("هفت صد"@[4] == 'ص');
    assert("هفت صد"@[5] == 'د');
    assert("هشت صد"@[0] == 'ه');
    assert("هشت صد"@[1] == 'ش');
    assert("هشت صد"@[2] == 'ت');
    assert("هشت صد"@[3] == ' ');
    assert("هشت صد"@[4] == 'ص');
    assert("هشت صد"@[5] == 'د');
    assert("نه صد"@[0] == 'ن');
    assert("نه صد"@[1] == 'ه');
    assert("نه صد"@[2] == ' ');
    assert("نه صد"@[3] == 'ص');
    assert("نه صد"@[4] == 'د');
    assert("چهار صد"@[0] == 'چ');
    assert("چهار صد"@[1] == 'ه');
    assert("چهار صد"@[2] == 'ا');
    assert("چهار صد"@[3] == 'ر');
    assert("چهار صد"@[4] == ' ');
    assert("چهار صد"@[5] == 'ص');
    assert("چهار صد"@[6] == 'د');
    assert("ششصد"@[0] == 'ش');
    assert("ششصد"@[1] == 'ش');
    assert("ششصد"@[2] == 'ص');
    assert("ششصد"@[3] == 'د');
    assert("ششصد"@[0] == 'ش');
    assert("ششصد"@[1] == 'ش');
    assert("ششصد"@[2] == 'ص');
    assert("ششصد"@[3] == 'د');
    assert("هفتصد"@[0] == 'ه');
    assert("هفتصد"@[1] == 'ف');
    assert("هفتصد"@[2] == 'ت');
    assert("هفتصد"@[3] == 'ص');
    assert("هفتصد"@[4] == 'د');
    assert("هشتصد"@[0] == 'ه');
    assert("هشتصد"@[1] == 'ش');
    assert("هشتصد"@[2] == 'ت');
    assert("هشتصد"@[3] == 'ص');
    assert("هشتصد"@[4] == 'د');
    assert("نهصد"@[0] == 'ن');
    assert("نهصد"@[1] == 'ه');
    assert("نهصد"@[2] == 'ص');
    assert("نهصد"@[3] == 'د');
    assert("چهارصد"@[0] == 'چ');
    assert("چهارصد"@[1] == 'ه');
    assert("چهارصد"@[2] == 'ا');
    assert("چهارصد"@[3] == 'ر');
    assert("چهارصد"@[4] == 'ص');
    assert("چهارصد"@[5] == 'د');
    assert(merge_hundreds(w) =~= w);
}

#[verifier::rlimit(100)]
proof fn rt_90()
    ensures
        words_to_number_spec(number_words(90)) == Ok::<i64, WordsToNumberError>(90i64),
{
    reveal_strlit("صفر");
    reveal_strlit("یک");
    reveal_strlit("دو");
    reveal_strlit("سه");
    reveal_strlit("چهار");
    reveal_strlit("پنج");
    reveal_strlit("شش");
    reveal_strlit("شیش");
    reveal_strlit("هفت");
    reveal_strlit("هشت");
    reveal_strlit("نه");
    reveal_strlit("ده");
    reveal_strlit("یازده");
    reveal_strlit("دوازده");
    reveal_strlit("سیزده");
    reveal_strlit("چهارده");
    reveal_strlit("پانزده");
    reveal_strlit("شانزده");
    reveal_strlit("هفده");
    reveal_strlit("هجده");
    reveal_strlit("نوزده");
    reveal_strlit("بیست");
    reveal_strlit("سی");
    reveal_strlit("چهل");
    reveal_strlit("پنجاه");
    reveal_strlit("شصت");
    reveal_strlit("هفتاد");
    reveal_strlit("هشتاد");
    reveal_strlit("نود");
    reveal_strlit("شیش صد");
    reveal_strlit("شش صد");
    reveal_strlit("هفت صد");
    reveal_strlit("هشت صد");
    reveal_strlit("نه صد");
    reveal_strlit("چهار صد");
    reveal_strlit("و");
    reveal_strlit("ام");
    reveal_strlit("اُم");
    reveal_strlit("مین");
    reveal_strlit("سوم");
    reveal_strlit("م");
    reveal_strlit("منفی");
    reveal_strlit("د");
    reveal_strlit("ود");
    let w = "نود"@;
    assert(number_words(90) == w);
    reveal_with_fuel(crate::text::trim_start_idx, 6);
    reveal_with_fuel(crate::text::trim_end_idx, 6);
    assert(trim_spec(w) =~= w);
    merge_90();
    let t = "نود"@;
    assert("نود"@[0] == 'ن');
    assert("نود"@[1] == 'و');
    assert("نود"@[2] == 'د');
    reveal_with_fuel(split_ws, 4);
    reveal_with_fuel(token_len, 6);
    assert(t.take(3) =~= t);
    assert(t.skip(3) =~= Seq::<char>::empty());
    assert(token_len(t) == 3);
    assert(split_ws(t) =~= seq![t]);
    assert(t.subrange(2, 3) =~= "د"@);
    assert("د"@[0] == 'د');
    assert(t.subrange(1, 3) =~= "ود"@);
    assert("ود"@[0] == 'و');
    assert("ود"@[1] == 'د');
    assert(t.subrange(0, 3) =~= "نود"@);
    assert("نود"@[0] == 'ن');
    assert("نود"@[1] == 'و');
    assert("نود"@[2] == 'د');
    assert("مین"@[0] == 'م');
    assert("مین"@[1] == 'ی');
    assert("مین"@[2] == 'ن');
    assert("اُم"@[0] == 'ا');
    assert("اُم"@[1] == 'ُ');
    assert("اُم"@[2] == 'م');
    assert("ام"@[0] == 'ا');
    assert("ام"@[1] == 'م');
    assert("سوم"@[0] == 'س');
    assert("سوم"@[1] == 'و');
    assert("سوم"@[2] == 'م');
    assert("م"@[0] == 'م');
    assert(strip_ordinal(t) == t);
    reveal_with_fuel(clean_tokens, 3);
    assert(clean_tokens(seq![t]) =~= seq![t]);
    assert(unit_value(t) == Some(90i64));
    assert(t != negative_prefix());
    reveal_with_fuel(calc_scan, 3);
    assert(calc_scan(seq![t], 0, 0, false) == Ok::<i64, WordsToNumberError>(90i64));
    assert(words_to_number_spec(w) == Ok::<i64, WordsToNumberError>(90i64));
}

#[verifier::rlimit(100)]
proof fn merge_100()
    ensures
        merge_hundreds("صد"@) == "صد"@,
{
    reveal_strlit("شیش صد");
    reveal_strlit("شش صد");
    reveal_strlit("هفت صد");
    reveal_strlit("هشت صد");
    reveal_strlit("نه صد");
    reveal_strlit("چهار صد");
    reveal_strlit("ششصد");
    reveal_strlit("هفتصد");
    reveal_strlit("هشتصد");
    reveal_strlit("نهصد");
    reveal_strlit("چهارصد");
    reveal_strlit("صد");
    reveal_with_fuel(replace_all, 6);
    let w = "صد"@;
    assert("صد"@[0] == 'ص');
    assert("صد"@[1] == 'د');
    assert("شیش صد"@[0] == 'ش');
    assert("شیش صد"@[1] == 'ی');
    assert("شیش صد"@[2] == 'ش');
    assert("شیش صد"@[3] == ' ');
    assert("شیش صد"@[4] == 'ص');
    assert("شیش صد"@[5] == 'د');
    assert("شش صد"@[0] == 'ش');
    assert("شش صد"@[1] == 'ش');
    assert("شش صد"@[2] == ' ');
    assert("شش صد"@[3] == 'ص');
    assert("شش صد"@[4] == 'د');
    assert("هفت صد"@[0] == 'ه');
    assert("هفت صد"@[1] == 'ف');
    assert("هفت صد"@[2] == 'ت');
    assert("هفت صد"@[3] == ' ');
    assert("هفت صد"@[4] == 'ص');
    assert("هفت صد"@[5] == 'د');
    assert("هشت صد"@[0] == 'ه');
    assert("هشت صد"@[1] == 'ش');
    assert("هشت صد"@[2] == 'ت');
    assert("هشت صد"@[3] == ' ');
    assert("هشت صد"@[4] == 'ص');
    assert("هشت صد"@[5] == 'د');
    assert("نه صد"@[0] == 'ن');
    assert("نه صد"@[1] == 'ه');
    assert("نه صد"@[2] == ' ');
    assert("نه صد"@[3] == 'ص');
    assert("نه صد"@[4] == 'د');
    assert("چهار صد"@[0] == 'چ');
    assert("چهار صد"@[1] == 'ه');
    assert("چهار صد"@[2] == 'ا');
    assert("چهار صد"@[3] == 'ر');
    assert("چهار صد"@[4] == ' ');
    assert("چهار صد"@[5] == 'ص');
    assert("چهار صد"@[6] == 'د');
    assert("ششصد"@[0] == 'ش');
    assert("ششصد"@[1] == 'ش');
    assert("ششصد"@[2] == 'ص');
    assert("ششصد"@[3] == 'د');
    assert("ششصد"@[0] == 'ش');
    assert("ششصد"@[1] == 'ش');
    assert("ششصد"@[2] == 'ص');
    assert("ششصد"@[3] == 'د');
    assert("هفتصد"@[0] == 'ه');
    assert("هفتصد"@[1] == 'ف');
    assert("هفتصد"@[2] == 'ت');
    assert("هفتصد"@[3] == 'ص');
    assert("هفتصد"@[4] == 'د');
    assert("هشتصد"@[0] == 'ه');
    assert("هشتصد"@[1] == 'ش');
    assert("هشتصد"@[2] == 'ت');
    assert("هشتصد"@[3] == 'ص');
    assert("هشتصد"@[4] == 'د');
    assert("نهصد"@[0] == 'ن');
    assert("نهصد"@[1] == 'ه');
    assert("نهصد"@[2] == 'ص');
    assert("نهصد"@[3] == 'د');
    assert("چهارصد"@[0] == 'چ');
    assert("چهارصد"@[1] == 'ه');
    assert("چهارصد"@[2] == 'ا');
    assert("چهارصد"@[3] == 'ر');
    assert("چهارصد"@[4] == 'ص');
    assert("چهارصد"@[5] == 'د');
    assert(merge_hundreds(w) =~= w);
}

#[verifier::rlimit(100)]
proof fn rt_100()
    ensures
        words_to_number_spec(number_words(100)) == Ok::<i64, WordsToNumberError>(100i64),
{
    reveal_strlit("صفر");
    reveal_strlit("یک");
    reveal_strlit("دو");
    reveal_strlit("سه");
    reveal_strlit("چهار");
    reveal_strlit("پنج");
    reveal_strlit("شش");
    reveal_strlit("شیش");
    reveal_strlit("هفت");
    reveal_strlit("هشت");
    reveal_strlit("نه");
    reveal_strlit("ده");
    reveal_strlit("یازده");
    reveal_strlit("دوازده");
    reveal_strlit("سیزده");
    reveal_strlit("چهارده");
    reveal_strlit("پانزده");
    reveal_strlit("شانزده");
    reveal_strlit("هفده");
    reveal_strlit("هجده");
    reveal_strlit("نوزده");
    reveal_strlit("بیست");
    reveal_strlit("سی");
    reveal_strlit("چهل");
    reveal_strlit("پنجاه");
    reveal_strlit("شصت");
    reveal_strlit("هفتاد");
    reveal_strlit("هشتاد");
    reveal_strlit("نود");
    reveal_strlit("صد");
    reveal_strlit("شیش صد");
    reveal_strlit("شش صد");
    reveal_strlit("هفت صد");
    reveal_strlit("هشت صد");
    reveal_strlit("نه صد");
    reveal_strlit("چهار صد");
    reveal_strlit("و");
    reveal_strlit("ام");
    reveal_strlit("اُم");
    reveal_strlit("مین");
    reveal_strlit("سوم");
    reveal_strlit("م");
    reveal_strlit("منفی");
    reveal_strlit("د");
    let w = "صد"@;
    assert(number_words(100) == w);
    reveal_with_fuel(crate::text::trim_start_idx, 5);
    reveal_with_fuel(crate::text::trim_end_idx, 5);
    assert(trim_spec(w) =~= w);
    merge_100();
    let t = "صد"@;
    assert("صد"@[0] == 'ص');
    assert("صد"@[1] == 'د');
    reveal_with_fuel(split_ws, 4);
    reveal_with_fuel(token_len, 5);
    assert(t.take(2) =~= t);
    assert(t.skip(2) =~= Seq::<char>::empty());
    assert(token_len(t) == 2);
    assert(split_ws(t) =~= seq![t]);
    assert(t.subrange(1, 2) =~= "د"@);
    assert("د"@[0] == 'د');
    assert(t.subrange(0, 2) =~= "صد"@);
    assert("صد"@[0] == 'ص');
    assert("صد"@[1] == 'د');
    assert("مین"@[0] == 'م');
    assert("مین"@[1] == 'ی');
    assert("مین"@[2] == 'ن');
    assert("اُم"@[0] == 'ا');
    assert("اُم"@[1] == 'ُ');
    assert("اُم"@[2] == 'م');
    assert("ام"@[0] == 'ا');
    assert("ام"@[1] == 'م');
    assert("سوم"@[0] == 'س');
    assert("سوم"@[1] == 'و');
    assert("سوم"@[2] == 'م');
    assert("م"@[0] == 'م');
    assert(strip_ordinal(t) == t);
    reveal_with_fuel(clean_tokens, 3);
    assert(clean_tokens(seq![t]) =~= seq![t]);
    assert(unit_value(t) == Some(100i64));
    assert(t != negative_prefix());
    reveal_with_fuel(calc_scan, 3);
    assert(calc_scan(seq![t], 0, 0, false) == Ok::<i64, WordsToNumberError>(100i64));
    assert(words_to_number_spec(w) == Ok::<i64, WordsToNumberError>(100i64));
}

#[verifier::rlimit(100)]
proof fn merge_200()
    ensures
        merge_hundreds("دویست"@) == "دویست"@,
{
    reveal_strlit("شیش صد");
    reveal_strlit("شش صد");
    reveal_strlit("هفت صد");
    reveal_strlit("هشت صد");
    reveal_strlit("نه صد");
    reveal_strlit("چهار صد");
    reveal_strlit("ششصد");
    reveal_strlit("هفتصد");
    reveal_strlit("هشتصد");
    reveal_strlit("نهصد");
    reveal_strlit("چهارصد");
    reveal_strlit("دویست");
    reveal_with_fuel(replace_all, 9);
    let w = "دویست"@;
    assert("دویست"@[0] == 'د');
    assert("دویست"@[1] == 'و');
    assert("دویست"@[2] == 'ی');
    assert("دویست"@[3] == 'س');
    assert("دویست"@[4] == 'ت');
    assert("شیش صد"@[0] == 'ش');
    assert("شیش صد"@[1] == 'ی');
    assert("شیش صد"@[2] == 'ش');
    assert("شیش صد"@[3] == ' ');
    assert("شیش صد"@[4] == 'ص');
    assert("شیش صد"@[5] == 'د');
    assert("شش صد"@[0] == 'ش');
    assert("شش صد"@[1] == 'ش');
    assert("شش صد"@[2] == ' ');
    assert("شش صد"@[3] == 'ص');
    assert("شش صد"@[4] == 'د');
    assert("هفت صد"@[0] == 'ه');
    assert("هفت صد"@[1] == 'ف');
    assert("هفت صد"@[2] == 'ت');
    assert("هفت صد"@[3] == ' ');
    assert("هفت صد"@[4] == 'ص');
    assert("هفت صد"@[5] == 'د');
    assert("هشت صد"@[0] == 'ه');
    assert("هشت صد"@[1] == 'ش');
    assert("هشت صد"@[2] == 'ت');
    assert("هشت صد"@[3] == ' ');
    assert("هشت صد"@[4] == 'ص');
    assert("هشت صد"@[5] == 'د');
    assert("نه صد"@[0] == 'ن');
    assert("نه صد"@[1] == 'ه');
    assert("نه صد"@[2] == ' ');
    assert("نه صد"@[3] == 'ص');
    assert("نه صد"@[4] == 'د');
    assert("چهار صد"@[0] == 'چ');
    assert("چهار صد"@[1] == 'ه');
    assert("چهار صد"@[2] == 'ا');
    assert("چهار صد"@[3] == 'ر');
    assert("چهار صد"@[4] == ' ');
    assert("چهار صد"@[5] == 'ص');
    assert("چهار صد"@[6] == 'د');
    assert("ششصد"@[0] == 'ش');
    assert("ششصد"@[1] == 'ش');
    assert("ششصد"@[2] == 'ص');
    assert("ششصد"@[3] == 'د');
    assert("ششصد"@[0] == 'ش');
    assert("ششصد"@[1] == 'ش');
    assert("ششصد"@[2] == 'ص');
    assert("ششصد"@[3] == 'د');
    assert("هفتصد"@[0] == 'ه');
    assert("هفتصد"@[1] == 'ف');
    assert("هفتصد"@[2] == 'ت');
    assert("هفتصد"@[3] == 'ص');
    assert("هفتصد"@[4] == 'د');
    assert("هشتصد"@[0] == 'ه');
    assert("هشتصد"@[1] == 'ش');
    assert("هشتصد"@[2] == 'ت');
    assert("هشتصد"@[3] == 'ص');
    assert("هشتصد"@[4] == 'د');
    assert("نهصد"@[0] == 'ن');
    assert("نهصد"@[1] == 'ه');
    assert("نهصد"@[2] == 'ص');
    assert("نهصد"@[3] == 'د');
    assert("چهارصد"@[0] == 'چ');
    assert("چهارصد"@[1] == 'ه');
    assert("چهارصد"@[2] == 'ا');
    assert("چهارصد"@[3] == 'ر');
    assert("چهارصد"@[4] == 'ص');
    assert("چهارصد"@[5] == 'د');
    assert(merge_hundreds(w) =~= w);
}

#[verifier::rlimit(100)]
proof fn rt_200()
    ensures
        words_to_number_spec(number_words(200)) == Ok::<i64, WordsToNumberError>(200i64),
{
    reveal_strlit("صفر");
    reveal_strlit("یک");
    reveal_strlit("دو");
    reveal_strlit("سه");
    reveal_strlit("چهار");
    reveal_strlit("پنج");
    reveal_strlit("شش");
    reveal_strlit("شیش");
    reveal_strlit("هفت");
    reveal_strlit("هشت");
    reveal_strlit("نه");
    reveal_strlit("ده");
    reveal_strlit("یازده");
    reveal_strlit("دوازده");
    reveal_strlit("سیزده");
    reveal_strlit("چهارده");
    reveal_strlit("پانزده");
    reveal_strlit("شانزده");
    reveal_strlit("هفده");
    reveal_strlit("هجده");
    reveal_strlit("نوزده");
    reveal_strlit("بیست");
    reveal_strlit("سی");
    reveal_strlit("چهل");
    reveal_strlit("پنجاه");
    reveal_strlit("شصت");
    reveal_strlit("هفتاد");
    reveal_strlit("هشتاد");
    reveal_strlit("نود");
    reveal_strlit("صد");
    reveal_strlit("یکصد");
    reveal_strlit("دویست");
    reveal_strlit("شیش صد");
    reveal_strlit("شش صد");
    reveal_strlit("هفت صد");
    reveal_strlit("هشت صد");
    reveal_strlit("نه صد");
    reveal_strlit("چهار صد");
    reveal_strlit("و");
    reveal_strlit("ام");
    reveal_strlit("اُم");
    reveal_strlit("مین");
    reveal_strlit("سوم");
    reveal_strlit("م");
    reveal_strlit("منفی");
    reveal_strlit("ت");
    reveal_strlit("ست");
    reveal_strlit("یست");
    let w = "دویست"@;
    assert(number_words(200) == w);
    reveal_with_fuel(crate::text::trim_start_idx, 8);
    reveal_with_fuel(crate::text::trim_end_idx, 8);
    assert(trim_spec(w) =~= w);
    merge_200();
    let t = "دویست"@;
    assert("دویست"@[0] == 'د');
    assert("دویست"@[1] == 'و');
    assert("دویست"@[2] == 'ی');
    assert("دویست"@[3] == 'س');
    assert("دویست"@[4] == 'ت');
    reveal_with_fuel(split_ws, 4);
    reveal_with_fuel(token_len, 8);
    assert(t.take(5) =~= t);
    assert(t.skip(5) =~= Seq::<char>::empty());
    assert(token_len(t) == 5);
    assert(split_ws(t) =~= seq![t]);
    assert(t.subrange(4, 5) =~= "ت"@);
    assert("ت"@[0] == 'ت');
    assert(t.subrange(3, 5) =~= "ست"@);
    assert("ست"@[0] == 'س');
    assert("ست"@[1] == 'ت');
    assert(t.subrange(2, 5) =~= "یست"@);
    assert("یست"@[0] == 'ی');
    assert("یست"@[1] == 'س');
    assert("یست"@[2] == 'ت');
    assert("مین"@[0] == 'م');
    assert("مین"@[1] == 'ی');
    assert("مین"@[2] == 'ن');
    assert("اُم"@[0] == 'ا');
    assert("اُم"@[1] == 'ُ');
    assert("اُم"@[2] == 'م');
    assert("ام"@[0] == 'ا');
    assert("ام"@[1] == 'م');
    assert("سوم"@[0] == 'س');
    assert("سوم"@[1] == 'و');
    assert("سوم"@[2] == 'م');
    assert("م"@[0] == 'م');
    assert(strip_ordinal(t) == t);
    reveal_with_fuel(clean_tokens, 3);
    assert(clean_tokens(seq![t]) =~= seq![t]);
    assert(unit_value(t) == Some(200i64));
    assert(t != negative_prefix());
    reveal_with_fuel(calc_scan, 3);
    assert(calc_scan(seq![t], 0, 0, false) == Ok::<i64, WordsToNumberError>(200i64));
    assert(words_to_number_spec(w) == Ok::<i64, WordsToNumberError>(200i64));
}

#[verifier::rlimit(100)]
proof fn merge_300()
    ensures
        merge_hundreds("سیصد"@) == "سیصد"@,
{
    reveal_strlit("شیش صد");
    reveal_strlit("شش صد");
    reveal_strlit("هفت صد");
    reveal_strlit("هشت صد");
    reveal_strlit("نه صد");
    reveal_strlit("چهار صد");
    reveal_strlit("ششصد");
    reveal_strlit("هفتصد");
    reveal_strlit("هشتصد");
    reveal_strlit("نهصد");
    reveal_strlit("چهارصد");
    reveal_strlit("سیصد");
    reveal_with_fuel(replace_all, 8);
    let w = "سیصد"@;
    assert("سیصد"@[0] == 'س');
    assert("سیصد"@[1] == 'ی');
    assert("سیصد"@[2] == 'ص');
    assert("سیصد"@[3] == 'د');
    assert("شیش صد"@[0] == 'ش');
    assert("شیش صد"@[1] == 'ی');
    assert("شیش صد"@[2] == 'ش');
    assert("شیش صد"@[3] == ' ');
    assert("شیش صد"@[4] == 'ص');
    assert("شیش صد"@[5] == 'د');
    assert("شش صد"@[0] == 'ش');
    assert("شش صد"@[1] == 'ش');
    assert("شش صد"@[2] == ' ');
    assert("شش صد"@[3] == 'ص');
    assert("شش صد"@[4] == 'د');
    assert("هفت صد"@[0] == 'ه');
    assert("هفت صد"@[1] == 'ف');
    assert("هفت صد"@[2] == 'ت');
    assert("هفت صد"@[3] == ' ');
    assert("هفت صد"@[4] == 'ص');
    assert("هفت صد"@[5] == 'د');
    assert("هشت صد"@[0] == 'ه');
    assert("هشت صد"@[1] == 'ش');
    assert("هشت صد"@[2] == 'ت');
    assert("هشت صد"@[3] == ' ');
    assert("هشت صد"@[4] == 'ص');
    assert("هشت صد"@[5] == 'د');
    assert("نه صد"@[0] == 'ن');
    assert("نه صد"@[1] == 'ه');
    assert("نه صد"@[2] == ' ');
    assert("نه صد"@[3] == 'ص');
    assert("نه صد"@[4] == 'د');
    assert("چهار صد"@[0] == 'چ');
    assert("چهار صد"@[1] == 'ه');
    assert("چهار صد"@[2] == 'ا');
    assert("چهار صد"@[3] == 'ر');
    assert("چهار صد"@[4] == ' ');
    assert("چهار صد"@[5] == 'ص');
    assert("چهار صد"@[6] == 'د');
    assert("ششصد"@[0] == 'ش');
    assert("ششصد"@[1] == 'ش');
    assert("ششصد"@[2] == 'ص');
    assert("ششصد"@[3] == 'د');
    assert("ششصد"@[0] == 'ش');
    assert("ششصد"@[1] == 'ش');
    assert("ششصد"@[2] == 'ص');
    assert("ششصد"@[3] == 'د');
    assert("هفتصد"@[0] == 'ه');
    assert("هفتصد"@[1] == 'ف');
    assert("هفتصد"@[2] == 'ت');
    assert("هفتصد"@[3] == 'ص');
    assert("هفتصد"@[4] == 'د');
    assert("هشتصد"@[0] == 'ه');
    assert("هشتصد"@[1] == 'ش');
    assert("هشتصد"@[2] == 'ت');
    assert("هشتصد"@[3] == 'ص');
    assert("هشتصد"@[4] == 'د');
    assert("نهصد"@[0] == 'ن');
    assert("نهصد"@[1] == 'ه');
    assert("نهصد"@[2] == 'ص');
    assert("نهصد"@[3] == 'د');
    assert("چهارصد"@[0] == 'چ');
    assert("چهارصد"@[1] == 'ه');
    assert("چهارصد"@[2] == 'ا');
    assert("چهارصد"@[3] == 'ر');
    assert("چهارصد"@[4] == 'ص');
    assert("چهارصد"@[5] == 'د');
    assert(merge_hundreds(w) =~= w);
}

#[verifier::rlimit(100)]
proof fn rt_300()
    ensures
        words_to_number_spec(number_words(300)) == Ok::<i64, WordsToNumberError>(300i64),
{
    reveal_strlit("صفر");
    reveal_strlit("یک");
    reveal_strlit("دو");
    reveal_strlit("سه");
    reveal_strlit("چهار");
    reveal_strlit("پنج");
    reveal_strlit("شش");
    reveal_strlit("شیش");
    reveal_strlit("هفت");
    reveal_strlit("هشت");
    reveal_strlit("نه");
    reveal_strlit("ده");
    reveal_strlit("یازده");
    reveal_strlit("دوازده");
    reveal_strlit("سیزده");
    reveal_strlit("چهارده");
    reveal_strlit("پانزده");
    reveal_strlit("شانزده");
    reveal_strlit("هفده");
    reveal_strlit("هجده");
    reveal_strlit("نوزده");
    reveal_strlit("بیست");
    reveal_strlit("سی");
    reveal_strlit("چهل");
    reveal_strlit("پنجاه");
    reveal_strlit("شصت");
    reveal_strlit("هفتاد");
    reveal_strlit("هشتاد");
    reveal_strlit("نود");
    reveal_strlit("صد");
    reveal_strlit("یکصد");
    reveal_strlit("دویست");
    reveal_strlit("سیصد");
    reveal_strlit("شیش صد");
    reveal_strlit("شش صد");
    reveal_strlit("هفت صد");
    reveal_strlit("هشت صد");
    reveal_strlit("نه صد");
    reveal_strlit("چهار صد");
    reveal_strlit("و");
    reveal_strlit("ام");
    reveal_strlit("اُم");
    reveal_strlit("مین");
    reveal_strlit("سوم");
    reveal_strlit("م");
    reveal_strlit("منفی");
    reveal_strlit("د");
    reveal_strlit("یصد");
    let w = "سیصد"@;
    assert(number_words(300) == w);
    reveal_with_fuel(crate::text::trim_start_idx, 7);
    reveal_with_fuel(crate::text::trim_end_idx, 7);
    assert(trim_spec(w) =~= w);
    merge_300();
    let t = "سیصد"@;
    assert("سیصد"@[0] == 'س');
    assert("سیصد"@[1] == 'ی');
    assert("سیصد"@[2] == 'ص');
    assert("سیصد"@[3] == 'د');
    reveal_with_fuel(split_ws, 4);
    reveal_with_fuel(token_len, 7);
    assert(t.take(4) =~= t);
    assert(t.skip(4) =~= Seq::<char>::empty());
    assert(token_len(t) == 4);
    assert(split_ws(t) =~= seq![t]);
    assert(t.subrange(3, 4) =~= "د"@);
    assert("د"@[0] == 'د');
    assert(t.subrange(2, 4) =~= "صد"@);
    assert("صد"@[0] == 'ص');
    assert("صد"@[1] == 'د');
    assert(t.subrange(1, 4) =~= "یصد"@);
    assert("یصد"@[0] == 'ی');
    assert("یصد"@[1] == 'ص');
    assert("یصد"@[2] == 'د');
    assert("مین"@[0] == 'م');
    assert("مین"@[1] == 'ی');
    assert("مین"@[2] == 'ن');
    assert("اُم"@[0] == 'ا');
    assert("اُم"@[1] == 'ُ');
    assert("اُم"@[2] == 'م');
    assert("ام"@[0] == 'ا');
    assert("ام"@[1] == 'م');
    assert("سوم"@[0] == 'س');
    assert("سوم"@[1] == 'و');
    assert("سوم"@[2] == 'م');
    assert("م"@[0] == 'م');
    assert(strip_ordinal(t) == t);
    reveal_with_fuel(clean_tokens, 3);
    assert(clean_tokens(seq![t]) =~= seq![t]);
    assert(unit_value(t) == Some(300i64));
    assert(t != negative_prefix());
    reveal_with_fuel(calc_scan, 3);
    assert(calc_scan(seq![t], 0, 0, false) == Ok::<i64, WordsToNumberError>(300i64));
    assert(words_to_number_spec(w) == Ok::<i64, WordsToNumberError>(300i64));
}

#[verifier::rlimit(100)]
proof fn merge_400()
    ensures
        merge_hundreds("چهار صد"@) == "چهارصد"@,
{
    reveal_strlit("شیش صد");
    reveal_strlit("شش صد");
    reveal_strlit("هفت صد");
    reveal_strlit("هشت صد");
    reveal_strlit("نه صد");
    reveal_strlit("چهار صد");
    reveal_strlit("ششصد");
    reveal_strlit("هفتصد");
    reveal_strlit("هشتصد");
    reveal_strlit("نهصد");
    reveal_strlit("چهارصد");
    reveal_with_fuel(replace_all, 11);
    let w = "چهار صد"@;
    assert("چهار صد"@[0] == 'چ');
    assert("چهار صد"@[1] == 'ه');
    assert("چهار صد"@[2] == 'ا');
    assert("چهار صد"@[3] == 'ر');
    assert("چهار صد"@[4] == ' ');
    assert("چهار صد"@[5] == 'ص');
    assert("چهار صد"@[6] == 'د');
    assert("شیش صد"@[0] == 'ش');
    assert("شیش صد"@[1] == 'ی');
    assert("شیش صد"@[2] == 'ش');
    assert("شیش صد"@[3] == ' ');
    assert("شیش صد"@[4] == 'ص');
    assert("شیش صد"@[5] == 'د');
    assert("شش صد"@[0] == 'ش');
    assert("شش صد"@[1] == 'ش');
    assert("شش صد"@[2] == ' ');
    assert("شش صد"@[3] == 'ص');
    assert("شش صد"@[4] == 'د');
    assert("هفت صد"@[0] == 'ه');
    assert("هفت صد"@[1] == 'ف');
    assert("هفت صد"@[2] == 'ت');
    assert("هفت صد"@[3] == ' ');
    assert("هفت صد"@[4] == 'ص');
    assert("هفت صد"@[5] == 'د');
    assert("هشت صد"@[0] == 'ه');
    assert("هشت صد"@[1] == 'ش');
    assert("هشت صد"@[2] == 'ت');
    assert("هشت صد"@[3] == ' ');
    assert("هشت صد"@[4] == 'ص');
    assert("هشت صد"@[5] == 'د');
    assert("نه صد"@[0] == 'ن');
    assert("نه صد"@[1] == 'ه');
    assert("نه صد"@[2] == ' ');
    assert("نه صد"@[3] == 'ص');
    assert("نه صد"@[4] == 'د');
    assert("چهار صد"@[0] == 'چ');
    assert("چهار صد"@[1] == 'ه');
    assert("چهار صد"@[2] == 'ا');
    assert("چهار صد"@[3] == 'ر');
    assert("چهار صد"@[4] == ' ');
    assert("چهار صد"@[5] == 'ص');
    assert("چهار صد"@[6] == 'د');
    assert("ششصد"@[0] == 'ش');
    assert("ششصد"@[1] == 'ش');
    assert("ششصد"@[2] == 'ص');
    assert("ششصد"@[3] == 'د');
    assert("ششصد"@[0] == 'ش');
    assert("ششصد"@[1] == 'ش');
    assert("ششصد"@[2] == 'ص');
    assert("ششصد"@[3] == 'د');
    assert("هفتصد"@[0] == 'ه');
    assert("هفتصد"@[1] == 'ف');
    assert("هفتصد"@[2] == 'ت');
    assert("هفتصد"@[3] == 'ص');
    assert("هفتصد"@[4] == 'د');
    assert("هشتصد"@[0] == 'ه');
    assert("هشتصد"@[1] == 'ش');
    assert("هشتصد"@[2] == 'ت');
    assert("هشتصد"@[3] == 'ص');
    assert("هشتصد"@[4] == 'د');
    assert("نهصد"@[0] == 'ن');
    assert("نهصد"@[1] == 'ه');
    assert("نهصد"@[2] == 'ص');
    assert("نهصد"@[3] == 'د');
    assert("چهارصد"@[0] == 'چ');
    assert("چهارصد"@[1] == 'ه');
    assert("چهارصد"@[2] == 'ا');
    assert("چهارصد"@[3] == 'ر');
    assert("چهارصد"@[4] == 'ص');
    assert("چهارصد"@[5] == 'د');
    let m1 = replace_all(w, "شیش صد"@, "ششصد"@);
    assert(m1 =~= w);
    let m2 = replace_all(m1, "شش صد"@, "ششصد"@);
    assert(m2 =~= m1);
    let m3 = replace_all(m2, "هفت صد"@, "هفتصد"@);
    assert(m3 =~= m2);
    let m4 = replace_all(m3, "هشت صد"@, "هشتصد"@);
    assert(m4 =~= m3);
    let m5 = replace_all(m4, "نه صد"@, "نهصد"@);
    assert(m5 =~= m4);
    assert(m5.take(7) =~= "چهار صد"@);
    assert(m5.skip(7) =~= Seq::<char>::empty());
    let m6 = replace_all(m5, "چهار صد"@, "چهارصد"@);
    assert(m6 =~= "چهارصد"@ + replace_all(m5.skip(7), "چهار صد"@, "چهارصد"@));
    assert(m6 =~= "چهارصد"@);
    assert(merge_hundreds(w) == m6);
}

#[verifier::rlimit(100)]
proof fn rt_400()
    ensures
        words_to_number_spec(number_words(400)) == Ok::<i64, WordsToNumberError>(400i64),
{
    reveal_strlit("صفر");
    reveal_strlit("یک");
    reveal_strlit("دو");
    reveal_strlit("سه");
    reveal_strlit("چهار");
    reveal_strlit("پنج");
    reveal_strlit("شش");
    reveal_strlit("شیش");
    reveal_strlit("هفت");
    reveal_strlit("هشت");
    reveal_strlit("نه");
    reveal_strlit("ده");
    reveal_strlit("یازده");
    reveal_strlit("دوازده");
    reveal_strlit("سیزده");
    reveal_strlit("چهارده");
    reveal_strlit("پانزده");
    reveal_strlit("شانزده");
    reveal_strlit("هفده");
    reveal_strlit("هجده");
    reveal_strlit("نوزده");
    reveal_strlit("بیست");
    reveal_strlit("سی");
    reveal_strlit("چهل");
    reveal_strlit("پنجاه");
    reveal_strlit("شصت");
    reveal_strlit("هفتاد");
    reveal_strlit("هشتاد");
    reveal_strlit("نود");
    reveal_strlit("صد");
    reveal_strlit("یکصد");
    reveal_strlit("دویست");
    reveal_strlit("سیصد");
    reveal_strlit("چهارصد");
    reveal_strlit("شیش صد");
    reveal_strlit("شش صد");
    reveal_strlit("هفت صد");
    reveal_strlit("هشت صد");
    reveal_strlit("نه صد");
    reveal_strlit("چهار صد");
    reveal_strlit("و");
    reveal_strlit("ام");
    reveal_strlit("اُم");
    reveal_strlit("مین");
    reveal_strlit("سوم");
    reveal_strlit("م");
    reveal_strlit("منفی");
    reveal_strlit("د");
    reveal_strlit("رصد");
    let w = "چهار صد"@;
    assert(number_words(400) == w);
    reveal_with_fuel(crate::text::trim_start_idx, 10);
    reveal_with_fuel(crate::text::trim_end_idx, 10);
    assert(trim_spec(w) =~= w);
    merge_400();
    let t = "چهارصد"@;
    assert("چهارصد"@[0] == 'چ');
    assert("چهارصد"@[1] == 'ه');
    assert("چهارصد"@[2] == 'ا');
    assert("چهارصد"@[3] == 'ر');
    assert("چهارصد"@[4] == 'ص');
    assert("چهارصد"@[5] == 'د');
    reveal_with_fuel(split_ws, 4);
    reveal_with_fuel(token_len, 9);
    assert(t.take(6) =~= t);
    assert(t.skip(6) =~= Seq::<char>::empty());
    assert(token_len(t) == 6);
    assert(split_ws(t) =~= seq![t]);
    assert(t.subrange(5, 6) =~= "د"@);
    assert("د"@[0] == 'د');
    assert(t.subrange(4, 6) =~= "صد"@);
    assert("صد"@[0] == 'ص');
    assert("صد"@[1] == 'د');
    assert(t.subrange(3, 6) =~= "رصد"@);
    assert("رصد"@[0] == 'ر');
    assert("رصد"@[1] == 'ص');
    assert("رصد"@[2] == 'د');
    assert("مین"@[0] == 'م');
    assert("مین"@[1] == 'ی');
    assert("مین"@[2] == 'ن');
    assert("اُم"@[0] == 'ا');
    assert("اُم"@[1] == 'ُ');
    assert("اُم"@[2] == 'م');
    assert("ام"@[0] == 'ا');
    assert("ام"@[1] == 'م');
    assert("سوم"@[0] == 'س');
    assert("سوم"@[1] == 'و');
    assert("سوم"@[2] == 'م');
    assert("م"@[0] == 'م');
    assert(strip_ordinal(t) == t);
    reveal_with_fuel(clean_tokens, 3);
    assert(clean_tokens(seq![t]) =~= seq![t]);
    assert(unit_value(t) == Some(400i64));
    assert(t != negative_prefix());
    reveal_with_fuel(calc_scan, 3);
    assert(calc_scan(seq![t], 0, 0, false) == Ok::<i64, WordsToNumberError>(400i64));
    assert(words_to_number_spec(w) == Ok::<i64, WordsToNumberError>(400i64));
}

#[verifier::rlimit(100)]
proof fn merge_500()
    ensures
        merge_hundreds("پانصد"@) == "پانصد"@,
{
    reveal_strlit("شیش صد");
    reveal_strlit("شش صد");
    reveal_strlit("هفت صد");
    reveal_strlit("هشت صد");
    reveal_strlit("نه صد");
    reveal_strlit("چهار صد");
    reveal_strlit("ششصد");
    reveal_strlit("هفتصد");
    reveal_strlit("هشتصد");
    reveal_strlit("نهصد");
    reveal_strlit("چهارصد");
    reveal_strlit("پانصد");
    reveal_with_fuel(replace_all, 9);
    let w = "پانصد"@;
    assert("پانصد"@[0] == 'پ');
    assert("پانصد"@[1] == 'ا');
    assert("پانصد"@[2] == 'ن');
    assert("پانصد"@[3] == 'ص');
    assert("پانصد"@[4] == 'د');
    assert("شیش صد"@[0] == 'ش');
    assert("شیش صد"@[1] == 'ی');
    assert("شیش صد"@[2] == 'ش');
    assert("شیش صد"@[3] == ' ');
    assert("شیش صد"@[4] == 'ص');
    assert("شیش صد"@[5] == 'د');
    assert("شش صد"@[0] == 'ش');
    assert("شش صد"@[1] == 'ش');
    assert("شش صد"@[2] == ' ');
    assert("شش صد"@[3] == 'ص');
    assert("شش صد"@[4] == 'د');
    assert("هفت صد"@[0] == 'ه');
    assert("هفت صد"@[1] == 'ف');
    assert("هفت صد"@[2] == 'ت');
    assert("هفت صد"@[3] == ' ');
    assert("هفت صد"@[4] == 'ص');
    assert("هفت صد"@[5] == 'د');
    assert("هشت صد"@[0] == 'ه');
    assert("هشت صد"@[1] == 'ش');
    assert("هشت صد"@[2] == 'ت');
    assert("هشت صد"@[3] == ' ');
    assert("هشت صد"@[4] == 'ص');
    assert("هشت صد"@[5] == 'د');
    assert("نه صد"@[0] == 'ن');
    assert("نه صد"@[1] == 'ه');
    assert("نه صد"@[2] == ' ');
    assert("نه صد"@[3] == 'ص');
    assert("نه صد"@[4] == 'د');
    assert("چهار صد"@[0] == 'چ');
    assert("چهار صد"@[1] == 'ه');
    assert("چهار صد"@[2] == 'ا');
    assert("چهار صد"@[3] == 'ر');
    assert("چهار صد"@[4] == ' ');
    assert("چهار صد"@[5] == 'ص');
    assert("چهار صد"@[6] == 'د');
    assert("ششصد"@[0] == 'ش');
    assert("ششصد"@[1] == 'ش');
    assert("ششصد"@[2] == 'ص');
    assert("ششصد"@[3] == 'د');
    assert("ششصد"@[0] == 'ش');
    assert("ششصد"@[1] == 'ش');
    assert("ششصد"@[2] == 'ص');
    assert("ششصد"@[3] == 'د');
    assert("هفتصد"@[0] == 'ه');
    assert("هفتصد"@[1] == 'ف');
    assert("هفتصد"@[2] == 'ت');
    assert("هفتصد"@[3] == 'ص');
    assert("هفتصد"@[4] == 'د');
    assert("هشتصد"@[0] == 'ه');
    assert("هشتصد"@[1] == 'ش');
    assert("هشتصد"@[2] == 'ت');
    assert("هشتصد"@[3] == 'ص');
    assert("هشتصد"@[4] == 'د');
    assert("نهصد"@[0] == 'ن');
    assert("نهصد"@[1] == 'ه');
    assert("نهصد"@[2] == 'ص');
    assert("نهصد"@[3] == 'د');
    assert("چهارصد"@[0] == 'چ');
    assert("چهارصد"@[1] == 'ه');
    assert("چهارصد"@[2] == 'ا');
    assert("چهارصد"@[3] == 'ر');
    assert("چهارصد"@[4] == 'ص');
    assert("چهارصد"@[5] == 'د');
    assert(merge_hundreds(w) =~= w);
}

#[verifier::rlimit(100)]
proof fn rt_500()
    ensures
        words_to_number_spec(number_words(500)) == Ok::<i64, WordsToNumberError>(500i64),
{
    reveal_strlit("صفر");
    reveal_strlit("یک");
    reveal_strlit("دو");
    reveal_strlit("سه");
    reveal_strlit("چهار");
    reveal_strlit("پنج");
    reveal_strlit("شش");
    reveal_strlit("شیش");
    reveal_strlit("هفت");
    reveal_strlit("هشت");
    reveal_strlit("نه");
    reveal_strlit("ده");
    reveal_strlit("یازده");
    reveal_strlit("دوازده");
    reveal_strlit("سیزده");
    reveal_strlit("چهارده");
    reveal_strlit("پانزده");
    reveal_strlit("شانزده");
    reveal_strlit("هفده");
    reveal_strlit("هجده");
    reveal_strlit("نوزده");
    reveal_strlit("بیست");
    reveal_strlit("سی");
    reveal_strlit("چهل");
    reveal_strlit("پنجاه");
    reveal_strlit("شصت");
    reveal_strlit("هفتاد");
    reveal_strlit("هشتاد");
    reveal_strlit("نود");
    reveal_strlit("صد");
    reveal_strlit("یکصد");
    reveal_strlit("دویست");
    reveal_strlit("سیصد");
    reveal_strlit("چهارصد");
    reveal_strlit("پانصد");
    reveal_strlit("شیش صد");
    reveal_strlit("شش صد");
    reveal_strlit("هفت صد");
    reveal_strlit("هشت صد");
    reveal_strlit("نه صد");
    reveal_strlit("چهار صد");
    reveal_strlit("و");
    reveal_strlit("ام");
    reveal_strlit("اُم");
    reveal_strlit("مین");
    reveal_strlit("سوم");
    reveal_strlit("م");
    reveal_strlit("منفی");
    reveal_strlit("د");
    reveal_strlit("نصد");
    let w = "پانصد"@;
    assert(number_words(500) == w);
    reveal_with_fuel(crate::text::trim_start_idx, 8);
    reveal_with_fuel(crate::text::trim_end_idx, 8);
    assert(trim_spec(w) =~= w);
    merge_500();
    let t = "پانصد"@;
    assert("پانصد"@[0] == 'پ');
    assert("پانصد"@[1] == 'ا');
    assert("پانصد"@[2] == 'ن');
    assert("پانصد"@[3] == 'ص');
    assert("پانصد"@[4] == 'د');
    reveal_with_fuel(split_ws, 4);
    reveal_with_fuel(token_len, 8);
    assert(t.take(5) =~= t);
    assert(t.skip(5) =~= Seq::<char>::empty());
    assert(token_len(t) == 5);
    assert(split_ws(t) =~= seq![t]);
    assert(t.subrange(4, 5) =~= "د"@);
    assert("د"@[0] == 'د');
    assert(t.subrange(3, 5) =~= "صد"@);
    assert("صد"@[0] == 'ص');
    assert("صد"@[1] == 'د');
    assert(t.subrange(2, 5) =~= "نصد"@);
    assert("نصد"@[0] == 'ن');
    assert("نصد"@[1] == 'ص');
    assert("نصد"@[2] == 'د');
    assert("مین"@[0] == 'م');
    assert("مین"@[1] == 'ی');
    assert("مین"@[2] == 'ن');
    assert("اُم"@[0] == 'ا');
    assert("اُم"@[1] == 'ُ');
    assert("اُم"@[2] == 'م');
    assert("ام"@[0] == 'ا');
    assert("ام"@[1] == 'م');
    assert("سوم"@[0] == 'س');
    assert("سوم"@[1] == 'و');
    assert("سوم"@[2] == 'م');
    assert("م"@[0] == 'م');
    assert(strip_ordinal(t) == t);
    reveal_with_fuel(clean_tokens, 3);
    assert(clean_tokens(seq![t]) =~= seq![t]);
    assert(unit_value(t) == Some(500i64));
    assert(t != negative_prefix());
    reveal_with_fuel(calc_scan, 3);
    assert(calc_scan(seq![t], 0, 0, false) == Ok::<i64, WordsToNumberError>(500i64));
    assert(words_to_number_spec(w) == Ok::<i64, WordsToNumberError>(500i64));
}

#[verifier::rlimit(100)]
proof fn merge_600()
    ensures
        merge_hundreds("شش صد"@) == "ششصد"@,
{
    reveal_strlit("شیش صد");
    reveal_strlit("شش صد");
    reveal_strlit("هفت صد");
    reveal_strlit("هشت صد");
    reveal_strlit("نه صد");
    reveal_strlit("چهار صد");
    reveal_strlit("ششصد");
    reveal_strlit("هفتصد");
    reveal_strlit("هشتصد");
    reveal_strlit("نهصد");
    reveal_strlit("چهارصد");
    reveal_with_fuel(replace_all, 9);
    let w = "شش صد"@;
    assert("شش صد"@[0] == 'ش');
    assert("شش صد"@[1] == 'ش');
    assert("شش صد"@[2] == ' ');
    assert("شش صد"@[3] == 'ص');
    assert("شش صد"@[4] == 'د');
    assert("شیش صد"@[0] == 'ش');
    assert("شیش صد"@[1] == 'ی');
    assert("شیش صد"@[2] == 'ش');
    assert("شیش صد"@[3] == ' ');
    assert("شیش صد"@[4] == 'ص');
    assert("شیش صد"@[5] == 'د');
    assert("شش صد"@[0] == 'ش');
    assert("شش صد"@[1] == 'ش');
    assert("شش صد"@[2] == ' ');
    assert("شش صد"@[3] == 'ص');
    assert("شش صد"@[4] == 'د');
    assert("هفت صد"@[0] == 'ه');
    assert("هفت صد"@[1] == 'ف');
    assert("هفت صد"@[2] == 'ت');
    assert("هفت صد"@[3] == ' ');
    assert("هفت صد"@[4] == 'ص');
    assert("هفت صد"@[5] == 'د');
    assert("هشت صد"@[0] == 'ه');
    assert("هشت صد"@[1] == 'ش');
    assert("هشت صد"@[2] == 'ت');
    assert("هشت صد"@[3] == ' ');
    assert("هشت صد"@[4] == 'ص');
    assert("هشت صد"@[5] == 'د');
    assert("نه صد"@[0] == 'ن');
    assert("نه صد"@[1] == 'ه');
    assert("نه صد"@[2] == ' ');
    assert("نه صد"@[3] == 'ص');
    assert("نه صد"@[4] == 'د');
    assert("چهار صد"@[0] == 'چ');
    assert("چهار صد"@[1] == 'ه');
    assert("چهار صد"@[2] == 'ا');
    assert("چهار صد"@[3] == 'ر');
    assert("چهار صد"@[4] == ' ');
    assert("چهار صد"@[5] == 'ص');
    assert("چهار صد"@[6] == 'د');
    assert("ششصد"@[0] == 'ش');
    assert("ششصد"@[1] == 'ش');
    assert("ششصد"@[2] == 'ص');
    assert("ششصد"@[3] == 'د');
    assert("ششصد"@[0] == 'ش');
    assert("ششصد"@[1] == 'ش');
    assert("ششصد"@[2] == 'ص');
    assert("ششصد"@[3] == 'د');
    assert("هفتصد"@[0] == 'ه');
    assert("هفتصد"@[1] == 'ف');
    assert("هفتصد"@[2] == 'ت');
    assert("هفتصد"@[3] == 'ص');
    assert("هفتصد"@[4] == 'د');
    assert("هشتصد"@[0] == 'ه');
    assert("هشتصد"@[1] == 'ش');
    assert("هشتصد"@[2] == 'ت');
    assert("هشتصد"@[3] == 'ص');
    assert("هشتصد"@[4] == 'د');
    assert("نهصد"@[0] == 'ن');
    assert("نهصد"@[1] == 'ه');
    assert("نهصد"@[2] == 'ص');
    assert("نهصد"@[3] == 'د');
    assert("چهارصد"@[0] == 'چ');
    assert("چهارصد"@[1] == 'ه');
    assert("چهارصد"@[2] == 'ا');
    assert("چهارصد"@[3] == 'ر');
    assert("چهارصد"@[4] == 'ص');
    assert("چهارصد"@[5] == 'د');
    let m1 = replace_all(w, "شیش صد"@, "ششصد"@);
    assert(m1 =~= w);
    assert(m1.take(5) =~= "شش صد"@);
    assert(m1.skip(5) =~= Seq::<char>::empty());
    let m2 = replace_all(m1, "شش صد"@, "ششصد"@);
    assert(m2 =~= "ششصد"@ + replace_all(m1.skip(5), "شش صد"@, "ششصد"@));
    assert(m2 =~= "ششصد"@);
    let m3 = replace_all(m2, "هفت صد"@, "هفتصد"@);
    assert(m3 =~= m2);
    let m4 = replace_all(m3, "هشت صد"@, "هشتصد"@);
    assert(m4 =~= m3);
    let m5 = replace_all(m4, "نه صد"@, "نهصد"@);
    assert(m5 =~= m4);
    let m6 = replace_all(m5, "چهار صد"@, "چهارصد"@);
    assert(m6 =~= m5);
    assert(merge_hundreds(w) == m6);
}

#[verifier::rlimit(100)]
proof fn rt_600()
    ensures
        words_to_number_spec(number_words(600)) == Ok::<i64, WordsToNumberError>(600i64),
{
    reveal_strlit("صفر");
    reveal_strlit("یک");
    reveal_strlit("دو");
    reveal_strlit("سه");
    reveal_strlit("چهار");
    reveal_strlit("پنج");
    reveal_strlit("شش");
    reveal_strlit("شیش");
    reveal_strlit("هفت");
    reveal_strlit("هشت");
    reveal_strlit("نه");
    reveal_strlit("ده");
    reveal_strlit("یازده");
    reveal_strlit("دوازده");
    reveal_strlit("سیزده");
    reveal_strlit("چهارده");
    reveal_strlit("پانزده");
    reveal_strlit("شانزده");
    reveal_strlit("هفده");
    reveal_strlit("هجده");
    reveal_strlit("نوزده");
    reveal_strlit("بیست");
    reveal_strlit("سی");
    reveal_strlit("چهل");
    reveal_strlit("پنجاه");
    reveal_strlit("شصت");
    reveal_strlit("هفتاد");
    reveal_strlit("هشتاد");
    reveal_strlit("نود");
    reveal_strlit("صد");
    reveal_strlit("یکصد");
    reveal_strlit("دویست");
    reveal_strlit("سیصد");
    reveal_strlit("چهارصد");
    reveal_strlit("پانصد");
    reveal_strlit("ششصد");
    reveal_strlit("شیش صد");
    reveal_strlit("شش صد");
    reveal_strlit("هفت صد");
    reveal_strlit("هشت صد");
    reveal_strlit("نه صد");
    reveal_strlit("چهار صد");
    reveal_strlit("و");
    reveal_strlit("ام");
    reveal_strlit("اُم");
    reveal_strlit("مین");
    reveal_strlit("سوم");
    reveal_strlit("م");
    reveal_strlit("منفی");
    reveal_strlit("د");
    reveal_strlit("شصد");
    let w = "شش صد"@;
    assert(number_words(600) == w);
    reveal_with_fuel(crate::text::trim_start_idx, 8);
    reveal_with_fuel(crate::text::trim_end_idx, 8);
    assert(trim_spec(w) =~= w);
    merge_600();
    let t = "ششصد"@;
    assert("ششصد"@[0] == 'ش');
    assert("ششصد"@[1] == 'ش');
    assert("ششصد"@[2] == 'ص');
    assert("ششصد"@[3] == 'د');
    reveal_with_fuel(split_ws, 4);
    reveal_with_fuel(token_len, 7);
    assert(t.take(4) =~= t);
    assert(t.skip(4) =~= Seq::<char>::empty());
    assert(token_len(t) == 4);
    assert(split_ws(t) =~= seq![t]);
    assert(t.subrange(3, 4) =~= "د"@);
    assert("د"@[0] == 'د');
    assert(t.subrange(2, 4) =~= "صد"@);
    assert("صد"@[0] == 'ص');
    assert("صد"@[1] == 'د');
    assert(t.subrange(1, 4) =~= "شصد"@);
    assert("شصد"@[0] == 'ش');
    assert("شصد"@[1] == 'ص');
    assert("شصد"@[2] == 'د');
    assert("مین"@[0] == 'م');
    assert("مین"@[1] == 'ی');
    assert("مین"@[2] == 'ن');
    assert("اُم"@[0] == 'ا');
    assert("اُم"@[1] == 'ُ');
    assert("اُم"@[2] == 'م');
    assert("ام"@[0] == 'ا');
    assert("ام"@[1] == 'م');
    assert("سوم"@[0] == 'س');
    assert("سوم"@[1] == 'و');
    assert("سوم"@[2] == 'م');
    assert("م"@[0] == 'م');
    assert(strip_ordinal(t) == t);
    reveal_with_fuel(clean_tokens, 3);
    assert(clean_tokens(seq![t]) =~= seq![t]);
    assert(unit_value(t) == Some(600i64));
    assert(t != negative_prefix());
    reveal_with_fuel(calc_scan, 3);
    assert(calc_scan(seq![t], 0, 0, false) == Ok::<i64, WordsToNumberError>(600i64));
    assert(words_to_number_spec(w) == Ok::<i64, WordsToNumberError>(600i64));
}

#[verifier::rlimit(100)]
proof fn merge_700()
    ensures
        merge_hundreds("هفت صد"@) == "هفتصد"@,
{
    reveal_strlit("شیش صد");
    reveal_strlit("شش صد");
    reveal_strlit("هفت صد");
    reveal_strlit("هشت صد");
    reveal_strlit("نه صد");
    reveal_strlit("چهار صد");
    reveal_strlit("ششصد");
    reveal_strlit("هفتصد");
    reveal_strlit("هشتصد");
    reveal_strlit("نهصد");
    reveal_strlit("چهارصد");
    reveal_with_fuel(replace_all, 10);
    let w = "هفت صد"@;
    assert("هفت صد"@[0] == 'ه');
    assert("هفت صد"@[1] == 'ف');
    assert("هفت صد"@[2] == 'ت');
    assert("هفت صد"@[3] == ' ');
    assert("هفت صد"@[4] == 'ص');
    assert("هفت صد"@[5] == 'د');
    assert("شیش صد"@[0] == 'ش');
    assert("شیش صد"@[1] == 'ی');
    assert("شیش صد"@[2] == 'ش');
    assert("شیش صد"@[3] == ' ');
    assert("شیش صد"@[4] == 'ص');
    assert("شیش صد"@[5] == 'د');
    assert("شش صد"@[0] == 'ش');
    assert("شش صد"@[1] == 'ش');
    assert("شش صد"@[2] == ' ');
    assert("شش صد"@[3] == 'ص');
    assert("شش صد"@[4] == 'د');
    assert("هفت صد"@[0] == 'ه');
    assert("هفت صد"@[1] == 'ف');
    assert("هفت صد"@[2] == 'ت');
    assert("هفت صد"@[3] == ' ');
    assert("هفت صد"@[4] == 'ص');
    assert("هفت صد"@[5] == 'د');
    assert("هشت صد"@[0] == 'ه');
    assert("هشت صد"@[1] == 'ش');
    assert("هشت صد"@[2] == 'ت');
    assert("هشت صد"@[3] == ' ');
    assert("هشت صد"@[4] == 'ص');
    assert("هشت صد"@[5] == 'د');
    assert("نه صد"@[0] == 'ن');
    assert("نه صد"@[1] == 'ه');
    assert("نه صد"@[2] == ' ');
    assert("نه صد"@[3] == 'ص');
    assert("نه صد"@[4] == 'د');
    assert("چهار صد"@[0] == 'چ');
    assert("چهار صد"@[1] == 'ه');
    assert("چهار صد"@[2] == 'ا');
    assert("چهار صد"@[3] == 'ر');
    assert("چهار صد"@[4] == ' ');
    assert("چهار صد"@[5] == 'ص');
    assert("چهار صد"@[6] == 'د');
    assert("ششصد"@[0] == 'ش');
    assert("ششصد"@[1] == 'ش');
    assert("ششصد"@[2] == 'ص');
    assert("ششصد"@[3] == 'د');
    assert("ششصد"@[0] == 'ش');
    assert("ششصد"@[1] == 'ش');
    assert("ششصد"@[2] == 'ص');
    assert("ششصد"@[3] == 'د');
    assert("هفتصد"@[0] == 'ه');
    assert("هفتصد"@[1] == 'ف');
    assert("هفتصد"@[2] == 'ت');
    assert("هفتصد"@[3] == 'ص');
    assert("هفتصد"@[4] == 'د');
    assert("هشتصد"@[0] == 'ه');
    assert("هشتصد"@[1] == 'ش');
    assert("هشتصد"@[2] == 'ت');
    assert("هشتصد"@[3] == 'ص');
    assert("هشتصد"@[4] == 'د');
    assert("نهصد"@[0] == 'ن');
    assert("نهصد"@[1] == 'ه');
    assert("نهصد"@[2] == 'ص');
    assert("نهصد"@[3] == 'د');
    assert("چهارصد"@[0] == 'چ');
    assert("چهارصد"@[1] == 'ه');
    assert("چهارصد"@[2] == 'ا');
    assert("چهارصد"@[3] == 'ر');
    assert("چهارصد"@[4] == 'ص');
    assert("چهارصد"@[5] == 'د');
    let m1 = replace_all(w, "شیش صد"@, "ششصد"@);
    assert(m1 =~= w);
    let m2 = replace_all(m1, "شش صد"@, "ششصد"@);
    assert(m2 =~= m1);
    assert(m2.take(6) =~= "هفت صد"@);
    assert(m2.skip(6) =~= Seq::<char>::empty());
    let m3 = replace_all(m2, "هفت صد"@, "هفتصد"@);
    assert(m3 =~= "هفتصد"@ + replace_all(m2.skip(6), "هفت صد"@, "هفتصد"@));
    assert(m3 =~= "هفتصد"@);
    let m4 = replace_all(m3, "هشت صد"@, "هشتصد"@);
    assert(m4 =~= m3);
    let m5 = replace_all(m4, "نه صد"@, "نهصد"@);
    assert(m5 =~= m4);
    let m6 = replace_all(m5, "چهار صد"@, "چهارصد"@);
    assert(m6 =~= m5);
    assert(merge_hundreds(w) == m6);
}

#[verifier::rlimit(100)]
proof fn rt_700()
    ensures
        words_to_number_spec(number_words(700)) == Ok::<i64, WordsToNumberError>(700i64),
{
    reveal_strlit("صفر");
    reveal_strlit("یک");
    reveal_strlit("دو");
    reveal_strlit("سه");
    reveal_strlit("چهار");
    reveal_strlit("پنج");
    reveal_strlit("شش");
    reveal_strlit("شیش");
    reveal_strlit("هفت");
    reveal_strlit("هشت");
    reveal_strlit("نه");
    reveal_strlit("ده");
    reveal_strlit("یازده");
    reveal_strlit("دوازده");
    reveal_strlit("سیزده");
    reveal_strlit("چهارده");
    reveal_strlit("پانزده");
    reveal_strlit("شانزده");
    reveal_strlit("هفده");
    reveal_strlit("هجده");
    reveal_strlit("نوزده");
    reveal_strlit("بیست");
    reveal_strlit("سی");
    reveal_strlit("چهل");
    reveal_strlit("پنجاه");
    reveal_strlit("شصت");
    reveal_strlit("هفتاد");
    reveal_strlit("هشتاد");
    reveal_strlit("نود");
    reveal_strlit("صد");
    reveal_strlit("یکصد");
    reveal_strlit("دویست");
    reveal_strlit("سیصد");
    reveal_strlit("چهارصد");
    reveal_strlit("پانصد");
    reveal_strlit("ششصد");
    reveal_strlit("هفتصد");
    reveal_strlit("شیش صد");
    reveal_strlit("شش صد");
    reveal_strlit("هفت صد");
    reveal_strlit("هشت صد");
    reveal_strlit("نه صد");
    reveal_strlit("چهار صد");
    reveal_strlit("و");
    reveal_strlit("ام");
    reveal_strlit("اُم");
    reveal_strlit("مین");
    reveal_strlit("سوم");
    reveal_strlit("م");
    reveal_strlit("منفی");
    reveal_strlit("د");
    reveal_strlit("تصد");
    let w = "هفت صد"@;
    assert(number_words(700) == w);
    reveal_with_fuel(crate::text::trim_start_idx, 9);
    reveal_with_fuel(crate::text::trim_end_idx, 9);
    assert(trim_spec(w) =~= w);
    merge_700();
    let t = "هفتصد"@;
    assert("هفتصد"@[0] == 'ه');
    assert("هفتصد"@[1] == 'ف');
    assert("هفتصد"@[2] == 'ت');
    assert("هفتصد"@[3] == 'ص');
    assert("هفتصد"@[4] == 'د');
    reveal_with_fuel(split_ws, 4);
    reveal_with_fuel(token_len, 8);
    assert(t.take(5) =~= t);
    assert(t.skip(5) =~= Seq::<char>::empty());
    assert(token_len(t) == 5);
    assert(split_ws(t) =~= seq![t]);
    assert(t.subrange(4, 5) =~= "د"@);
    assert("د"@[0] == 'د');
    assert(t.subrange(3, 5) =~= "صد"@);
    assert("صد"@[0] == 'ص');
    assert("صد"@[1] == 'د');
    assert(t.subrange(2, 5) =~= "تصد"@);
    assert("تصد"@[0] == 'ت');
    assert("تصد"@[1] == 'ص');
    assert("تصد"@[2] == 'د');
    assert("مین"@[0] == 'م');
    assert("مین"@[1] == 'ی');
    assert("مین"@[2] == 'ن');
    assert("اُم"@[0] == 'ا');
    assert("اُم"@[1] == 'ُ');
    assert("اُم"@[2] == 'م');
    assert("ام"@[0] == 'ا');
    assert("ام"@[1] == 'م');
    assert("سوم"@[0] == 'س');
    assert("سوم"@[1] == 'و');
    assert("سوم"@[2] == 'م');
    assert("م"@[0] == 'م');
    assert(strip_ordinal(t) == t);
    reveal_with_fuel(clean_tokens, 3);
    assert(clean_tokens(seq![t]) =~= seq![t]);
    assert(unit_value(t) == Some(700i64));
    assert(t != negative_prefix());
    reveal_with_fuel(calc_scan, 3);
    assert(calc_scan(seq![t], 0, 0, false) == Ok::<i64, WordsToNumberError>(700i64));
    assert(words_to_number_spec(w) == Ok::<i64, WordsToNumberError>(700i64));
}

#[verifier::rlimit(100)]
proof fn merge_800()
    ensures
        merge_hundreds("هشت صد"@) == "هشتصد"@,
{
    reveal_strlit("شیش صد");
    reveal_strlit("شش صد");
    reveal_strlit("هفت صد");
    reveal_strlit("هشت صد");
    reveal_strlit("نه صد");
    reveal_strlit("چهار صد");
    reveal_strlit("ششصد");
    reveal_strlit("هفتصد");
    reveal_strlit("هشتصد");
    reveal_strlit("نهصد");
    reveal_strlit("چهارصد");
    reveal_with_fuel(replace_all, 10);
    let w = "هشت صد"@;
    assert("هشت صد"@[0] == 'ه');
    assert("هشت صد"@[1] == 'ش');
    assert("هشت صد"@[2] == 'ت');
    assert("هشت صد"@[3] == ' ');
    assert("هشت صد"@[4] == 'ص');
    assert("هشت صد"@[5] == 'د');
    assert("شیش صد"@[0] == 'ش');
    assert("شیش صد"@[1] == 'ی');
    assert("شیش صد"@[2] == 'ش');
    assert("شیش صد"@[3] == ' ');
    assert("شیش صد"@[4] == 'ص');
    assert("شیش صد"@[5] == 'د');
    assert("شش صد"@[0] == 'ش');
    assert("شش صد"@[1] == 'ش');
    assert("شش صد"@[2] == ' ');
    assert("شش صد"@[3] == 'ص');
    assert("شش صد"@[4] == 'د');
    assert("هفت صد"@[0] == 'ه');
    assert("هفت صد"@[1] == 'ف');
    assert("هفت صد"@[2] == 'ت');
    assert("هفت صد"@[3] == ' ');
    assert("هفت صد"@[4] == 'ص');
    assert("هفت صد"@[5] == 'د');
    assert("هشت صد"@[0] == 'ه');
    assert("هشت صد"@[1] == 'ش');
    assert("هشت صد"@[2] == 'ت');
    assert("هشت صد"@[3] == ' ');
    assert("هشت صد"@[4] == 'ص');
    assert("هشت صد"@[5] == 'د');
    assert("نه صد"@[0] == 'ن');
    assert("نه صد"@[1] == 'ه');
    assert("نه صد"@[2] == ' ');
    assert("نه صد"@[3] == 'ص');
    assert("نه صد"@[4] == 'د');
    assert("چهار صد"@[0] == 'چ');
    assert("چهار صد"@[1] == 'ه');
    assert("چهار صد"@[2] == 'ا');
    assert("چهار صد"@[3] == 'ر');
    assert("چهار صد"@[4] == ' ');
    assert("چهار صد"@[5] == 'ص');
    assert("چهار صد"@[6] == 'د');
    assert("ششصد"@[0] == 'ش');
    assert("ششصد"@[1] == 'ش');
    assert("ششصد"@[2] == 'ص');
    assert("ششصد"@[3] == 'د');
    assert("ششصد"@[0] == 'ش');
    assert("ششصد"@[1] == 'ش');
    assert("ششصد"@[2] == 'ص');
    assert("ششصد"@[3] == 'د');
    assert("هفتصد"@[0] == 'ه');
    assert("هفتصد"@[1] == 'ف');
    assert("هفتصد"@[2] == 'ت');
    assert("هفتصد"@[3] == 'ص');
    assert("هفتصد"@[4] == 'د');
    assert("هشتصد"@[0] == 'ه');
    assert("هشتصد"@[1] == 'ش');
    assert("هشتصد"@[2] == 'ت');
    assert("هشتصد"@[3] == 'ص');
    assert("هشتصد"@[4] == 'د');
    assert("نهصد"@[0] == 'ن');
    assert("نهصد"@[1] == 'ه');
    assert("نهصد"@[2] == 'ص');
    assert("نهصد"@[3] == 'د');
    assert("چهارصد"@[0] == 'چ');
    assert("چهارصد"@[1] == 'ه');
    assert("چهارصد"@[2] == 'ا');
    assert("چهارصد"@[3] == 'ر');
    assert("چهارصد"@[4] == 'ص');
    assert("چهارصد"@[5] == 'د');
    let m1 = replace_all(w, "شیش صد"@, "ششصد"@);
    assert(m1 =~= w);
    let m2 = replace_all(m1, "شش صد"@, "ششصد"@);
    assert(m2 =~= m1);
    let m3 = replace_all(m2, "هفت صد"@, "هفتصد"@);
    assert(m3 =~= m2);
    assert(m3.take(6) =~= "هشت صد"@);
    assert(m3.skip(6) =~= Seq::<char>::empty());
    let m4 = replace_all(m3, "هشت صد"@, "هشتصد"@);
    assert(m4 =~= "هشتصد"@ + replace_all(m3.skip(6), "هشت صد"@, "هشتصد"@));
    assert(m4 =~= "هشتصد"@);
    let m5 = replace_all(m4, "نه صد"@, "نهصد"@);
    assert(m5 =~= m4);
    let m6 = replace_all(m5, "چهار صد"@, "چهارصد"@);
    assert(m6 =~= m5);
    assert(merge_hundreds(w) == m6);
}

#[verifier::rlimit(100)]
proof fn rt_800()
    ensures
        words_to_number_spec(number_words(800)) == Ok::<i64, WordsToNumberError>(800i64),
{
    reveal_strlit("صفر");
    reveal_strlit("یک");
    reveal_strlit("دو");
    reveal_strlit("سه");
    reveal_strlit("چهار");
    reveal_strlit("پنج");
    reveal_strlit("شش");
    reveal_strlit("شیش");
    reveal_strlit("هفت");
    reveal_strlit("هشت");
    reveal_strlit("نه");
    reveal_strlit("ده");
    reveal_strlit("یازده");
    reveal_strlit("دوازده");
    reveal_strlit("سیزده");
    reveal_strlit("چهارده");
    reveal_strlit("پانزده");
    reveal_strlit("شانزده");
    reveal_strlit("هفده");
    reveal_strlit("هجده");
    reveal_strlit("نوزده");
    reveal_strlit("بیست");
    reveal_strlit("سی");
    reveal_strlit("چهل");
    reveal_strlit("پنجاه");
    reveal_strlit("شصت");
    reveal_strlit("هفتاد");
    reveal_strlit("هشتاد");
    reveal_strlit("نود");
    reveal_strlit("صد");
    reveal_strlit("یکصد");
    reveal_strlit("دویست");
    reveal_strlit("سیصد");
    reveal_strlit("چهارصد");
    reveal_strlit("پانصد");
    reveal_strlit("ششصد");
    reveal_strlit("هفتصد");
    reveal_strlit("هشتصد");
    reveal_strlit("شیش صد");
    reveal_strlit("شش صد");
    reveal_strlit("هفت صد");
    reveal_strlit("هشت صد");
    reveal_strlit("نه صد");
    reveal_strlit("چهار صد");
    reveal_strlit("و");
    reveal_strlit("ام");
    reveal_strlit("اُم");
    reveal_strlit("مین");
    reveal_strlit("سوم");
    reveal_strlit("م");
    reveal_strlit("منفی");
    reveal_strlit("د");
    reveal_strlit("تصد");
    let w = "هشت صد"@;
    assert(number_words(800) == w);
    reveal_with_fuel(crate::text::trim_start_idx, 9);
    reveal_with_fuel(crate::text::trim_end_idx, 9);
    assert(trim_spec(w) =~= w);
    merge_800();
    let t = "هشتصد"@;
    assert("هشتصد"@[0] == 'ه');
    assert("هشتصد"@[1] == 'ش');
    assert("هشتصد"@[2] == 'ت');
    assert("هشتصد"@[3] == 'ص');
    assert("هشتصد"@[4] == 'د');
    reveal_with_fuel(split_ws, 4);
    reveal_with_fuel(token_len, 8);
    assert(t.take(5) =~= t);
    assert(t.skip(5) =~= Seq::<char>::empty());
    assert(token_len(t) == 5);
    assert(split_ws(t) =~= seq![t]);
    assert(t.subrange(4, 5) =~= "د"@);
    assert("د"@[0] == 'د');
    assert(t.subrange(3, 5) =~= "صد"@);
    assert("صد"@[0] == 'ص');
    assert("صد"@[1] == 'د');
    assert(t.subrange(2, 5) =~= "تصد"@);
    assert("تصد"@[0] == 'ت');
    assert("تصد"@[1] == 'ص');
    assert("تصد"@[2] == 'د');
    assert("مین"@[0] == 'م');
    assert("مین"@[1] == 'ی');
    assert("مین"@[2] == 'ن');
    assert("اُم"@[0] == 'ا');
    assert("اُم"@[1] == 'ُ');
    assert("اُم"@[2] == 'م');
    assert("ام"@[0] == 'ا');
    assert("ام"@[1] == 'م');
    assert("سوم"@[0] == 'س');
    assert("سوم"@[1] == 'و');
    assert("سوم"@[2] == 'م');
    assert("م"@[0] == 'م');
    assert(strip_ordinal(t) == t);
    reveal_with_fuel(clean_tokens, 3);
    assert(clean_tokens(seq![t]) =~= seq![t]);
    assert(unit_value(t) == Some(800i64));
    assert(t != negative_prefix());
    reveal_with_fuel(calc_scan, 3);
    assert(calc_scan(seq![t], 0, 0, false) == Ok::<i64, WordsToNumberError>(800i64));
    assert(words_to_number_spec(w) == Ok::<i64, WordsToNumberError>(800i64));
}

#[verifier::rlimit(100)]
proof fn merge_900()
    ensures
        merge_hundreds("نه صد"@) == "نهصد"@,
{
    reveal_strlit("شیش صد");
    reveal_strlit("شش صد");
    reveal_strlit("هفت صد");
    reveal_strlit("هشت صد");
    reveal_strlit("نه صد");
    reveal_strlit("چهار صد");
    reveal_strlit("ششصد");
    reveal_strlit("هفتصد");
    reveal_strlit("هشتصد");
    reveal_strlit("نهصد");
    reveal_strlit("چهارصد");
    reveal_with_fuel(replace_all, 9);
    let w = "نه صد"@;
    assert("نه صد"@[0] == 'ن');
    assert("نه صد"@[1] == 'ه');
    assert("نه صد"@[2] == ' ');
    assert("نه صد"@[3] == 'ص');
    assert("نه صد"@[4] == 'د');
    assert("شیش صد"@[0] == 'ش');
    assert("شیش صد"@[1] == 'ی');
    assert("شیش صد"@[2] == 'ش');
    assert("شیش صد"@[3] == ' ');
    assert("شیش صد"@[4] == 'ص');
    assert("شیش صد"@[5] == 'د');
    assert("شش صد"@[0] == 'ش');
    assert("شش صد"@[1] == 'ش');
    assert("شش صد"@[2] == ' ');
    assert("شش صد"@[3] == 'ص');
    assert("شش صد"@[4] == 'د');
    assert("هفت صد"@[0] == 'ه');
    assert("هفت صد"@[1] == 'ف');
    assert("هفت صد"@[2] == 'ت');
    assert("هفت صد"@[3] == ' ');
    assert("هفت صد"@[4] == 'ص');
    assert("هفت صد"@[5] == 'د');
    assert("هشت صد"@[0] == 'ه');
    assert("هشت صد"@[1] == 'ش');
    assert("هشت صد"@[2] == 'ت');
    assert("هشت صد"@[3] == ' ');
    assert("هشت صد"@[4] == 'ص');
    assert("هشت صد"@[5] == 'د');
    assert("نه صد"@[0] == 'ن');
    assert("نه صد"@[1] == 'ه');
    assert("نه صد"@[2] == ' ');
    assert("نه صد"@[3] == 'ص');
    assert("نه صد"@[4] == 'د');
    assert("چهار صد"@[0] == 'چ');
    assert("چهار صد"@[1] == 'ه');
    assert("چهار صد"@[2] == 'ا');
    assert("چهار صد"@[3] == 'ر');
    assert("چهار صد"@[4] == ' ');
    assert("چهار صد"@[5] == 'ص');
    assert("چهار صد"@[6] == 'د');
    assert("ششصد"@[0] == 'ش');
    assert("ششصد"@[1] == 'ش');
    assert("ششصد"@[2] == 'ص');
    assert("ششصد"@[3] == 'د');
    assert("ششصد"@[0] == 'ش');
    assert("ششصد"@[1] == 'ش');
    assert("ششصد"@[2] == 'ص');
    assert("ششصد"@[3] == 'د');
    assert("هفتصد"@[0] == 'ه');
    assert("هفتصد"@[1] == 'ف');
    assert("هفتصد"@[2] == 'ت');
    assert("هفتصد"@[3] == 'ص');
    assert("هفتصد"@[4] == 'د');
    assert("هشتصد"@[0] == 'ه');
    assert("هشتصد"@[1] == 'ش');
    assert("هشتصد"@[2] == 'ت');
    assert("هشتصد"@[3] == 'ص');
    assert("هشتصد"@[4] == 'د');
    assert("نهصد"@[0] == 'ن');
    assert("نهصد"@[1] == 'ه');
    assert("نهصد"@[2] == 'ص');
    assert("نهصد"@[3] == 'د');
    assert("چهارصد"@[0] == 'چ');
    assert("چهارصد"@[1] == 'ه');
    assert("چهارصد"@[2] == 'ا');
    assert("چهارصد"@[3] == 'ر');
    assert("چهارصد"@[4] == 'ص');
    assert("چهارصد"@[5] == 'د');
    let m1 = replace_all(w, "شیش صد"@, "ششصد"@);
    assert(m1 =~= w);
    let m2 = replace_all(m1, "شش صد"@, "ششصد"@);
    assert(m2 =~= m1);
    let m3 = replace_all(m2, "هفت صد"@, "هفتصد"@);
    assert(m3 =~= m2);
    let m4 = replace_all(m3, "هشت صد"@, "هشتصد"@);
    assert(m4 =~= m3);
    assert(m4.take(5) =~= "نه صد"@);
    assert(m4.skip(5) =~= Seq::<char>::empty());
    let m5 = replace_all(m4, "نه صد"@, "نهصد"@);
    assert(m5 =~= "نهصد"@ + replace_all(m4.skip(5), "نه صد"@, "نهصد"@));
    assert(m5 =~= "نهصد"@);
    let m6 = replace_all(m5, "چهار صد"@, "چهارصد"@);
    assert(m6 =~= m5);
    assert(merge_hundreds(w) == m6);
}

#[verifier::rlimit(100)]
proof fn rt_900()
    ensures
        words_to_number_spec(number_words(900)) == Ok::<i64, WordsToNumberError>(900i64),
{
    reveal_strlit("صفر");
    reveal_strlit("یک");
    reveal_strlit("دو");
    reveal_strlit("سه");
    reveal_strlit("چهار");
    reveal_strlit("پنج");
    reveal_strlit("شش");
    reveal_strlit("شیش");
    reveal_strlit("هفت");
    reveal_strlit("هشت");
    reveal_strlit("نه");
    reveal_strlit("ده");
    reveal_strlit("یازده");
    reveal_strlit("دوازده");
    reveal_strlit("سیزده");
    reveal_strlit("چهارده");
    reveal_strlit("پانزده");
    reveal_strlit("شانزده");
    reveal_strlit("هفده");
    reveal_strlit("هجده");
    reveal_strlit("نوزده");
    reveal_strlit("بیست");
    reveal_strlit("سی");
    reveal_strlit("چهل");
    reveal_strlit("پنجاه");
    reveal_strlit("شصت");
    reveal_strlit("هفتاد");
    reveal_strlit("هشتاد");
    reveal_strlit("نود");
    reveal_strlit("صد");
    reveal_strlit("یکصد");
    reveal_strlit("دویست");
    reveal_strlit("سیصد");
    reveal_strlit("چهارصد");
    reveal_strlit("پانصد");
    reveal_strlit("ششصد");
    reveal_strlit("هفتصد");
    reveal_strlit("هشتصد");
    reveal_strlit("نهصد");
    reveal_strlit("شیش صد");
    reveal_strlit("شش صد");
    reveal_strlit("هفت صد");
    reveal_strlit("هشت صد");
    reveal_strlit("نه صد");
    reveal_strlit("چهار صد");
    reveal_strlit("و");
    reveal_strlit("ام");
    reveal_strlit("اُم");
    reveal_strlit("مین");
    reveal_strlit("سوم");
    reveal_strlit("م");
    reveal_strlit("منفی");
    reveal_strlit("د");
    reveal_strlit("هصد");
    let w = "نه صد"@;
    assert(number_words(900) == w);
    reveal_with_fuel(crate::text::trim_start_idx, 8);
    reveal_with_fuel(crate::text::trim_end_idx, 8);
    assert(trim_spec(w) =~= w);
    merge_900();
    let t = "نهصد"@;
    assert("نهصد"@[0] == 'ن');
    assert("نهصد"@[1] == 'ه');
    assert("نهصد"@[2] == 'ص');
    assert("نهصد"@[3] == 'د');
    reveal_with_fuel(split_ws, 4);
    reveal_with_fuel(token_len, 7);
    assert(t.take(4) =~= t);
    assert(t.skip(4) =~= Seq::<char>::empty());
    assert(token_len(t) == 4);
    assert(split_ws(t) =~= seq![t]);
    assert(t.subrange(3, 4) =~= "د"@);
    assert("د"@[0] == 'د');
    assert(t.subrange(2, 4) =~= "صد"@);
    assert("صد"@[0] == 'ص');
    assert("صد"@[1] == 'د');
    assert(t.subrange(1, 4) =~= "هصد"@);
    assert("هصد"@[0] == 'ه');
    assert("هصد"@[1] == 'ص');
    assert("هصد"@[2] == 'د');
    assert("مین"@[0] == 'م');
    assert("مین"@[1] == 'ی');
    assert("مین"@[2] == 'ن');
    assert("اُم"@[0] == 'ا');
    assert("اُم"@[1] == 'ُ');
    assert("اُم"@[2] == 'م');
    assert("ام"@[0] == 'ا');
    assert("ام"@[1] == 'م');
    assert("سوم"@[0] == 'س');
    assert("سوم"@[1] == 'و');
    assert("سوم"@[2] == 'م');
    assert("م"@[0] == 'م');
    assert(strip_ordinal(t) == t);
    reveal_with_fuel(clean_tokens, 3);
    assert(clean_tokens(seq![t]) =~= seq![t]);
    assert(unit_value(t) == Some(900i64));
    assert(t != negative_prefix());
    reveal_with_fuel(calc_scan, 3);
    assert(calc_scan(seq![t], 0, 0, false) == Ok::<i64, WordsToNumberError>(900i64));
    assert(words_to_number_spec(w) == Ok::<i64, WordsToNumberError>(900i64));
}

/// The round-trip law for the values the renderer writes as one table
/// word: rendering the value and parsing the phrase back yields the value
/// again.
pub proof fn lemma_single_word_round_trip(d: int)
    requires
        has_defined_word(d),
        0 <= d <= 900,
    ensures
        words_to_number_spec(number_words(d)) == Ok::<i64, WordsToNumberError>(d as i64),
{
    if d == 0 {
        rt_0();
    } else if d == 1 {
        rt_1();
    } else if d == 2 {
        rt_2();
    } else if d == 3 {
        rt_3();
    } else if d == 4 {
        rt_4();
    } else if d == 5 {
        rt_5();
    } else if d == 6 {
        rt_6();
    } else if d == 7 {
        rt_7();
    } else if d == 8 {
        rt_8();
    } else if d == 9 {
        rt_9();
    } else if d == 10 {
        rt_10();
    } else if d == 11 {
        rt_11();
    } else if d == 12 {
        rt_12();
    } else if d == 13 {
        rt_13();
    } else if d == 14 {
        rt_14();
    } else if d == 15 {
        rt_15();
    } else if d == 16 {
        rt_16();
    } else if d == 17 {
        rt_17();
    } else if d == 18 {
        rt_18();
    } else if d == 19 {
        rt_19();
    } else if d == 20 {
        rt_20();
    } else if d == 30 {
        rt_30();
    } else if d == 40 {
        rt_40();
    } else if d == 50 {
        rt_50();
    } else if d == 60 {
        rt_60();
    } else if d == 70 {
        rt_70();
    } else if d == 80 {
        rt_80();
    } else if d == 90 {
        rt_90();
    } else if d == 100 {
        rt_100();
    } else if d == 200 {
        rt_200();
    } else if d == 300 {
        rt_300();
    } else if d == 400 {
        rt_400();
    } else if d == 500 {
        rt_500();
    } else if d == 600 {
        rt_600();
    } else if d == 700 {
        rt_700();
    } else if d == 800 {
        rt_800();
    } else if d == 900 {
        rt_900();
    }
}

} // verus!

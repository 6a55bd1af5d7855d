//! The capital of each province.

use vstd::prelude::*;
use crate::persian_chars::to_persian_text;
use crate::text::chars_of;
use crate::text::eq_str;

verus! {

/// The capital of a province, looked up by the province's normalised name.
pub open spec fn capital_of(t: Seq<char>) -> Option<Seq<char>> {
    if t == "آذربایجان شرقی"@ {
        Some("تبریز"@)
    } else if t == "آذربایجان غربی"@ {
        Some("ارومیه"@)
    } else if t == "اردبیل"@ {
        Some("اردبیل"@)
    } else if t == "اصفهان"@ {
        Some("اصفهان"@)
    } else if t == "البرز"@ {
        Some("کرج"@)
    } else if t == "ایلام"@ {
        Some("ایلام"@)
    } else if t == "بوشهر"@ {
        Some("بوشهر"@)
    } else if t == "تهران"@ {
        Some("تهران"@)
    } else if t == "چهارمحال و بختیاری"@ {
        Some("شهرکرد"@)
    } else if t == "خراسان جنوبی"@ {
        Some("بیرجند"@)
    } else if t == "خراسان رضوی"@ {
        Some("مشهد"@)
    } else if t == "خراسان شمالی"@ {
        Some("بجنورد"@)
    } else if t == "خوزستان"@ {
        Some("اهواز"@)
    } else if t == "زنجان"@ {
        Some("زنجان"@)
    } else if t == "سمنان"@ {
        Some("سمنان"@)
    } else if t == "سیستان و بلوچستان"@ {
        Some("زاهدان"@)
    } else if t == "فارس"@ {
        Some("شیراز"@)
    } else if t == "قزوین"@ {
        Some("قزوین"@)
    } else if t == "قم"@ {
        Some("قم"@)
    } else if t == "کردستان"@ {
        Some("سنندج"@)
    } else if t == "کرمان"@ {
        Some("کرمان"@)
    } else if t == "کرمانشاه"@ {
        Some("کرمانشاه"@)
    } else if t == "کهگیلویه و بویراحمد"@ {
        Some("یاسوج"@)
    } else if t == "گلستان"@ {
        Some("گرگان"@)
    } else if t == "گیلان"@ {
        Some("رشت"@)
    } else if t == "لرستان"@ {
        Some("خرم آباد"@)
    } else if t == "مازندران"@ {
        Some("ساری"@)
    } else if t == "مرکزی"@ {
        Some("اراک"@)
    } else if t == "هرمزگان"@ {
        Some("بندرعباس"@)
    } else if t == "همدان"@ {
        Some("همدان"@)
    } else if t == "یزد"@ {
        Some("یزد"@)
    } else {
        None
    }
}

/// The capital of the named province. The name is normalised to Persian
/// letter forms first; an unknown name has no capital.
pub fn find_capital_by_province(input: &str) -> (r: Option<&'static str>)
    ensures
        match r {
            Some(c) => capital_of(to_persian_text(input@)) matches Some(x) && c@ == x,
            None => capital_of(to_persian_text(input@)) is None,
        },
{
    let v = chars_of(input);
    let t = crate::persian_chars::to_persian_chars_vec(&v);
    if eq_str(&t, "آذربایجان شرقی") {
        return Some("تبریز");
    }
    if eq_str(&t, "آذربایجان غربی") {
        return Some("ارومیه");
    }
    if eq_str(&t, "اردبیل") {
        return Some("اردبیل");
    }
    if eq_str(&t, "اصفهان") {
        return Some("اصفهان");
    }
    if eq_str(&t, "البرز") {
        return Some("کرج");
    }
    if eq_str(&t, "ایلام") {
        return Some("ایلام");
    }
    if eq_str(&t, "بوشهر") {
        return Some("بوشهر");
    }
    if eq_str(&t, "تهران") {
        return Some("تهران");
    }
    if eq_str(&t, "چهارمحال و بختیاری") {
        return Some("شهرکرد");
    }
    if eq_str(&t, "خراسان جنوبی") {
        return Some("بیرجند");
    }
    if eq_str(&t, "خراسان رضوی") {
        return Some("مشهد");
    }
    if eq_str(&t, "خراسان شمالی") {
        return Some("بجنورد");
    }
    if eq_str(&t, "خوزستان") {
        return Some("اهواز");
    }
    if eq_str(&t, "زنجان") {
        return Some("زنجان");
    }
    if eq_str(&t, "سمنان") {
        return Some("سمنان");
    }
    if eq_str(&t, "سیستان و بلوچستان") {
        return Some("زاهدان");
    }
    if eq_str(&t, "فارس") {
        return Some("شیراز");
    }
    if eq_str(&t, "قزوین") {
        return Some("قزوین");
    }
    if eq_str(&t, "قم") {
        return Some("قم");
    }
    if eq_str(&t, "کردستان") {
        return Some("سنندج");
    }
    if eq_str(&t, "کرمان") {
        return Some("کرمان");
    }
    if eq_str(&t, "کرمانشاه") {
        return Some("کرمانشاه");
    }
    if eq_str(&t, "کهگیلویه و بویراحمد") {
        return Some("یاسوج");
    }
    if eq_str(&t, "گلستان") {
        return Some("گرگان");
    }
    if eq_str(&t, "گیلان") {
        return Some("رشت");
    }
    if eq_str(&t, "لرستان") {
        return Some("خرم آباد");
    }
    if eq_str(&t, "مازندران") {
        return Some("ساری");
    }
    if eq_str(&t, "مرکزی") {
        return Some("اراک");
    }
    if eq_str(&t, "هرمزگان") {
        return Some("بندرعباس");
    }
    if eq_str(&t, "همدان") {
        return Some("همدان");
    }
    if eq_str(&t, "یزد") {
        return Some("یزد");
    }
    None
}

} // verus!

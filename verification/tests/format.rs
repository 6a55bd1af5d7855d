use persian_tools::add_ordinal_suffix::add_ordinal_suffix_mut;
use persian_tools::add_ordinal_suffix::AddOrdinalSuffix;
use persian_tools::add_ordinal_suffix::AddOrdinalSuffixMut;
use persian_tools::arabic_chars::HasArabic;
use persian_tools::arabic_chars::IsArabic;
use persian_tools::arabic_chars::ToArabicChars;
use persian_tools::arabic_chars::ToArabicCharsMut;
use persian_tools::commas::add_commas;
use persian_tools::commas::add_commas_mut;
use persian_tools::commas::remove_commas;
use persian_tools::commas::remove_commas_mut;
use persian_tools::digits::en_to_fa;
use persian_tools::digits::en_to_ar;
use persian_tools::digits::DigitsAr2En;
use persian_tools::digits::DigitsAr2Fa;
use persian_tools::digits::DigitsAr2FaMut;
use persian_tools::digits::DigitsAr2EnMut;
use persian_tools::digits::DigitsEn2Ar;
use persian_tools::digits::DigitsEn2ArMut;
use persian_tools::digits::DigitsEn2Fa;
use persian_tools::digits::DigitsEn2FaMut;
use persian_tools::digits::DigitsFa2Ar;
use persian_tools::digits::DigitsFa2ArMut;
use persian_tools::digits::DigitsFa2En;
use persian_tools::digits::DigitsFa2EnMut;
use persian_tools::find_capital_by_province::find_capital_by_province;
use persian_tools::half_space::add_half_space;
use persian_tools::half_space::remove_half_space;
use persian_tools::persian_chars::HasPersian;
use persian_tools::persian_chars::IsPersian;
use persian_tools::persian_chars::ToPersianChars;
use persian_tools::persian_chars::ToPersianCharsMut;
use persian_tools::remove_ordinal_suffix::remove_ordinal_suffix;
use persian_tools::remove_ordinal_suffix::remove_ordinal_suffix_mut;
use persian_tools::to_persian_chars::to_persian_chars;
use persian_tools::url_fix::url_fix;

#[test]
fn convert() {
    assert_eq!("چهل و سه".add_persian_ordinal_suffix(), "چهل و سوم");
    assert_eq!(String::from("چهل و پنج").add_persian_ordinal_suffix(), "چهل و پنجم");
    assert_eq!("سی".add_persian_ordinal_suffix(), "سی اُم");
    assert_eq!("بیست و یک".add_persian_ordinal_suffix(), "بیست و یکم");
}

#[test]
fn in_place() {
    let mut number = "چهل و سه".to_string();
    number.add_persian_ordinal_suffix_mut();
    assert_eq!(number, "چهل و سوم");

    let mut number = "چهل و پنج".to_string();
    add_ordinal_suffix_mut(&mut number);
    assert_eq!(number, "چهل و پنجم");

    let mut number = "سی".to_string();
    number.add_persian_ordinal_suffix_mut();
    assert_eq!(number, "سی اُم");
}

#[test]
fn remove_test() {
    assert_eq!(remove_ordinal_suffix("چهل و سوم"), "چهل و سه");
    assert_eq!(remove_ordinal_suffix("چهل و پنجم"), "چهل و پنج");
    assert_eq!(remove_ordinal_suffix("سی اُم"), "سی");
}

#[test]
fn remove_mut_test() {
    let mut word = String::from("چهل و سوم");
    remove_ordinal_suffix_mut(&mut word);
    assert_eq!(word, "چهل و سه");
}

#[test]
fn add_commas_test() {
    assert_eq!(add_commas("30000000"), "30,000,000");
    assert_eq!(add_commas("30000000"), "30,000,000");
    assert_eq!(add_commas("30,000,000"), "30,000,000");
    assert_eq!(add_commas("۳۰۰۰۰۰۰۰"), "۳۰,۰۰۰,۰۰۰");

    assert_eq!(add_commas("30,000,000.02"), "30,000,000.02");
    assert_eq!(add_commas("12500.9"), "12,500.9");
    assert_eq!(add_commas("12500.9"), "12,500.9");
    assert_eq!(add_commas("51000.123456789"), "51,000.123456789");

    assert_eq!(add_commas("300"), "300");
    assert_eq!(add_commas("0"), "0");
}

#[test]
fn add_commas_mut_test() {
    let mut input = "30000000".to_string();
    add_commas_mut(&mut input);
    assert_eq!(input, "30,000,000");

    let mut input = "30,000,000".to_string();
    add_commas_mut(&mut input);
    assert_eq!(input, "30,000,000");

    let mut input = "30000000.02".to_string();
    add_commas_mut(&mut input);
    assert_eq!(input, "30,000,000.02");
}

#[test]
fn remove_commas_test() {
    assert_eq!(remove_commas("30,000,000"), "30000000".to_string());
}

#[test]
fn remove_commas_mut_test() {
    let mut input = String::from("30,000,000");
    remove_commas_mut(&mut input);
    assert_eq!(input, "30000000".to_string());
}

#[test]
fn digits_fa_to_en_test() {
    assert_eq!("123۴۵۶".digits_fa_to_en(), "123456");
    let mut n = "۸۹123۴۵".to_string();
    n.digits_fa_to_en_mut();
    assert_eq!(n, "8912345");
    let mut n = "۰۱۲۳۴۵۶۷۸۹".to_string();
    n.digits_fa_to_en_mut();
    assert_eq!(n, "0123456789");
}

#[test]
fn digits_en_to_fa_test() {
    let mut n = "123۴۵۶".to_string();
    n.digits_en_to_fa_mut();
    assert_eq!(n, "۱۲۳۴۵۶");
    assert_eq!(123i8.digits_en_to_fa(), "۱۲۳");
    assert_eq!(1234567891usize.digits_en_to_fa(), "۱۲۳۴۵۶۷۸۹۱");
    assert_eq!(en_to_fa(&3.14f64.to_string()), "۳.۱۴");
    assert_eq!("٤٥٦".to_string().digits_en_to_fa(), "٤٥٦");
}

#[test]
fn digits_en_to_ar_test() {
    let mut n = "123٤٥٦".to_string();
    n.digits_en_to_ar_mut();
    assert_eq!(n, "١٢٣٤٥٦");
    assert_eq!(123i8.digits_en_to_ar(), "١٢٣");
    assert_eq!(1234567891usize.digits_en_to_ar(), "١٢٣٤٥٦٧٨٩١");
    assert_eq!(en_to_ar(&3.14f64.to_string()), "٣.١٤");
    assert_eq!("۴۵۶".to_string().digits_en_to_ar(), "۴۵۶");
}

#[test]
fn digits_ar_to_en_test() {
    assert_eq!("٠١٢٣٤٥٦٧٨٩".digits_ar_to_en(), "0123456789");
    let mut n = "89١٢٣4٥".to_string();
    n.digits_ar_to_en_mut();
    assert_eq!(n, "8912345");
    let mut n = "0123۴۵۶789".to_string();
    n.digits_ar_to_en_mut();
    assert_eq!(n, "0123۴۵۶789".to_string());
}

#[test]
fn digits_fa_to_ar_test() {
    assert_eq!("۰۱۲۳۴۵۶۷۸۹".digits_fa_to_ar(), "٠١٢٣٤٥٦٧٨٩");
    let mut n = "۱۷۸۲۳۴۰۵۶۹".to_string();
    n.digits_fa_to_ar_mut();
    assert_eq!(n, "١٧٨٢٣٤٠٥٦٩");
    assert_eq!("۷۸٤۲۳٤۴".to_string().digits_fa_to_ar(), "٧٨٤٢٣٤٤");
    let mut n = "٤٤٤444۴۴۴".to_string();
    n.digits_fa_to_ar_mut();
    assert_eq!(n, "٤٤٤444٤٤٤".to_string());
}

#[test]
fn digits_ar_to_fa_test() {
    assert_eq!("٠١٢٣٤٥٦٧٨٩".digits_ar_to_fa(), "۰۱۲۳۴۵۶۷۸۹");
    let mut n = "١٧٨٢٣٤٠٥٦٩".to_string();
    n.digits_ar_to_fa_mut();
    assert_eq!(n, "۱۷۸۲۳۴۰۵۶۹");
    assert_eq!("٧٨٤٢٣٤٤".to_string().digits_ar_to_fa(), "۷۸۴۲۳۴۴");
    let mut n = "٤٤٤444٤٤٤".to_string();
    n.digits_ar_to_fa_mut();
    assert_eq!(n, "۴۴۴444۴۴۴".to_string());
}

#[test]
fn mod_has_persian_test() {
    assert_eq!("این یک متن فارسی است؟".has_persian(false), true);
    assert_eq!("هل هذا نص فارسي؟".has_persian(false), true);
    assert_eq!(
        "آیا سیستم میتواند گزینه های دیگری را به اشتباه به عنوان متن فارسی تشخیص دهد؟"
            .has_persian(false),
        true
    );
    assert_eq!("This text includes فارسی".has_persian(false), true);
    assert_eq!("Это персидский س текст?".has_persian(false), true);
    assert_eq!(
        "أكد رئيس اللجنة العسكرية الممثلة لحكومة الوفاق أراضي البلاد.".has_persian(false),
        true
    );

    assert_eq!("Lorem Ipsum Test".has_persian(false), false);
    assert_eq!("これはペルシア語のテキストですか".has_persian(false), false);
    assert_eq!("Это персидский текст?".has_persian(false), false);
    assert_eq!("这是波斯文字吗?".has_persian(false), false);
    assert_eq!("".has_persian(false), false);
}

#[test]
fn mod_is_persian_test() {
    assert_eq!("این یک متن فارسی است؟".is_persian(false), true);
    assert_eq!(
        "آیا سیستم میتواند گزینه های دیگری را به اشتباه به عنوان متن فارسی تشخیص دهد؟"
            .is_persian(false),
        true
    );

    assert_eq!("Lorem Ipsum Test".is_persian(false), false);
    assert_eq!("これはペルシア語のテキストですか".is_persian(false), false);
    assert_eq!("Это персидский текст?".is_persian(false), false);
    assert_eq!("这是波斯文字吗?".is_persian(false), false);
    assert_eq!("هل هذا نص فارسي؟".is_persian(false), false);
    assert_eq!(
        "أكد رئيس اللجنة العسكرية الممثلة لحكومة الوفاق الوطني في ليبيا أحمد علي أبو شحمة، أن اللجنة لا تستطيع تنفيذ خطتها لإخراج العناصر الأجنبية من أراضي البلاد.".is_persian(false),
        false
    );
    assert_eq!("".is_persian(false), false);
    assert_eq!("مهدی".to_persian_chars().is_persian(false), true);
    assert_eq!("شاه".to_persian_chars().is_persian(false), true);
}

#[test]
fn mod_test_name() {
    assert_eq!("علي".to_persian_chars(), "علی");

    assert_eq!(String::from("علي").to_persian_chars(), "علی");

    let mut name = String::from("علي در اراك");
    name.to_persian_chars_mut();
    assert_eq!(name, "علی در اراک");
}

#[test]
fn to_persian_chars_test_name() {
    assert_eq!(to_persian_chars("علي"), "علی");

    // the replacement reaches the end of the line
    assert_eq!(to_persian_chars("علي علي"), "علی علی");
}

#[test]
fn has_arabic_test() {
    assert_eq!("هل هذا نص عربي؟".has_arabic(), true);
    assert_eq!("هل هذا نص عربي؟".has_arabic(), true);
    assert_eq!(
        "هل يمكن للنظام أن يتعرف عن طريق الخطأ على الخيارات الأخرى كنص عربي؟".has_arabic(),
        true
    );
    assert_eq!("This text includes عربي".has_arabic(), true);
    assert_eq!("Это персидский ص текст?".has_arabic(), true);
    assert_eq!(
        "أكد رئيس اللجنة العسكرية الممثلة لحكومة الوفاق أراضي البلاد.".has_arabic(),
        true
    );

    assert_eq!("Lorem Ipsum Test".has_arabic(), false);
    assert_eq!("これはペルシア語のテキストですか".has_arabic(), false);
    assert_eq!("Это персидский текст?".has_arabic(), false);
    assert_eq!("这是波斯文字吗?".has_arabic(), false);
    assert_eq!("".has_arabic(), false);
}

#[test]
fn mod_is_arabic_test() {
    assert_eq!("هل هذا نص عربي؟".is_arabic(), true);
    assert_eq!(
        "هل يمكن للنظام أن يتعرف عن طريق الخطأ على الخيارات الأخرى كنص عربي؟".is_arabic(),
        true
    );

    assert_eq!("Lorem Ipsum Test".is_arabic(), false);
    assert_eq!("これはペルシア語のテキストですか".is_arabic(), false);
    assert_eq!("Это персидский текст?".is_arabic(), false);
    assert_eq!("这是波斯文字吗?".is_arabic(), false);
    assert_eq!("این متن عربی است".is_arabic(), false);
    assert_eq!(
        "آیا سیستم میتواند گزینه های دیگری را به اشتباه به عنوان متن فارسی تشخیص دهد؟"
            .is_arabic(),
        false
    );
    assert_eq!("".is_arabic(), false);
    assert_eq!("مهدی".to_arabic_chars().is_arabic(), true);
    assert_eq!("شاه".to_arabic_chars().is_arabic(), true);
}

#[test]
fn arabic_chars_test_name() {
    assert_eq!("علی".to_arabic_chars(), "علي");

    assert_eq!(String::from("علی").to_arabic_chars(), "علي");

    let mut name = String::from("علی در اراک");
    name.to_arabic_chars_mut();
    assert_eq!(name, "علي در اراك");
}

#[test]
fn test_adding_half_space() {
    assert_eq!(
        add_half_space("نمی خواهی درخت ها را ببینیم؟"),
        "نمی‌خواهی درخت‌ها را ببینیم؟".to_string()
    );

    assert_eq!(
        add_half_space("ای دوست سلام من به تو. نمی خواهمت درخت های چنار هاله صمیمی من"),
        "ای دوست سلام من به تو. نمی‌خواهمت درخت‌های چنار هاله صمیمی من".to_string()
    );
    add_half_space("نمیخواهی");
}

#[test]
fn test_removing_half_space() {
    assert_eq!(
        remove_half_space("نمی‌خواهی درخت‌ها را ببینیم؟"),
        "نمی خواهی درخت ها را ببینیم؟".to_string()
    );
}

#[test]
fn find_capital_by_province_none() {
    assert_eq!(find_capital_by_province("random"), None);
}

#[test]
fn find_capital_by_province_normal() {
    assert_eq!(find_capital_by_province("تهران"), Some("تهران"));
    assert_eq!(find_capital_by_province("مرکزی"), Some("اراک"));
    assert_eq!(find_capital_by_province("خراسان رضوی"), Some("مشهد"));
}

#[test]
fn find_capital_by_province_arabic_char() {
    assert_eq!(find_capital_by_province("خراسان رضوي"), Some("مشهد"));
}

#[test]
fn url_fix_test() {
    assert_eq!(
        url_fix("https://fa.wikipedia.org/wiki/%D9%85%D8%AF%DB%8C%D8%A7%D9%88%DB%8C%DA%A9%DB%8C:Gadget-Extra-Editbuttons-botworks.js", None),
        Ok("https://fa.wikipedia.org/wiki/مدیاویکی:Gadget-Extra-Editbuttons-botworks.js".to_string())
    );
    assert_eq!(
        url_fix("https://en.wikipedia.org/wiki/Persian_alphabet", None),
        Ok("https://en.wikipedia.org/wiki/Persian_alphabet".to_string())
    );
    assert_eq!(
        url_fix("https://fa.wikipedia.org/wiki/%D8%AF%DB%8C%D8%A7%DA%A9%D9%88", None),
        Ok("https://fa.wikipedia.org/wiki/دیاکو".to_string())
    );
    assert_eq!(
        url_fix("https://fa.wikipedia.org/wiki/%D9%85%DA%A9%D8%A7%D9%86%DB%8C%DA%A9%20%DA%A9%D9%88%D8%A7%D9%86%D8%AA%D9%88%D9%85%DB%8C", Some("_")),
        Ok("https://fa.wikipedia.org/wiki/مکانیک_کوانتومی".to_string())
    );
    assert_eq!(
        url_fix("https://fa.wikipedia.org/wiki/%D9%85%DA%A9%D8%A7%D9%86%DB%8C%DA%A9%20%DA%A9%D9%88%D8%A7%D9%86%D8%AA%D9%88%D9%85%DB%8C", Some("-")),
        Ok("https://fa.wikipedia.org/wiki/مکانیک-کوانتومی".to_string())
    );
    assert_eq!(url_fix("Sample Text", None), Ok("Sample Text".to_string()));
}

use persian_tools::number_to_words::digits_with_zeros;
use persian_tools::number_to_words::number_to_words;
use persian_tools::number_to_words::number_to_words_str;
use persian_tools::number_to_words::number_with_zeros;
use persian_tools::number_to_words::three_digit_number_to_words;
use persian_tools::number_to_words::NumberToWordsError;
use persian_tools::words_to_number::words_to_number;
use persian_tools::words_to_number::words_to_number_str;
use persian_tools::words_to_number::Language;
use persian_tools::words_to_number::Options;
use persian_tools::words_to_number::WordsToNumberError;

#[test]
fn number_to_word_test() {
    assert_eq!(number_to_words(0), Ok("صفر".to_string()));
    assert_eq!(number_to_words(4), Ok("چهار".to_string()));
    assert_eq!(number_to_words(33), Ok("سی و سه".to_string()));
    assert_eq!(number_to_words(123), Ok("صد و بیست و سه".to_string()));
    assert_eq!(number_to_words(103), Ok("صد و سه".to_string()));
    assert_eq!(
        number_to_words(3825),
        Ok("سه هزار و هشت صد و بیست و پنج".to_string())
    );
    assert_eq!(number_to_words(-4), Ok("منفی چهار".to_string()));
    assert_eq!(number_to_words(30000000000), Ok("سی میلیارد".to_string()));
    assert_eq!(
        number_to_words(987654321),
        Ok("نه صد و هشتاد و هفت میلیون و شش صد و پنجاه و چهار هزار و سیصد و بیست و یک".to_string())
    );
    assert_eq!(
        number_to_words(9006199254740992),
        Ok("نه کوآدریلیون و شش تریلیون و صد و نود و نه میلیارد و دویست و پنجاه و چهار میلیون و هفت صد و چهل هزار و نه صد و نود و دو".to_string()),
    );
}

#[test]
fn number_to_word_str_test() {
    assert_eq!(number_to_words_str("33"), Ok("سی و سه".to_string()));
    assert_eq!(
        number_to_words_str("8,356"),
        Ok("هشت هزار و سیصد و پنجاه و شش".to_string())
    );
    assert_eq!(
        number_to_words_str("500,443"),
        Ok("پانصد هزار و چهار صد و چهل و سه".to_string())
    );
}

#[test]
fn number_to_word_errors_test() {
    assert_eq!(number_to_words_str(""), Err(NumberToWordsError::EmptyString));
    assert_eq!(
        number_to_words_str("123abc"),
        Err(NumberToWordsError::InvalidInteger("123abc".to_string()))
    );
    assert_eq!(
        number_to_words_str("3.14"),
        Err(NumberToWordsError::InvalidInteger("3.14".to_string()))
    );
    let long = "9999999999999999999999999999999999999999999999999";
    assert_eq!(
        number_to_words_str(long),
        Err(NumberToWordsError::Overflow(long.to_string()))
    );
}

#[test]
fn number_to_words_three_digits() {
    assert_eq!(three_digit_number_to_words(0), Ok("".to_string()));
    assert_eq!(three_digit_number_to_words(4), Ok("چهار".to_string()));
    assert_eq!(three_digit_number_to_words(33), Ok("سی و سه".to_string()));
    assert_eq!(three_digit_number_to_words(30), Ok("سی".to_string()));
    assert_eq!(three_digit_number_to_words(303), Ok("سیصد و سه".to_string()));
    assert_eq!(three_digit_number_to_words(123), Ok("صد و بیست و سه".to_string()));
    assert_eq!(three_digit_number_to_words(103), Ok("صد و سه".to_string()));

    // every group value must render without an error
    for i in 0..1000 {
        three_digit_number_to_words(i).unwrap();
    }
}

#[test]
fn number_with_zeros_test() {
    assert_eq!(number_with_zeros(4, 5), 400000);
}

#[test]
fn digits_with_zeros_test() {
    assert_eq!(digits_with_zeros(123), vec![3, 20, 100]);
}

#[test]
fn words_to_number_test() {
    assert_eq!(words_to_number("منفی سه هزار").unwrap(), -3000);
    assert_eq!(words_to_number("دوازده هزار بیست دو").unwrap(), 12022);
    assert_eq!(words_to_number("دوازده هزار و بیست و دو").unwrap(), 12022);
}

#[test]
fn words_to_number_with_comma_test() {
    let option = Options { digits: Language::English, add_commas: true };

    assert_eq!(
        words_to_number_str("دوازده هزار بیست دو", &option).unwrap(),
        "12,022"
    );
    assert_eq!(
        words_to_number_str("دوازده هزار و بیست و دو", &option).unwrap(),
        "12,022"
    );
}

#[test]
fn words_to_number_arabic() {
    let option = Options { digits: Language::Arabic, add_commas: false };

    assert_eq!(words_to_number_str("منفی سه هزار", &option).unwrap(), "-٣٠٠٠");
    assert_eq!(
        words_to_number_str("سه هزار دویست و دوازده", &option).unwrap(),
        "٣٢١٢"
    );
    assert_eq!(
        words_to_number_str("دوازده هزار بیست دو", &option).unwrap(),
        "١٢٠٢٢"
    );
    assert_eq!(
        words_to_number_str("چهارصد پنجاه هزار", &option).unwrap(),
        "٤٥٠٠٠٠"
    );
}

#[test]
fn words_to_number_with_comma_arabic() {
    let option = Options { digits: Language::Arabic, add_commas: true };

    assert_eq!(
        words_to_number_str("دوازده هزار بیست دو", &option).unwrap(),
        "١٢,٠٢٢"
    );
    assert_eq!(
        words_to_number_str("دوازده هزار و بیست و دو", &option).unwrap(),
        "١٢,٠٢٢"
    );
    assert_eq!(
        words_to_number_str("چهارصد پنجاه هزار", &option).unwrap(),
        "٤٥٠,٠٠٠"
    );
}

#[test]
fn words_to_number_with_ordinal_words() {
    let option_comma_fa = Options { digits: Language::Persian, add_commas: true };

    assert_eq!(
        words_to_number_str("منفی ۳ هزار", &option_comma_fa).unwrap(),
        "-۳,۰۰۰"
    );
    assert_eq!(
        words_to_number_str("منفی 3 هزار و 200", &option_comma_fa).unwrap(),
        "-۳,۲۰۰"
    );
    assert_eq!(
        words_to_number_str("منفی سه هزارمین", &option_comma_fa).unwrap(),
        "-۳,۰۰۰"
    );

    assert_eq!(words_to_number("منفی سه هزارم").unwrap(), -3000);
    assert_eq!(words_to_number("سی و سوم").unwrap(), 33);
    assert_eq!(words_to_number("منفی سی اُم").unwrap(), -30);
}

#[test]
fn words_to_number_fail_cases() {
    assert!(words_to_number("سلام چطوری").is_err());
    assert!(words_to_number("").is_err());
}

#[test]
fn zero_round_trip() {
    assert_eq!(number_to_words(0), Ok("صفر".to_string()));
    assert_eq!(words_to_number("صفر").unwrap(), 0);
}

#[test]
fn negative_four_round_trip() {
    let rendered = number_to_words(-4).unwrap();
    assert_eq!(rendered, "منفی چهار");
    assert_eq!(words_to_number(&rendered).unwrap(), -4);
}

#[test]
fn tens_and_ones_join() {
    assert_eq!(number_to_words(33).unwrap(), "سی و سه");
}

#[test]
fn hundred_and_lower_join() {
    assert_eq!(number_to_words(123).unwrap(), "صد و بیست و سه");
}

#[test]
fn thousands_with_hundreds_join() {
    assert_eq!(number_to_words(3825).unwrap(), "سه هزار و هشت صد و بیست و پنج");
}

#[test]
fn empty_and_unrelated_text_fail() {
    assert_eq!(words_to_number(""), Err(WordsToNumberError::EmptyInput));
    assert_eq!(words_to_number("   "), Err(WordsToNumberError::EmptyInput));
    assert_eq!(
        words_to_number("سلام چطوری"),
        Err(WordsToNumberError::InvalidUnit)
    );
}

#[test]
fn round_trip_representative_values() {
    // single groups at each scale, two adjacent low groups, and negatives
    for &n in &[
        0i64, 1, 7, 10, 13, 19, 20, 21, 30, 99, 100, 103, 110, 123, 200, 300, 400,
        404, 444, 500, 600, 700, 800, 900, 999, 1000, 2000, 3825, 12022, 400443,
        500443, 999999, 30000000000, 5000000, 7000000000000, 9000000000000000,
        8000000000000000000, -1, -33, -103, -400, -3825, -999999,
    ] {
        let rendered = number_to_words(n).unwrap();
        assert_eq!(words_to_number(&rendered).unwrap(), n, "value {}", n);
    }
}

#[test]
fn every_scale_word_parses() {
    assert_eq!(words_to_number("هزار").unwrap(), 1000);
    assert_eq!(words_to_number("میلیون").unwrap(), 1_000_000);
    assert_eq!(words_to_number("بیلیون").unwrap(), 1_000_000_000);
    assert_eq!(words_to_number("میلیارد").unwrap(), 1_000_000_000);
    assert_eq!(words_to_number("تریلیون").unwrap(), 1_000_000_000_000);
    assert_eq!(words_to_number("نه کوآدریلیون").unwrap(), 9_000_000_000_000_000);
    assert_eq!(words_to_number("هشت کوینتیلیون").unwrap(), 8_000_000_000_000_000_000);
}

#[test]
fn split_four_hundred_parses() {
    assert_eq!(words_to_number("چهار صد").unwrap(), 400);
    assert_eq!(words_to_number("چهار صد و چهل و سه").unwrap(), 443);
}

#[test]
fn accumulator_multiplies_documented_divergence() {
    // a gap pattern: a finished lower group followed by a higher scale word
    // multiplies the whole running sum, as the accumulator rule says
    assert_eq!(
        words_to_number("یک هزار و دویست میلیون").unwrap(),
        1_200_000_000
    );
    // the same rule misreads a million followed by completed thousands
    assert_eq!(
        words_to_number("یک میلیون و دویست هزار").unwrap(),
        1_000_200_000
    );
}

#[test]
fn separator_stripping_composes() {
    assert_eq!(number_to_words_str("8,356"), number_to_words(8356));
}

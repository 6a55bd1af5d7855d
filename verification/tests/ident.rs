use std::str::FromStr;

use persian_tools::bill::Bill;
use persian_tools::bill::BillID;
use persian_tools::bill::BillType;
use persian_tools::bill::CurrencyType;
use persian_tools::bill::PaymentID;
use persian_tools::extract_card_number::extract_card_number;
use persian_tools::extract_card_number::ExtractedCardNumber;
use persian_tools::get_bank_name_by_card_number::get_bank_name_by_card_number;
use persian_tools::get_bank_name_by_card_number::BankNameByCardNumberError;
use persian_tools::get_place_by_iran_national_id::get_place_by_iran_national_id;
use persian_tools::get_place_by_iran_national_id::PlaceByNationalId;
use persian_tools::get_place_by_iran_national_id::PlaceByNationalIdError;
use persian_tools::legal_id::verify_iranian_legal_id;
use persian_tools::legal_id::VerifyLegalIdError;
use persian_tools::national_id::verify_iranian_national_id;
use persian_tools::national_id::NationalIdError;
use persian_tools::sheba::get_sheba_info;
use persian_tools::sheba::is_sheba_valid;
use persian_tools::sheba::bank_info::ShebaResult;
use persian_tools::sheba::sheba_iso7064_mod97;
use persian_tools::sheba::ShebaValidationError;
use persian_tools::verity_card_number::verify_card_number;
use persian_tools::verity_card_number::VerifyCardNumberError;

type E = ShebaValidationError;

#[test]
fn bill_load_from_barcode_test() {
    let barcode = "11177532001400000012070160";
    let bill = Bill::from_str(barcode);
    assert!(bill.is_ok());
    let bill = bill.unwrap();
    assert_eq!(bill.amount(CurrencyType::Tomans), 12000);
    assert_eq!(bill.amount(CurrencyType::Rials), 120000);
}

#[test]
fn bill_load_from_ids_test() {
    let bill_id = BillID::from_str("1117753200140");
    let payment_id = PaymentID::from_str("12070160");
    assert!(bill_id.is_ok());
    assert!(payment_id.is_ok());

    let bill_id = bill_id.unwrap();
    let payment_id = payment_id.unwrap();
    let bill = Bill::new(bill_id, payment_id);
    assert!(bill.is_ok());

    let bill = bill.unwrap();
    assert_eq!(bill.amount(CurrencyType::Tomans), 12000);
    assert_eq!(bill.amount(CurrencyType::Rials), 120000);

    assert_eq!(
        Bill::new(
            BillID::from_str("1177809000142").unwrap(),
            PaymentID::from_str("570108").unwrap()
        )
        .unwrap()
        .amount(CurrencyType::Rials),
        5000,
    );
    assert_eq!(
        Bill::new(
            BillID::from_str("1177809000142").unwrap(),
            PaymentID::from_str("570108").unwrap()
        )
        .unwrap()
        .amount(CurrencyType::Tomans),
        500,
    );

    assert_eq!(
        Bill::new(
            BillID::from_str("1117753200140").unwrap(),
            PaymentID::from_str("1770163").unwrap()
        )
        .unwrap()
        .amount(CurrencyType::Rials),
        17000,
    );
    assert_eq!(
        Bill::new(
            BillID::from_str("1117753200140").unwrap(),
            PaymentID::from_str("1770163").unwrap()
        )
        .unwrap()
        .amount(CurrencyType::Tomans),
        1700,
    );
}

#[test]
fn bill_instantiate_test() {
    let bill_id = BillID::new("11177532", "001", BillType::Tel).unwrap();
    let payment_id = PaymentID::new(120, 7, 1, &bill_id).unwrap();
    let bill = Bill { bill_id, payment_id };

    assert_eq!(bill.bill_id.to_string(), "1117753200140");
    assert_eq!(bill.payment_id.to_string(), "12070160");
}

#[test]
fn bill_bill_type_test() {
    assert_eq!(
        Bill::new(
            BillID::from_str("7748317800142").unwrap(),
            PaymentID::from_str("1770160").unwrap()
        )
        .unwrap()
        .get_bill_type(),
        BillType::Tel
    );
    assert_eq!(
        Bill::new(
            BillID::from_str("9174639504124").unwrap(),
            PaymentID::from_str("12908190").unwrap()
        )
        .unwrap()
        .get_bill_type(),
        BillType::Electricity
    );
    assert_eq!(
        Bill::new(
            BillID::from_str("2050327604613").unwrap(),
            PaymentID::from_str("1070189").unwrap()
        )
        .unwrap()
        .get_bill_type(),
        BillType::Water
    );
    assert_eq!(
        Bill::new(
            BillID::from_str("9100074409153").unwrap(),
            PaymentID::from_str("12908199").unwrap()
        )
        .unwrap()
        .get_bill_type(),
        BillType::Mobile
    );
}

#[test]
fn bill_bill_id_is_valid() {
    assert!(BillID::from_str("7748317800142").is_ok());
    assert!(BillID::from_str("9174639504124").is_ok());
    assert!(BillID::from_str("2050327604613").is_ok());
    assert!(BillID::from_str("2234322344613").is_err());
}

#[test]
fn bill_payment_id_is_valid() {
    assert!(PaymentID::from_str("1770160").is_ok());
    assert!(PaymentID::from_str("12908197").is_ok());
    assert!(PaymentID::from_str("1070189").is_ok());
    assert!(PaymentID::from_str("1070189").is_ok());

    assert!(PaymentID::from_str("1770150").is_err());
    assert!(PaymentID::from_str("12908117").is_err());
    assert!(PaymentID::from_str("1070179").is_err());
    assert!(PaymentID::from_str("1070169").is_err());

    assert!(Bill::new(
        BillID::from_str("7748317800142").unwrap(),
        PaymentID::from_str("1770160").unwrap()
    )
    .is_ok());
    assert!(Bill::new(
        BillID::from_str("9174639504124").unwrap(),
        PaymentID::from_str("12908197").unwrap()
    )
    .is_err());
    assert!(Bill::new(
        BillID::from_str("2050327604613").unwrap(),
        PaymentID::from_str("1070189").unwrap()
    )
    .is_ok());
    assert!(Bill::new(
        BillID::from_str("2234322344617").unwrap(),
        PaymentID::from_str("1070189").unwrap()
    )
    .is_err());
}

#[test]
fn bill_generate_barcode_test() {
    assert_eq!(
        Bill::new(
            BillID::from_str("7748317800142").unwrap(),
            PaymentID::from_str("1770160").unwrap()
        )
        .unwrap()
        .to_string(),
        "77483178001420000001770160"
    );
    assert_eq!(
        Bill::new(
            BillID::from_str("9174639504124").unwrap(),
            PaymentID::from_str("12908190").unwrap()
        )
        .unwrap()
        .to_string(),
        "91746395041240000012908190"
    );
    assert_eq!(
        Bill::new(
            BillID::from_str("2050327604613").unwrap(),
            PaymentID::from_str("1070189").unwrap()
        )
        .unwrap()
        .to_string(),
        "20503276046130000001070189"
    );
    assert_eq!(
        Bill::new(
            BillID::from_str("2234322344617").unwrap(),
            PaymentID::from_str("1070188").unwrap()
        )
        .unwrap()
        .to_string(),
        "22343223446170000001070188"
    );
}

#[test]
fn bill_load_from_barcode_parts_test() {
    let bill = Bill::from_str("22343223446170000001070188").unwrap();

    assert_eq!(bill.get_bill_id(), "2234322344617");
    assert_eq!(bill.get_payment_id(), "1070188");
}

#[test]
fn bill_barcode_regeneration_test() {
    let barcode = "33009590043100000385620969";
    let bill = Bill::from_str(barcode).unwrap();
    assert_eq!(bill.to_string(), barcode);
}

#[test]
fn extract_cards_test_name() {
    let input = "شماره کارتم رو برات نوشتم:
6219-8610-3452-9007
اینم یه شماره کارت دیگه ای که دارم
50222910708734666
۵۰۲۲۲۹۱۰۸۱۸۷۳۴۶۶
۵۰۲۲-۲۹۱۰-۷۰۸۷-۳۴۶۶";
    assert_eq!(
        extract_card_number(input),
        vec![
            ExtractedCardNumber::new("6219861034529007", "6219-8610-3452-9007"),
            ExtractedCardNumber::new("5022291070873466", "5022291070873466"),
            ExtractedCardNumber::new("5022291081873466", "۵۰۲۲۲۹۱۰۸۱۸۷۳۴۶۶"),
            ExtractedCardNumber::new("5022291070873466", "۵۰۲۲-۲۹۱۰-۷۰۸۷-۳۴۶۶"),
        ]
    );

    assert_eq!(
        extract_card_number("شماره کارتم رو برات نوشتم: ۵۰۲۲-2910-7۰۸۷-۳۴۶۶"),
        vec![ExtractedCardNumber::new("5022291070873466", "۵۰۲۲-2910-7۰۸۷-۳۴۶۶")],
    )
}

#[test]
fn bank_name_test_name() {
    assert_eq!(get_bank_name_by_card_number("6037701689095443"), Ok("بانک کشاورزی"));
    assert_eq!(get_bank_name_by_card_number("6219861034529007"), Ok("بانک سامان"));
    assert_eq!(get_bank_name_by_card_number("6219861034529007"), Ok("بانک سامان"));

    assert_eq!(get_bank_name_by_card_number("610433"), Ok("بانک ملت"));
    assert_eq!(get_bank_name_by_card_number("50222919"), Ok("بانک پاسارگاد"));

    assert_eq!(
        get_bank_name_by_card_number("50222"),
        Err(BankNameByCardNumberError::TooShort("50222".to_string(), 5))
    );
    assert_eq!(
        get_bank_name_by_card_number("9999991034529007"),
        Err(BankNameByCardNumberError::NotFound("9999991034529007".to_string()))
    );
}

#[test]
fn place_test_name() {
    assert_eq!(
        get_place_by_iran_national_id("0499370899"),
        Ok(PlaceByNationalId::new("شهرری", "تهران"))
    );
    assert_eq!(
        get_place_by_iran_national_id("0790419904"),
        Ok(PlaceByNationalId::new("سبزوار", "خراسان رضوی"))
    );
    assert_eq!(
        get_place_by_iran_national_id("0084575948"),
        Ok(PlaceByNationalId::new("تهران مرکزی", "تهران"))
    );
    assert_eq!(
        get_place_by_iran_national_id("0060495219"),
        Ok(PlaceByNationalId::new("تهران مرکزی", "تهران"))
    );
    assert_eq!(
        get_place_by_iran_national_id("0671658506"),
        Ok(PlaceByNationalId::new("بجنورد", "خراسان شمالی"))
    );
    assert_eq!(
        get_place_by_iran_national_id("0671658506"),
        Ok(PlaceByNationalId::new("بجنورد", "خراسان شمالی"))
    );
    assert_eq!(
        get_place_by_iran_national_id("0643005846"),
        Ok(PlaceByNationalId::new("بیرجند", "خراسان جنوبی"))
    );
    assert_eq!(
        get_place_by_iran_national_id("0906582709"),
        Ok(PlaceByNationalId::new("کاشمر", "خراسان رضوی"))
    );
    assert_eq!(
        get_place_by_iran_national_id("0451727304"),
        Ok(PlaceByNationalId::new("شمیران", "تهران"))
    );
    assert_eq!(
        get_place_by_iran_national_id("0371359058"),
        Ok(PlaceByNationalId::new("قم", "قم"))
    );
    assert_eq!(
        get_place_by_iran_national_id("5049478618"),
        Ok(PlaceByNationalId::new("پارس آباد", "اردبیل"))
    );
    assert_eq!(
        get_place_by_iran_national_id("2110990147"),
        Ok(PlaceByNationalId::new("گرگان", "گلستان"))
    );
    assert_eq!(
        get_place_by_iran_national_id("0084545943"),
        Ok(PlaceByNationalId::new("تهران مرکزی", "تهران"))
    );
}

#[test]
fn test_name_errors() {
    assert_eq!(
        get_place_by_iran_national_id("008454594"),
        Err(PlaceByNationalIdError::TooShortNationalId(9))
    );
    assert_eq!(
        get_place_by_iran_national_id("8881234567"),
        Err(PlaceByNationalIdError::NotFound)
    );
}

#[test]
fn verify_iranian_legal_id_test() {
    assert_eq!(verify_iranian_legal_id("10380284790"), Ok(()));

    assert_eq!(
        verify_iranian_legal_id("123000000"),
        Err(VerifyLegalIdError::InvalidLength)
    );
    assert_eq!(
        verify_iranian_legal_id("11111111111"),
        Err(VerifyLegalIdError::InvalidChecksum)
    );
    assert_eq!(
        verify_iranian_legal_id("1111111111"),
        Err(VerifyLegalIdError::InvalidLength)
    );
    assert_eq!(
        verify_iranian_legal_id("10380284792"),
        Err(VerifyLegalIdError::InvalidChecksum)
    );
    assert_eq!(
        verify_iranian_legal_id("10380285692"),
        Err(VerifyLegalIdError::InvalidChecksum)
    );
    assert_eq!(
        verify_iranian_legal_id("09748208301"),
        Err(VerifyLegalIdError::InvalidChecksum)
    );
}

#[test]
fn check_falsy() {
    assert_eq!(verify_iranian_national_id(""), Err(NationalIdError::Length(0)));
    assert_eq!(verify_iranian_national_id("12345"), Err(NationalIdError::Length(5)));
    assert_eq!(verify_iranian_national_id("0"), Err(NationalIdError::Length(1)));
    assert_eq!(verify_iranian_national_id("000000"), Err(NationalIdError::Length(6)));
    assert_eq!(verify_iranian_national_id("12300000"), Err(NationalIdError::Invalid));
    assert_eq!(verify_iranian_national_id("123000000"), Err(NationalIdError::Invalid));
    assert_eq!(verify_iranian_national_id("1230000000"), Err(NationalIdError::Invalid));
    assert_eq!(verify_iranian_national_id("0000000000"), Err(NationalIdError::Invalid));
    assert_eq!(verify_iranian_national_id("4444444444"), Err(NationalIdError::Invalid));
    assert_eq!(verify_iranian_national_id("9999999999"), Err(NationalIdError::Invalid));
    assert_eq!(verify_iranian_national_id("0684159415"), Err(NationalIdError::Invalid));
    assert_eq!(verify_iranian_national_id("1111111111"), Err(NationalIdError::Invalid));
    assert_eq!(
        verify_iranian_national_id("079041a904"),
        Err(NationalIdError::NumericConvert)
    );
}

#[test]
fn check_truly() {
    assert_eq!(verify_iranian_national_id("11537027"), Ok(()));
    assert_eq!(verify_iranian_national_id("787833770"), Ok(()));
    assert_eq!(verify_iranian_national_id("1583250689"), Ok(()));
    assert_eq!(verify_iranian_national_id("0499370899"), Ok(()));
    assert_eq!(verify_iranian_national_id("0790419904"), Ok(()));
    assert_eq!(verify_iranian_national_id("0084575948"), Ok(()));
    assert_eq!(verify_iranian_national_id("0963695398"), Ok(()));
    assert_eq!(verify_iranian_national_id("0684159414"), Ok(()));
    assert_eq!(verify_iranian_national_id("0067749828"), Ok(()));
    assert_eq!(verify_iranian_national_id("0650451252"), Ok(()));
    assert_eq!(verify_iranian_national_id("4032152314"), Ok(()));
    assert_eq!(verify_iranian_national_id("0076229645"), Ok(()));
    assert_eq!(verify_iranian_national_id("4271467685"), Ok(()));
    assert_eq!(verify_iranian_national_id("0200203241"), Ok(()));
    assert_eq!(verify_iranian_national_id("068415941"), Ok(()));
    assert_eq!(verify_iranian_national_id("68415941"), Ok(()));
    assert_eq!(verify_iranian_national_id("787833770"), Ok(()));
}

#[test]
fn sheba_iso7064_mod97_test() {
    assert_eq!(sheba_iso7064_mod97("820540102680020817909002"), Ok(1));
    assert_eq!(sheba_iso7064_mod97("550570022080013447370101"), Ok(6));
    assert_eq!(sheba_iso7064_mod97("012345678901234567890123456789"), Ok(44));
    assert_eq!(sheba_iso7064_mod97("01234567890123456789"), Ok(10));
    assert_eq!(sheba_iso7064_mod97("012345678901234567890123"), Ok(19));
}

#[test]
fn is_sheba_valid_test() {
    assert_eq!(is_sheba_valid("IR820540102680020817909002"), Ok(()));
    assert_eq!(is_sheba_valid("IR550570022080013447370101"), Ok(()));

    assert_eq!(is_sheba_valid("IR01234567890123456789"), Err(E::InvalidLength(20)));
    assert_eq!(
        is_sheba_valid("IR012345678901234567890123456789"),
        Err(E::InvalidLength(30))
    );
    assert_eq!(is_sheba_valid("IR012345678901234567890123"), Err(E::InvalidChecksum));
    assert_eq!(is_sheba_valid("012345678901234567890123"), Err(E::InvalidChecksum));
}

#[test]
fn get_sheba_info_test() {
    assert_eq!(
        get_sheba_info("IR790610000000700796858044"),
        Ok(ShebaResult {
            code: "061",
            name: "City Bank",
            nickname: "shahr",
            persian_name: "بانک شهر"
        })
    );
    assert_eq!(
        get_sheba_info("IR820540102680020817909002").unwrap().get_nickname(),
        "parsian"
    );
    assert_eq!(
        get_sheba_info("IR550570022080013447370101").unwrap().get_nickname(),
        "pasargad"
    );

    assert_eq!(get_sheba_info("IR012345678901234567890123"), Err(E::InvalidChecksum));
    assert_eq!(get_sheba_info("IR012345678A01234567890123"), Err(E::InvalidDigit));
}

#[test]
fn card_number_validation() {
    assert_eq!(verify_card_number("6037701689095443"), Ok(()));
    assert_eq!(verify_card_number("6219861034529007"), Ok(()));
}

#[test]
fn card_number_validation_falsy() {
    assert_eq!(
        verify_card_number("62198610345290078"),
        Err(VerifyCardNumberError::InvalidLength)
    );
    assert_eq!(
        verify_card_number("621986103452900"),
        Err(VerifyCardNumberError::InvalidLength)
    );
    assert_eq!(verify_card_number("0"), Err(VerifyCardNumberError::InvalidLength));
    assert_eq!(
        verify_card_number("6219861A34529008"),
        Err(VerifyCardNumberError::InvalidDigit)
    );
    assert_eq!(
        verify_card_number("6219861034529008"),
        Err(VerifyCardNumberError::InvalidCardNumber)
    );
}

use persian_tools::number_plate::get_plate_info;
use persian_tools::number_plate::helpers::is_plate_number_valid;
use persian_tools::number_plate::helpers::normalize_plate;
use persian_tools::number_plate::CarPlateDetail;
use persian_tools::number_plate::MotorcyclePlateDetail;
use persian_tools::number_plate::NormalizedPlate;
use persian_tools::number_plate::Plate;
use persian_tools::number_plate::PlateResultDetails;
use persian_tools::number_plate::PlateTypes;
use persian_tools::phone_number::get_operator_prefix;
use persian_tools::phone_number::get_phone_prefix;
use persian_tools::phone_number::is_phone_valid;
use persian_tools::phone_number::operators::get_phone_details;
use persian_tools::phone_number::operators::get_prefix_details;
use persian_tools::phone_number::operators::OperatorDetails;
use persian_tools::phone_number::operators::Operator;
use persian_tools::phone_number::operators::SimType;
use persian_tools::phone_number::phone_number_normalizer;

#[test]
fn should_parse_to_normalized_plate() {
    let plate_object = normalize_plate("1234567الف");
    assert_eq!(
        plate_object,
        NormalizedPlate { numbers: "1234567".to_owned(), char: Some("الف".to_owned()) }
    );
}

#[test]
fn should_parse_plate_with_no_alphabet_char() {
    let plate_object = normalize_plate("1234567");
    assert_eq!(
        plate_object,
        NormalizedPlate { numbers: "1234567".to_owned(), char: None }
    );
}

#[test]
fn should_validate_car_plate() {
    assert!(is_plate_number_valid("1234564"));
    assert!(is_plate_number_valid("12345678"));
    assert!(is_plate_number_valid("12345670"));

    assert!(!is_plate_number_valid("1230567"));
    assert!(!is_plate_number_valid("12305678"));
    assert!(!is_plate_number_valid("1ی23456"));
    assert!(!is_plate_number_valid("1234f560"));
    assert!(!is_plate_number_valid("123450d0"));
}

#[test]
fn should_validate_motorcycle_plate() {
    assert!(is_plate_number_valid("12345678"));
}

#[test]
fn should_validate_zero_as_last_number() {
    assert!(is_plate_number_valid("12345670"));
    assert!(is_plate_number_valid("1234560"));
}

#[test]
fn should_return_false_for_invalid_cases() {
    assert!(!is_plate_number_valid("1230567"));
    assert!(!is_plate_number_valid("12305678"));
    assert!(!is_plate_number_valid("1ی23456"));
    assert!(!is_plate_number_valid("1234f560"));
    assert!(!is_plate_number_valid("123450d0"));
}

#[test]
fn should_parse_car_plate() {
    let plate_result = get_plate_info("1214547ب").unwrap();
    let template: String = format!("12{}145{}47", "ب", "ایران");
    let details = CarPlateDetail {
        first_two_digits: "12".to_owned(),
        plate_character: "ب".to_owned(),
        next_three_digits: "145".to_owned(),
        province_code: "47".to_owned(),
    };
    let plate_info = Plate {
        plate_type: PlateTypes::Car,
        template,
        province: "مرکزی".to_string(),
        category: Some("شخصی".to_string()),
        details: PlateResultDetails::CarDetail(details),
    };
    assert_eq!(plate_result, plate_info);
}

#[test]
fn should_return_error() {
    let plate_result = get_plate_info("1214501");
    assert!(plate_result.is_err());
}

#[test]
fn should_parse_motorcycle_plate() {
    let plate_result = get_plate_info("12145478").unwrap();

    let details = MotorcyclePlateDetail {
        digits: "45478".to_owned(),
        province_code: "121".to_owned(),
    };

    let plate_info = Plate {
        plate_type: PlateTypes::Motorcycle,
        template: "121-45478".to_owned(),
        province: "مرکز تهران".to_string(),
        category: None,
        details: PlateResultDetails::MotorcycleDetail(details),
    };
    assert_eq!(plate_result, plate_info);
}

#[test]
fn should_return_invalid_for_false_car_charachter() {
    let plate_result = get_plate_info("1214547f");
    assert!(plate_result.is_err());
}

#[test]
fn check_phone_number_valid() {
    assert!(is_phone_valid("9122221811").is_ok());
    assert!(is_phone_valid("09122221811").is_ok());
    assert!(is_phone_valid("+989122221811").is_ok());
    assert!(is_phone_valid("12903908").is_err());
    assert!(is_phone_valid("901239812390812908").is_err());
}

#[test]
fn test_phone_number_normilizer() {
    assert_eq!(
        phone_number_normalizer("+989373708555", "0").unwrap(),
        "09373708555".to_string()
    );
    assert_eq!(
        phone_number_normalizer("989373708555", "0").unwrap(),
        "09373708555".to_string()
    );
    assert_eq!(
        phone_number_normalizer("00989022002580", "0").unwrap(),
        "09022002580".to_string()
    );
    assert_eq!(
        phone_number_normalizer("09122002580", "0").unwrap(),
        "09122002580".to_string()
    );
    assert_eq!(
        phone_number_normalizer("9322002580", "0").unwrap(),
        "09322002580".to_string()
    );

    assert_eq!(
        phone_number_normalizer("09373708555", "+98").unwrap(),
        "+989373708555".to_string()
    );
    assert_eq!(
        phone_number_normalizer("09022002580", "+98").unwrap(),
        "+989022002580".to_string()
    );
    assert_eq!(
        phone_number_normalizer("09122002580", "+98").unwrap(),
        "+989122002580".to_string()
    );
    assert_eq!(
        phone_number_normalizer("9322002580", "+98").unwrap(),
        "+989322002580".to_string()
    );
    assert_eq!(
        phone_number_normalizer("00989022002580", "+98").unwrap(),
        "+989022002580".to_string()
    );
}

#[test]
fn test_phone_number_normilizer_invalid_phone() {
    assert!(phone_number_normalizer("09132222", "+98").is_err());
    assert!(phone_number_normalizer("9191282819921", "0").is_err());
}

#[test]
fn test_operator_prefix() {
    assert_eq!(get_operator_prefix("+989373708555").unwrap(), "937");
    assert_eq!(get_operator_prefix("00989013708555").unwrap(), "901");
    assert!(get_operator_prefix("00988013708555").is_err());
}

#[test]
fn phone_prefix_lookup() {
    assert_eq!(get_phone_prefix("00989122221811").unwrap(), "0098");
    assert_eq!(get_phone_prefix("09122221811").unwrap(), "0");
    assert!(get_phone_prefix("29122221811").is_err());
}

#[test]
fn test_get_phone_prefix_operator() {
    assert_eq!(
        get_prefix_details("904").unwrap(),
        OperatorDetails::new(
            "کشوری",
            vec![],
            vec![SimType::Credit],
            Operator::Irancell,
            Some("سیم‌کارت کودک"),
        ),
    );

    assert_eq!(
        get_prefix_details("910").unwrap(),
        OperatorDetails::new(
            "کشوری",
            vec![],
            vec![SimType::Permanent, SimType::Credit],
            Operator::MCI,
            None,
        ),
    );

    assert!(get_prefix_details("9100").is_err());
}

#[test]
fn test_get_phone_details() {
    assert_eq!(
        get_phone_details("09195431812").unwrap(),
        OperatorDetails::new(
            "تهران",
            vec!["البرز", "سمنان", "قم", "قزوین", "زنجان"],
            vec![SimType::Credit],
            Operator::MCI,
            None,
        ),
    );

    assert!(get_phone_details("009195431812").is_err());
}

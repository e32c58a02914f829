use directory_domain::common::error::AppError;
use directory_domain::domain::vo::phone::{
    digits_only, digits_to_e164_guess, is_e164_str, normalize_br, normalize_us, Country, Phone,
    PhoneLike,
};

fn build(raw: &str) -> Phone {
    Phone::new(raw.to_string()).unwrap()
}

#[test]
fn us_number_with_separators_is_normalised_and_tagged() {
    let p = build("415-867-5309");
    assert_eq!(p.value(), "+14158675309");
    assert_eq!(p.country(), Country::US);
}

#[test]
fn every_ten_digit_us_number_gets_plus_one_in_front() {
    for d in ["2002000000", "9999999999", "4158675309", "2125551234", "8002001000"] {
        let p = build(d);
        assert_eq!(p.value(), format!("+1{}", d));
        assert_eq!(p.country(), Country::US);
    }
}

#[test]
fn us_number_with_leading_one_loses_it() {
    let p = build("1 (415) 867-5309");
    assert_eq!(p.value(), "+14158675309");
    assert_eq!(p.country(), Country::US);
}

#[test]
fn br_mobile_is_normalised_and_tagged() {
    let p = build("11987654321");
    assert_eq!(p.value(), "+5511987654321");
    assert_eq!(p.country(), Country::BR);
}

#[test]
fn br_numbers_with_and_without_country_code() {
    let p = build("55 (11) 98765-4321");
    assert_eq!(p.value(), "+5511987654321");
    assert_eq!(p.country(), Country::BR);
    let q = build("55 11 3456-7890");
    assert_eq!(q.value(), "+551134567890");
    assert_eq!(q.country(), Country::BR);
    let r = build("0134567890");
    assert_eq!(r.value(), "+550134567890");
    assert_eq!(r.country(), Country::BR);
}

#[test]
fn strict_e164_is_accepted_unchanged_before_any_other_reading() {
    let p = build("+442071838750");
    assert_eq!(p.value(), "+442071838750");
    assert_eq!(p.country(), Country::E164);
    let q = build("  +14158675309\t");
    assert_eq!(q.value(), "+14158675309");
    assert_eq!(q.country(), Country::E164);
    let r = build("+5511987654321");
    assert_eq!(r.country(), Country::E164);
}

#[test]
fn permissive_guess_takes_what_nothing_else_reads() {
    let p = build("44 20 7183 8750 1");
    assert_eq!(p.value(), "+4420718387501");
    assert_eq!(p.country(), Country::E164);
    let q = build("12345678");
    assert_eq!(q.value(), "+12345678");
    assert_eq!(q.country(), Country::E164);
    let r = build("123456789012345");
    assert_eq!(r.value(), "+123456789012345");
}

#[test]
fn unsupported_numbers_are_rejected_with_the_phone_code() {
    for raw in ["", "   ", "abc", "1234567", "01234567", "1234567890123456", "+0123", "+"] {
        match Phone::new(raw.to_string()) {
            Err(AppError::Validation(data)) => {
                assert_eq!(data.code, "invalid-phone", "input {:?}", raw);
                assert_eq!(data.message, "Invalid or unsupported phone format");
                assert!(data.args.is_none());
                assert!(data.cause.is_none());
            }
            other => panic!("expected Validation error for {:?}, got: {:?}", raw, other),
        }
    }
}

#[test]
fn us_numbers_that_break_the_numbering_plan_are_not_us() {
    assert_eq!(normalize_us("0158675309"), None);
    assert_eq!(normalize_us("1158675309"), None);
    assert_eq!(normalize_us("4150675309"), None);
    assert_eq!(normalize_us("4151675309"), None);
    assert_eq!(normalize_us("21234567890"), None);
    assert_eq!(normalize_us("415867530"), None);
    assert_eq!(normalize_us("4158675309"), Some("+14158675309".to_string()));
    assert_eq!(normalize_us("14158675309"), Some("+14158675309".to_string()));
    // falls through to the Brazilian reading, which takes any ten digits
    let p = build("0158675309");
    assert_eq!(p.country(), Country::BR);
    assert_eq!(p.value(), "+550158675309");
}

#[test]
fn helper_readings_give_exact_values() {
    assert_eq!(digits_only("+1 (415) 867-5309 ext. 7"), "141586753097");
    assert_eq!(digits_only("\u{663}\u{664}1"), "1");
    assert_eq!(normalize_br("5511987654321"), Some("+5511987654321".to_string()));
    assert_eq!(normalize_br("551198765432"), Some("+551198765432".to_string()));
    assert_eq!(normalize_br("55119876543"), None);
    assert_eq!(normalize_br("1198765432"), Some("+551198765432".to_string()));
    assert_eq!(normalize_br("5512345678"), None);
    assert_eq!(normalize_br("555512345678"), Some("+555512345678".to_string()));
    assert_eq!(normalize_br("123456789"), None);
    assert_eq!(normalize_br("123456789012"), None);
    assert_eq!(digits_to_e164_guess("1234567"), None);
    assert_eq!(digits_to_e164_guess("1234567890123456"), None);
    assert_eq!(digits_to_e164_guess("012345678"), None);
    assert_eq!(digits_to_e164_guess("12-34-56-78"), Some("+12345678".to_string()));
}

#[test]
fn validate_holds_of_every_phone_built() {
    for raw in ["415-867-5309", "11987654321", "+442071838750", "44 20 7183 8750 1"] {
        let p = build(raw);
        assert!(p.validate().is_ok());
        assert!(PhoneLike::validate(&p).is_ok());
        assert_eq!(PhoneLike::format(&p), p.value());
        assert!(is_e164_str(&p.value()));
    }
}

#[test]
fn phone_round_trip_gives_an_equal_value() {
    for raw in ["415-867-5309", "11987654321", "+442071838750", "44 20 7183 8750 1"] {
        let first = build(raw);
        let second = build(&first.value());
        assert_eq!(first.value(), second.value());
        assert_eq!(second.country(), Country::E164);
    }
}

#[test]
fn strict_form_agrees_with_the_pattern_it_was_written_from() {
    let re = regex::Regex::new(r"^\+[1-9]\d{1,14}$").unwrap();
    let samples = [
        "", "+", "+1", "+12", "+123", "+012", "+1234567890123456", "+123456789012345",
        "+12345678901234", "12345", "+12a45", "+12 45", " +1245", "+1245 ", "+1245\n", "++1245",
        "+91245", "+9", "+99", "-1245", "+12.45",
    ];
    for s in samples {
        assert_eq!(is_e164_str(s), re.is_match(s), "input {:?}", s);
    }
}

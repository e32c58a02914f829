use directory_domain::common::error::AppError;
use directory_domain::domain::vo::description::Description;
use directory_domain::domain::vo::geopoint::{GeoPoint, LATITUDE_LIMIT, LONGITUDE_LIMIT};
use directory_domain::domain::vo::name::Name;
use directory_domain::domain::vo::photo::Photo;
use directory_domain::domain::vo::url::Url;

fn point(lat: f64, lon: f64) -> Result<GeoPoint, AppError> {
    GeoPoint::new(lat.to_bits(), lon.to_bits())
}

#[test]
fn name_is_trimmed_and_bounded() {
    assert_eq!(Name::new("  John Doe ").unwrap().value(), "John Doe");
    assert_eq!(Name::new("x").unwrap().value(), "x");
    let longest = "n".repeat(120);
    assert_eq!(Name::new(&longest).unwrap().value(), longest);
    let padded = format!(" \t{}\n", longest);
    assert_eq!(Name::new(&padded).unwrap().value(), longest);
}

#[test]
fn name_of_no_length_or_over_length_is_rejected() {
    let too_long = "n".repeat(121);
    // 61 chars of two bytes each: 122 bytes
    let too_many_bytes = "\u{e9}".repeat(61);
    for raw in ["", "   ", "\n\t", too_long.as_str(), too_many_bytes.as_str()] {
        match Name::new(raw) {
            Err(AppError::Validation(data)) => {
                assert_eq!(data.code, "invalid-field");
                assert_eq!(data.message, "name must be 1..=120 characters");
                assert!(data.args.is_none());
                assert!(data.cause.is_none());
            }
            other => panic!("expected Validation error for {:?}, got: {:?}", raw, other),
        }
    }
    assert!(Name::new(&"\u{e9}".repeat(60)).is_ok());
}

#[test]
fn name_round_trip_gives_an_equal_value() {
    let first = Name::new("  Maria da Silva  ").unwrap();
    let second = Name::new(&first.value()).unwrap();
    assert_eq!(first, second);
    assert_eq!(first.clone(), first);
    assert!(first != Name::new("Maria").unwrap());
}

#[test]
fn description_is_trimmed_and_bounded() {
    assert_eq!(Description::new("  open daily ".to_string()).unwrap().value(), "open daily");
    assert_eq!(Description::new("   ".to_string()).unwrap().value(), "");
    assert_eq!(Description::new(String::new()).unwrap().value(), "");
    let longest = "d".repeat(2048);
    assert_eq!(Description::new(format!("  {} ", longest)).unwrap().value(), longest);
    match Description::new("d".repeat(2049)) {
        Err(AppError::Validation(data)) => {
            assert_eq!(data.code, "invalid-description");
            assert_eq!(data.message, "Invalid description.");
        }
        other => panic!("expected Validation error, got: {:?}", other),
    }
}

#[test]
fn description_round_trip_gives_an_equal_value() {
    let first = Description::new(" a b ".to_string()).unwrap();
    let second = Description::new(first.value()).unwrap();
    assert_eq!(first, second);
}

#[test]
fn url_must_start_with_a_web_scheme() {
    assert_eq!(Url::new(" http://example.com ").unwrap().as_str(), "http://example.com");
    assert_eq!(Url::new("https://example.com/a b").unwrap().as_str(), "https://example.com/a b");
    assert_eq!(Url::new("http://").unwrap().as_str(), "http://");
    assert_eq!(Url::new("https://").unwrap().as_str(), "https://");
    for raw in ["", "http:/", "https:/", "ftp://x", "HTTP://x", "example.com", "http//x", "https:x"] {
        assert_eq!(
            Url::new(raw).unwrap_err(),
            "url must start with http:// or https://",
            "input {:?}",
            raw
        );
    }
}

#[test]
fn url_round_trip_gives_an_equal_value() {
    let first = Url::new("  https://example.com/x ").unwrap();
    let second = Url::new(first.as_str()).unwrap();
    assert_eq!(first, second);
    let photo = Photo { url: first.clone(), title: Some("front".to_string()) };
    assert_eq!(photo.clone().url, first);
}

#[test]
fn coordinate_limits_are_the_bits_of_90_and_180() {
    assert_eq!(LATITUDE_LIMIT, 90.0f64.to_bits());
    assert_eq!(LONGITUDE_LIMIT, 180.0f64.to_bits());
}

#[test]
fn geocoordinate_boundaries() {
    assert!(point(90.0, 180.0).is_ok());
    assert!(point(-90.0, -180.0).is_ok());
    assert!(point(90.0000001, 0.0).is_err());
    assert!(point(0.0, 180.0000001).is_err());
    assert!(point(-90.0000001, 0.0).is_err());
    assert!(point(0.0, -180.0000001).is_err());
    assert!(point(0.0, 0.0).is_ok());
    assert!(point(-0.0, -0.0).is_ok());
    assert!(point(f64::NAN, 0.0).is_err());
    assert!(point(0.0, f64::NAN).is_err());
    assert!(point(f64::INFINITY, 0.0).is_err());
    assert!(point(0.0, f64::NEG_INFINITY).is_err());
    assert!(point(f64::MIN_POSITIVE, -f64::MIN_POSITIVE).is_ok());
    assert!(point(91.0, 0.0).is_err());
    assert!(point(-23.55052, -46.633308).is_ok());
}

#[test]
fn geocoordinate_check_agrees_with_the_ranges_on_doubles() {
    let values = [
        0.0,
        -0.0,
        1e-300,
        45.5,
        89.99999999999999,
        90.0,
        90.00000000000001,
        179.99999999999997,
        180.0,
        180.00000000000003,
        1e300,
        f64::INFINITY,
        f64::NAN,
    ];
    for a in values {
        for b in values {
            for (lat, lon) in [(a, b), (-a, b), (a, -b), (-a, -b)] {
                let expected = (-90.0..=90.0).contains(&lat) && (-180.0..=180.0).contains(&lon);
                assert_eq!(point(lat, lon).is_ok(), expected, "point ({}, {})", lat, lon);
            }
        }
    }
}

#[test]
fn rejected_coordinates_carry_the_code() {
    match point(90.0000001, 0.0) {
        Err(AppError::Validation(data)) => {
            assert_eq!(data.code, "invalid-latitude-longitude");
            assert_eq!(data.message, "Invalid latitude/longitude");
        }
        other => panic!("expected Validation error, got: {:?}", other),
    }
}

#[test]
fn geopoint_round_trip_gives_an_equal_value() {
    let first = point(-23.5, 46.25).unwrap();
    let (lat, lon) = first.value();
    assert_eq!(f64::from_bits(lat), -23.5);
    assert_eq!(f64::from_bits(lon), 46.25);
    let second = GeoPoint::new(lat, lon).unwrap();
    assert_eq!(first, second);
}

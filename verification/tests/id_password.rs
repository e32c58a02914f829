use directory_domain::common::error::AppError;
use directory_domain::domain::vo::id::Id;
use directory_domain::domain::vo::password::Password;

#[test]
fn id_is_read_from_the_canonical_text_and_written_back() {
    let text = "550e8400-e29b-41d4-a716-446655440000";
    let id = Id::new_from_string(text.to_string()).unwrap();
    assert_eq!(id.value(), text);
    assert_eq!(id, Id::new_from_uuid(0x550e8400_e29b_41d4_a716_446655440000).unwrap());
}

#[test]
fn id_is_read_from_the_other_forms_of_a_uuid() {
    let canonical = "a1a2a3a4-b1b2-c1c2-d1d2-d3d4d5d6d7d8";
    for text in [
        "a1a2a3a4b1b2c1c2d1d2d3d4d5d6d7d8",
        "A1A2A3A4-B1B2-C1C2-D1D2-D3D4D5D6D7D8",
        "{a1a2a3a4-b1b2-c1c2-d1d2-d3d4d5d6d7d8}",
        "urn:uuid:a1a2a3a4-b1b2-c1c2-d1d2-d3d4d5d6d7d8",
    ] {
        let id = Id::new_from_string(text.to_string()).unwrap();
        assert_eq!(id.value(), canonical);
    }
}

#[test]
fn id_text_has_the_digits_of_the_value_in_groups() {
    assert_eq!(
        Id::new_from_uuid(0).unwrap().value(),
        "00000000-0000-0000-0000-000000000000"
    );
    assert_eq!(
        Id::new_from_uuid(u128::MAX).unwrap().value(),
        "ffffffff-ffff-ffff-ffff-ffffffffffff"
    );
    assert_eq!(
        Id::new_from_uuid(0x0123456789abcdef_fedcba9876543210).unwrap().value(),
        "01234567-89ab-cdef-fedc-ba9876543210"
    );
}

#[test]
fn text_that_spells_no_uuid_is_rejected_and_named() {
    for text in ["", "not-a-uuid", "550e8400-e29b-41d4-a716-44665544000", "g50e8400-e29b-41d4-a716-446655440000"] {
        match Id::new_from_string(text.to_string()) {
            Err(AppError::Validation(data)) => {
                assert_eq!(data.code, "invalid-uuid");
                assert_eq!(data.message, "Invalid UUID");
                let args = data.args.expect("the offending text is named");
                assert_eq!(args.len(), 1);
                assert_eq!(args.get("id"), Some(text.to_string()));
                assert!(data.cause.is_none());
            }
            other => panic!("expected Validation error for {:?}, got: {:?}", text, other),
        }
    }
}

#[test]
fn fresh_ids_are_version_7_distinct_and_ordered() {
    let a = Id::new().unwrap();
    let b = Id::new().unwrap();
    assert_ne!(a, b);
    let text = a.value();
    assert_eq!(text.len(), 36);
    assert_eq!(text.as_bytes()[14], b'7');
    assert!(matches!(text.as_bytes()[19], b'8' | b'9' | b'a' | b'b'));
    assert!(a.value() < b.value());
}

#[test]
fn id_round_trip_gives_an_equal_value() {
    let first = Id::new().unwrap();
    let second = Id::new_from_string(first.value()).unwrap();
    assert_eq!(first, second);
    assert_eq!(first.value(), second.value());
}

#[test]
fn password_is_kept_as_the_hex_of_its_sha256() {
    assert_eq!(
        Password::new("abc".to_string()).unwrap().value(),
        "ba7816bf8f01cfea414140de5dae2223b00361a396177a9cb410ff61f20015ad"
    );
    assert_eq!(
        Password::new(String::new()).unwrap().value(),
        "e3b0c44298fc1c149afbf4c8996fb92427ae41e4649b934ca495991b7852b855"
    );
    assert_eq!(
        Password::new("s3cr3t".to_string()).unwrap().value(),
        Password::new("s3cr3t".to_string()).unwrap().value()
    );
    assert_ne!(
        Password::new("s3cr3t".to_string()).unwrap().value(),
        Password::new("s3cr3T".to_string()).unwrap().value()
    );
}

#[test]
fn hashed_value_is_wrapped_as_it_is() {
    let digest = Password::new("abc".to_string()).unwrap().value();
    let again = Password::new_from_hashed_value(digest.clone());
    assert_eq!(again.value(), digest);
    assert_eq!(again.clone().value(), digest);
    assert_eq!(Password::new_from_hashed_value("anything".to_string()).value(), "anything");
}

use directory_domain::domain::vo::temporal::{Date, DateTime};

#[test]
fn datetime_new_works_and_formats() {
    let dt = DateTime::new();
    let s = dt.value();
    // Expect a non-empty formatted string like "YYYY-MM-DD HH:MM:SS"
    assert!(!s.is_empty(), "formatted DateTime should not be empty");
    assert!(
        s.len() >= 19,
        "formatted DateTime should have at least 19 chars, got {}",
        s.len()
    );
}

#[test]
fn date_new_works_and_formats() {
    let d = Date::new();
    let s = d.value();
    // Expect a non-empty formatted string like "YYYY-MM-DD"
    assert!(!s.is_empty(), "formatted Date should not be empty");
    assert!(
        s.len() >= 10,
        "formatted Date should have at least 10 chars, got {}",
        s.len()
    );
}

#[test]
fn known_moments_are_written_exactly() {
    let cases: [(i64, u32, &str); 9] = [
        (0, 0, "1970-01-01 00:00:00"),
        (1431648000, 0, "2015-05-15 00:00:00"),
        (1_000_000_000, 999_999_999, "2001-09-09 01:46:40"),
        (951_782_399, 0, "2000-02-28 23:59:59"),
        (951_782_400, 0, "2000-02-29 00:00:00"),
        (-1, 0, "1969-12-31 23:59:59"),
        (253_402_300_799, 0, "9999-12-31 23:59:59"),
        (253_402_300_800, 0, "+10000-01-01 00:00:00"),
        (-62_167_219_201, 0, "-0001-12-31 23:59:59"),
    ];
    for (secs, nanos, text) in cases {
        let moment = DateTime::from_timestamp(secs, nanos).expect("a moment of the calendar");
        assert_eq!(moment.value(), text);
        assert_eq!(moment.to_chono_date_time(), (secs, nanos));
        assert_eq!(moment.clone().value(), text);
        let expected = chrono::DateTime::from_timestamp(secs, nanos)
            .unwrap()
            .format("%Y-%m-%d %H:%M:%S")
            .to_string();
        assert_eq!(moment.value(), expected);
    }
}

#[test]
fn a_leap_second_is_written_as_second_sixty() {
    let moment = DateTime::from_timestamp(1_483_228_799, 1_500_000_000).unwrap();
    assert_eq!(moment.value(), "2016-12-31 23:59:60");
}

#[test]
fn timestamps_off_the_calendar_give_no_moment() {
    assert!(DateTime::from_timestamp(i64::MAX, 0).is_none());
    assert!(DateTime::from_timestamp(i64::MIN, 0).is_none());
    assert!(DateTime::from_timestamp(0, 2_000_000_000).is_none());
    assert!(DateTime::from_timestamp(0, 1_000_000_000).is_none());
    assert!(DateTime::from_timestamp(59, 1_000_000_000).is_some());
}

#[test]
fn the_day_of_a_moment_is_written_exactly() {
    let cases: [(i64, &str); 5] = [
        (0, "1970-01-01"),
        (1431648000, "2015-05-15"),
        (951_782_400, "2000-02-29"),
        (253_402_300_800, "+10000-01-01"),
        (-62_135_596_801, "0000-12-31"),
    ];
    for (secs, text) in cases {
        let day = Date::of(&DateTime::from_timestamp(secs, 0).unwrap());
        assert_eq!(day.value(), text);
    }
}

#[test]
fn now_is_after_the_epoch_and_agrees_with_the_clock() {
    let before = chrono::Utc::now().timestamp();
    let now = DateTime::new();
    let after = chrono::Utc::now().timestamp();
    let (secs, nanos) = now.to_chono_date_time();
    assert!(before <= secs && secs <= after);
    assert!(nanos < 1_000_000_000);
    assert_eq!(DateTime::default().value().len(), 19);
    let today = Date::of(&now);
    assert_eq!(today.value(), &now.value()[..10]);
}

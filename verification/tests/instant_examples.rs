use fintrak::instant::Instant;

#[test]
fn dates_are_read_in_relaxed_notation() {
    let expected = Some(Instant { seconds: 1355314332, nanos: 0 });
    assert_eq!(Instant::parse("2012-12-12T12:12:12Z"), expected);
    assert_eq!(Instant::parse("2012-12-12 12:12:12Z"), expected);
    assert_eq!(Instant::parse("2012-12-12 12:12:12+0000"), expected);
    assert_eq!(Instant::parse("2012-12-12 12:12:12+00:00"), expected);
    assert_eq!(Instant::parse("2012-12-12 12:12:12 UTC"), expected);
    assert_eq!(Instant::parse("2012-12-12 14:12:12+02:00"), expected);
}

#[test]
fn fractions_of_a_second_are_kept() {
    assert_eq!(
        Instant::parse("1970-01-01 00:01:00.789012345 UTC"),
        Some(Instant { seconds: 60, nanos: 789_012_345 })
    );
    assert_eq!(
        Instant::parse("1969-12-31T23:59:59.5Z"),
        Some(Instant { seconds: -1, nanos: 500_000_000 })
    );
}

#[test]
fn malformed_dates_are_rejected() {
    assert_eq!(Instant::parse(""), None);
    assert_eq!(Instant::parse("yesterday"), None);
    assert_eq!(Instant::parse("2012-12-12"), None);
    assert_eq!(Instant::parse("2012-13-12T12:12:12Z"), None);
    assert_eq!(Instant::parse("2012-12-12T12:12:12"), None);
    assert_eq!(Instant::parse("2012-12-12T12:12:12Z and more"), None);
}

#[test]
fn minutes_are_rounded_toward_zero() {
    let at = |seconds: i64, nanos: u32| Instant { seconds, nanos };
    assert_eq!(at(120, 0).minutes_since(&at(0, 0)), 2);
    assert_eq!(at(120, 0).minutes_since(&at(0, 1)), 1);
    assert_eq!(at(119, 999_999_999).minutes_since(&at(0, 0)), 1);
    assert_eq!(at(59, 0).minutes_since(&at(0, 0)), 0);
    assert_eq!(at(0, 0).minutes_since(&at(59, 0)), 0);
    assert_eq!(at(0, 0).minutes_since(&at(60, 0)), -1);
    assert_eq!(at(0, 1).minutes_since(&at(120, 0)), -1);
    assert_eq!(at(0, 0).minutes_since(&at(120, 0)), -2);
    assert_eq!(at(5, 5).minutes_since(&at(5, 5)), 0);
}

#[test]
fn the_widest_spans_are_measured() {
    let first = Instant { seconds: i64::MIN, nanos: 0 };
    let last = Instant { seconds: i64::MAX, nanos: u32::MAX };
    assert_eq!(last.minutes_since(&first), 307445734561825860);
    assert_eq!(first.minutes_since(&last), -307445734561825860);
}

#[test]
fn eight_days_are_11520_minutes() {
    let now = Instant::parse("2024-11-30T12:00:00Z").unwrap();
    let then = Instant::parse("2024-11-22T12:00:00Z").unwrap();
    assert_eq!(now.minutes_since(&then), 11520);
}

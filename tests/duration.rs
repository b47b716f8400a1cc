use lastsignal::duration::{ConfigDuration, DurationError};

#[test]
fn test_parse_seconds() {
    assert_eq!("30s".parse::<ConfigDuration>().unwrap().as_secs(), 30);
    assert_eq!("45sec".parse::<ConfigDuration>().unwrap().as_secs(), 45);
    assert_eq!("60seconds".parse::<ConfigDuration>().unwrap().as_secs(), 60);
}

#[test]
fn test_parse_minutes() {
    assert_eq!("5m".parse::<ConfigDuration>().unwrap().as_secs(), 300);
    assert_eq!("10min".parse::<ConfigDuration>().unwrap().as_secs(), 600);
    assert_eq!("15minutes".parse::<ConfigDuration>().unwrap().as_secs(), 900);
}

#[test]
fn test_parse_hours() {
    assert_eq!("2h".parse::<ConfigDuration>().unwrap().as_secs(), 7200);
    assert_eq!("3hr".parse::<ConfigDuration>().unwrap().as_secs(), 10800);
    assert_eq!("4hours".parse::<ConfigDuration>().unwrap().as_secs(), 14400);
}

#[test]
fn test_parse_days() {
    assert_eq!("1d".parse::<ConfigDuration>().unwrap().as_secs(), 86400);
    assert_eq!("7day".parse::<ConfigDuration>().unwrap().as_secs(), 604800);
    assert_eq!("30days".parse::<ConfigDuration>().unwrap().as_secs(), 2592000);
}

#[test]
fn test_display() {
    assert_eq!(ConfigDuration::from_seconds(30).to_string(), "30s");
    assert_eq!(ConfigDuration::from_minutes(5).to_string(), "5m");
    assert_eq!(ConfigDuration::from_hours(2).to_string(), "2h");
    assert_eq!(ConfigDuration::from_days(7).to_string(), "7d");
}

#[test]
fn test_display_prefers_larger_units() {
    assert_eq!(ConfigDuration::from_seconds(3600).to_string(), "1h");
    assert_eq!(ConfigDuration::from_seconds(86400).to_string(), "1d");
    assert_eq!(ConfigDuration::from_seconds(604800).to_string(), "7d");
}

#[test]
fn test_invalid_durations() {
    assert!("".parse::<ConfigDuration>().is_err());
    assert!("0s".parse::<ConfigDuration>().is_err());
    assert!("5x".parse::<ConfigDuration>().is_err());
    assert!("abc".parse::<ConfigDuration>().is_err());
    assert!("5".parse::<ConfigDuration>().is_err()); // No unit - should fail
}

#[test]
fn test_conversion_methods() {
    let dur = ConfigDuration::from_days(2);
    assert_eq!(dur.as_days(), 2);
    assert_eq!(dur.as_hours(), 48);
    assert_eq!(dur.as_minutes(), 2880);
    assert_eq!(dur.as_secs(), 172800);
}

#[test]
fn duration_errors_name_the_first_problem() {
    assert_eq!(ConfigDuration::parse("   "), Err(DurationError::Empty));
    assert_eq!(ConfigDuration::parse("abc"), Err(DurationError::MissingNumber));
    assert_eq!(ConfigDuration::parse("42"), Err(DurationError::MissingUnit));
    assert_eq!(ConfigDuration::parse("0d"), Err(DurationError::Zero));
    assert_eq!(ConfigDuration::parse("5x"), Err(DurationError::UnknownUnit));
    assert_eq!(
        ConfigDuration::parse("99999999999999999999s"),
        Err(DurationError::InvalidNumber)
    );
    assert_eq!(
        ConfigDuration::parse("18446744073709551615d"),
        Err(DurationError::TooLarge)
    );
}

#[test]
fn duration_parse_ignores_surrounding_and_inner_space() {
    assert_eq!(ConfigDuration::parse("  7 days\t").unwrap().as_secs(), 604800);
    assert_eq!(ConfigDuration::parse("\u{a0}3 h").unwrap().as_secs(), 10800);
    assert_eq!(
        ConfigDuration::parse("18446744073709551615s").unwrap().as_secs(),
        u64::MAX
    );
}

#[test]
fn duration_display_round_trips() {
    for secs in [1u64, 59, 60, 90, 3600, 5400, 86400, 90000, 1209600] {
        let d = ConfigDuration::from_seconds(secs);
        assert_eq!(d.to_string().parse::<ConfigDuration>().unwrap(), d);
    }
    assert_eq!(ConfigDuration::from_seconds(90000).to_string(), "25h");
    assert_eq!(ConfigDuration::from_seconds(0).to_string(), "0d");
}

#[test]
fn duration_as_std_duration() {
    assert_eq!(
        ConfigDuration::from_minutes(3).as_duration(),
        std::time::Duration::from_secs(180)
    );
}

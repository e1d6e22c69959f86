use webtoon::platform::webtoons::originals::{Schedule, Weekday};

#[test]
fn weekday_parses_long_form() {
    assert_eq!(Weekday::from_str("MONDAY").unwrap(), Weekday::Monday);
    assert_eq!(Weekday::from_str("TUESDAY").unwrap(), Weekday::Tuesday);
    assert_eq!(Weekday::from_str("WEDNESDAY").unwrap(), Weekday::Wednesday);
    assert_eq!(Weekday::from_str("THURSDAY").unwrap(), Weekday::Thursday);
    assert_eq!(Weekday::from_str("FRIDAY").unwrap(), Weekday::Friday);
    assert_eq!(Weekday::from_str("SATURDAY").unwrap(), Weekday::Saturday);
    assert_eq!(Weekday::from_str("SUNDAY").unwrap(), Weekday::Sunday);
}

#[test]
fn weekday_parses_short_form() {
    assert_eq!(Weekday::from_str("MON").unwrap(), Weekday::Monday);
    assert_eq!(Weekday::from_str("TUE").unwrap(), Weekday::Tuesday);
    assert_eq!(Weekday::from_str("WED").unwrap(), Weekday::Wednesday);
    assert_eq!(Weekday::from_str("THU").unwrap(), Weekday::Thursday);
    assert_eq!(Weekday::from_str("FRI").unwrap(), Weekday::Friday);
    assert_eq!(Weekday::from_str("SAT").unwrap(), Weekday::Saturday);
    assert_eq!(Weekday::from_str("SUN").unwrap(), Weekday::Sunday);
}

#[test]
fn weekday_trims_whitespace() {
    assert_eq!(Weekday::from_str("  MONDAY  ").unwrap(), Weekday::Monday);
}

#[test]
fn weekday_errors_on_unknown() {
    assert!(Weekday::from_str("FUNDAY").is_err());
    assert!(Weekday::from_str("").is_err());
}

#[test]
fn schedule_parses_daily() {
    assert_eq!(Schedule::from_str("DAILY").unwrap(), Schedule::Daily);
    assert_eq!(Schedule::from_str("EVERYDAY").unwrap(), Schedule::Daily);
}

#[test]
fn schedule_parses_completed() {
    assert_eq!(Schedule::from_str("COMPLETED").unwrap(), Schedule::Completed);
}

#[test]
fn schedule_parses_weekday() {
    assert_eq!(Schedule::from_str("MONDAY").unwrap(), Schedule::Weekday(Weekday::Monday));
}

#[test]
fn schedule_trims_whitespace() {
    assert_eq!(Schedule::from_str("  DAILY  ").unwrap(), Schedule::Daily);
}

#[test]
fn schedule_errors_on_unknown() {
    assert!(Schedule::from_str("FUNDAY").is_err());
    assert!(Schedule::from_str("").is_err());
}

#[test]
fn schedule_try_from_single_weekday() {
    assert_eq!(Schedule::try_from(vec!["MONDAY"]).unwrap(), Schedule::Weekday(Weekday::Monday));
}

#[test]
fn schedule_try_from_daily() {
    assert_eq!(Schedule::try_from(vec!["DAILY"]).unwrap(), Schedule::Daily);
}

#[test]
fn schedule_try_from_completed() {
    assert_eq!(Schedule::try_from(vec!["COMPLETED"]).unwrap(), Schedule::Completed);
}

#[test]
fn schedule_try_from_multiple_weekdays() {
    assert_eq!(
        Schedule::try_from(vec!["MONDAY", "WEDNESDAY", "FRIDAY"]).unwrap(),
        Schedule::Weekdays(vec![Weekday::Monday, Weekday::Wednesday, Weekday::Friday])
    );
}

#[test]
fn schedule_try_from_errors_on_unknown_single() {
    assert!(Schedule::try_from(vec!["FUNDAY"]).is_err());
}

#[test]
fn schedule_try_from_errors_on_unknown_in_multiple() {
    assert!(Schedule::try_from(vec!["MONDAY", "FUNDAY"]).is_err());
}

#[test]
fn schedule_error_holds_the_unknown_text() {
    let err = Schedule::try_from(vec!["MONDAY", "FUNDAY", "TUESDAY"]).unwrap_err();
    assert_eq!(err.0, "FUNDAY");
}

use webtoon::platform::webtoons::webtoon::homepage::{count, subscribers_from_text, views_from_text, Unit};

#[test]
fn should_parse_correct_counts() {
    // --- Billions ---
    assert_eq!(1_300_000_000, count("1.3B", Unit::Billion, Some('.'), Some('B')).unwrap());
    assert_eq!(1_000_000_000, count("1B", Unit::Billion, Some('.'), Some('B')).unwrap());
    assert_eq!(10_500_000_000, count("10.5B", Unit::Billion, Some('.'), Some('B')).unwrap());

    // --- Millions ---
    assert_eq!(1_300_000, count("1.3M", Unit::Million, Some('.'), Some('M')).unwrap());
    assert_eq!(1_000_000, count("1M", Unit::Million, Some('.'), Some('M')).unwrap());
    assert_eq!(1_000_000, count("1.0M", Unit::Million, Some('.'), Some('M')).unwrap());

    // --- Thousands ---
    assert_eq!(112_362, count("112,362", Unit::Thousand, Some(','), None).unwrap());
    assert_eq!(1_005, count("1,005", Unit::Thousand, Some(','), None).unwrap());
    assert_eq!(1_000, count("1,000", Unit::Thousand, Some(','), None).unwrap());

    // --- Hundreds ---
    assert_eq!(999, count("999", Unit::Hundred, None, None).unwrap());
    assert_eq!(0, count("0", Unit::Hundred, None, None).unwrap());
    assert_eq!(1, count("1", Unit::Hundred, None, None).unwrap());
}

#[test]
#[should_panic(
    expected = "`right < 10`: fractional part of abbreviated count on `webtoons.com` Webtoon homepage should be a single digit, got: `55` in `1.55`"
)]
fn should_fail_on_invalid_format() {
    let result = count("1.55B", Unit::Billion, Some('.'), Some('B')).unwrap();
    assert_eq!(1_550_000_000, result);
}

#[test]
fn counts_reject_malformed_text() {
    assert!(count("x", Unit::Hundred, None, None).is_err());
    assert!(count("1.xM", Unit::Million, Some('.'), Some('M')).is_err());
    assert!(count("1,2,3", Unit::Thousand, Some(','), None).is_err());
    assert!(count("1.5", Unit::Hundred, Some('.'), None).is_err());
}

#[test]
fn views_pick_their_unit_from_the_text() {
    assert_eq!(views_from_text("1.3B").unwrap(), 1_300_000_000);
    assert_eq!(views_from_text("4.5M").unwrap(), 4_500_000);
    assert_eq!(views_from_text("469,035").unwrap(), 469_035);
    assert_eq!(views_from_text("999").unwrap(), 999);
    assert!(views_from_text("").is_err());
}

#[test]
fn subscribers_must_fit_a_u32() {
    assert_eq!(subscribers_from_text("4.5M").unwrap(), 4_500_000);
    assert_eq!(subscribers_from_text("469,035").unwrap(), 469_035);
    assert!(subscribers_from_text("5000.0M").is_err());
    assert!(subscribers_from_text("").is_err());
}

#[test]
fn count_errors_name_the_text_and_the_cause() {
    let err = count("1x,5", Unit::Thousand, Some(','), None).unwrap_err();
    assert_eq!(
        err.message(),
        "prefix part of a count on `webtoons.com` Webtoon homepage should be parseable as a `u64`, got: `1x`: invalid digit found in string"
    );
    let err = count("12,", Unit::Thousand, Some(','), None).unwrap_err();
    assert_eq!(
        err.message(),
        "remainder part of a count on `webtoons.com` Webtoon homepage should be parseable as a `u64`, got: ``: cannot parse integer from empty string"
    );
    let err = count("abc", Unit::Hundred, None, None).unwrap_err();
    assert_eq!(
        err.message(),
        "count without separator on `webtoons.com` Webtoon homepage should be parseable as a `u64`, got: `abc`: invalid digit found in string"
    );
    let err = count("1.5", Unit::Hundred, Some('.'), None).unwrap_err();
    assert_eq!(
        err.message(),
        "`webtoons.com` Webtoon homepage count `1.5` should match a known unit (Thousand, Million, or Billion), got unexpected separator split"
    );
}

use webtoon::stdx::base36::Base36;

#[test]
fn base36_display_zero() {
    assert_eq!("0", Base36::new(0).to_string());
}

#[test]
fn base36_display_single_digit() {
    assert_eq!("9", Base36::new(9).to_string());
}

#[test]
fn base36_display_first_alpha_digit() {
    assert_eq!("a", Base36::new(10).to_string());
}

#[test]
fn base36_display_last_single_digit() {
    assert_eq!("z", Base36::new(35).to_string());
}

#[test]
fn base36_display_multi_digit() {
    assert_eq!("idg", Base36::new(23812).to_string());
}

#[test]
fn base36_display_u32_max() {
    assert_eq!("1z141z3", Base36::new(u32::MAX).to_string());
}

#[test]
fn base36_parse_zero() {
    assert_eq!(Base36::new(0), Base36::from_str("0").unwrap());
}

#[test]
fn base36_parse_single_digit() {
    assert_eq!(Base36::new(9), Base36::from_str("9").unwrap());
}

#[test]
fn base36_parse_first_alpha_digit() {
    assert_eq!(Base36::new(10), Base36::from_str("a").unwrap());
}

#[test]
fn base36_parse_last_single_digit() {
    assert_eq!(Base36::new(35), Base36::from_str("z").unwrap());
}

#[test]
fn base36_parse_multi_digit() {
    assert_eq!(Base36::new(23812), Base36::from_str("idg").unwrap());
}

#[test]
fn base36_parse_post_id_example() {
    assert_eq!(Base36::new(49), Base36::from_str("1d").unwrap());
}

#[test]
fn base36_parse_errors_on_invalid_input() {
    assert!(Base36::from_str("!@#").is_err());
    assert!(Base36::from_str("").is_err());
}

#[test]
fn base36_roundtrip() {
    for n in [0, 9, 10, 35, 23812, u32::MAX] {
        let encoded = Base36::new(n).to_string();
        let decoded = Base36::from_str(&encoded).unwrap();
        assert_eq!(Base36::new(n), decoded, "roundtrip failed for {n}");
    }
}

#[test]
fn base36_add_base36() {
    assert_eq!(Base36::new(3), Base36::new(1).add(Base36::new(2)));
}

#[test]
fn base36_add_u32() {
    assert_eq!(Base36::new(3), Base36::new(1).add_u32(2));
}

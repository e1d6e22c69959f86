use webtoon::platform::webtoons::webtoon::post::{Giphy, Sticker};

#[test]
fn sticker_parses_versioned_id() {
    let sticker = Sticker::from_str("wt_001-v2-1").unwrap();
    assert_eq!(sticker.pack_id(), "wt_001");
    assert_eq!(sticker.id(), "wt_001-v2-1");
}

#[test]
fn sticker_parses_unversioned_id() {
    let sticker = Sticker::from_str("wt_001-1").unwrap();
    assert_eq!(sticker.pack_id(), "wt_001");
    assert_eq!(sticker.id(), "wt_001-1");
}

#[test]
fn sticker_pads_pack_number() {
    let sticker = Sticker::from_str("line_7-12").unwrap();
    assert_eq!(sticker.pack_id(), "line_007");
    assert_eq!(sticker.id(), "line_007-12");
}

#[test]
fn sticker_rejects_malformed_ids() {
    assert!(Sticker::from_str("wt001-1").is_err());
    assert!(Sticker::from_str("wt_x-1").is_err());
    assert!(Sticker::from_str("wt_001").is_err());
    assert!(Sticker::from_str("wt_001-v2").is_err());
    assert!(Sticker::from_str("wt_001-v2-1-3").is_err());
    assert!(Sticker::from_str("wt_001-1-3").is_err());
    assert!(Sticker::from_str("wt_001-vx-1").is_err());
}

#[test]
fn giphy_addresses() {
    let gif = Giphy::new(String::from("abc123"));
    assert_eq!(gif.id(), "abc123");
    assert_eq!(gif.thumbnail(), "https://media2.giphy.com/media/abc123/giphy_s.gif");
    assert_eq!(gif.render(), "https://media1.giphy.com/media/abc123/giphy.gif");
}

#[test]
fn sticker_number_errors_carry_the_cause() {
    let err = Sticker::from_str("wt_x-1").unwrap_err();
    assert_eq!(err.message(), "sticker pack number should be a valid `u16`: invalid digit found in string");
    let err = Sticker::from_str("wt_001-v99999-1").unwrap_err();
    assert_eq!(err.message(), "sticker version should be a valid `u16`: number too large to fit in target type");
    let err = Sticker::from_str("wt_001-").unwrap_err();
    assert_eq!(err.message(), "sticker id should be a valid `u16`: cannot parse integer from empty string");
}

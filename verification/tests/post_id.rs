use webtoon::platform::webtoons::webtoon::post::id::{Id, Scope};
use webtoon::stdx::base36::Base36;

fn id(scope: Scope, webtoon: u32, episode: u16, post: u32, reply: Option<u32>) -> Id {
    Id::new(0, scope, webtoon, episode, Base36::new(post), reply.map(Base36::new))
}

#[test]
fn id_should_be_ordered() {
    let forty_nine = id(Scope::W, 95, 1, 49, None);
    let fifty = id(Scope::W, 95, 1, 50, None);
    let fifty_with_reply = id(Scope::W, 95, 1, 50, Some(1));

    assert!(fifty > forty_nine);
    assert!(forty_nine < fifty);

    // Different webtoons cannot be compared
    assert!(fifty.partial_cmp(&"GW-epicom:0-w_96_1-1d").is_none());
    assert!(fifty.partial_cmp(&"GW-epicom:0-w_96_1-1d-1").is_none());

    // Different episodes cannot be compared
    assert!(fifty.partial_cmp(&"GW-epicom:0-w_95_2-1d").is_none());
    assert!(fifty.partial_cmp(&"GW-epicom:0-w_95_2-1d-1").is_none());

    assert!(fifty > "GW-epicom:0-w_95_1-1d");
    assert!(forty_nine < "GW-epicom:0-w_95_1-1d-1");
    assert!(fifty_with_reply > fifty);
}

#[test]
fn post_should_be_ordered() {
    let forty_nine = id(Scope::W, 95, 1, 49, None);
    let fifty = id(Scope::W, 95, 1, 50, None);
    let fifty_with_reply = id(Scope::W, 95, 1, 50, Some(1));

    assert!(fifty > forty_nine);
    assert!(forty_nine < fifty);

    assert!(fifty.partial_cmp(&"GW-epicom:0-w_96_1-1d").is_none());
    assert!(fifty.partial_cmp(&"GW-epicom:0-w_96_1-1d-1").is_none());

    assert!(fifty.partial_cmp(&"GW-epicom:0-w_95_2-1d").is_none());
    assert!(fifty.partial_cmp(&"GW-epicom:0-w_95_2-1d-1").is_none());

    assert!(fifty > "GW-epicom:0-w_95_1-1d");
    assert!(forty_nine < "GW-epicom:0-w_95_1-1d-1");
    assert!(fifty_with_reply > fifty);
}

#[test]
fn id_should_be_equal_str() {
    let plain = id(Scope::W, 95, 1, 49, None);
    let with_reply = id(Scope::W, 95, 1, 49, Some(1));
    // 1d == 49
    assert_eq!(plain, "GW-epicom:0-w_95_1-1d");
    assert_eq!(with_reply, "GW-epicom:0-w_95_1-1d-1");
}

#[test]
fn post_should_be_equal_str() {
    let plain = id(Scope::W, 95, 1, 49, None);
    let with_reply = id(Scope::W, 95, 1, 49, Some(1));
    assert_eq!(plain, "GW-epicom:0-w_95_1-1d");
    assert_eq!(with_reply, "GW-epicom:0-w_95_1-1d-1");
}

#[test]
fn id_should_be_not_equal_str() {
    let plain = id(Scope::W, 95, 1, 49, None);
    assert_ne!(plain, "GW-epicom:0-w_95_2-1d");
    assert_ne!(plain, "GW-epicom:0-w_95_1-1d-1");
}

#[test]
fn post_should_be_not_equal_str() {
    let plain = id(Scope::W, 95, 1, 49, None);
    assert_ne!(plain, "GW-epicom:0-w_95_2-1d");
    assert_ne!(plain, "GW-epicom:0-w_95_1-1d-1");
}

#[test]
fn id_should_turn_post_id_to_string() {
    let plain = id(Scope::W, 95, 1, 49, None);
    assert_eq!("GW-epicom:0-w_95_1-1d", plain.to_string());
}

#[test]
fn post_should_turn_post_id_to_string() {
    let plain = id(Scope::W, 95, 1, 49, None);
    assert_eq!("GW-epicom:0-w_95_1-1d", plain.to_string());
}

#[test]
fn id_should_turn_reply_id_to_string() {
    let reply = id(Scope::C, 656_579, 161, 35, Some(35));
    assert_eq!("GW-epicom:0-c_656579_161-z-z", reply.to_string());
}

#[test]
fn post_should_turn_reply_id_to_string() {
    let reply = id(Scope::C, 656_579, 161, 35, Some(35));
    assert_eq!("GW-epicom:0-c_656579_161-z-z", reply.to_string());
}

#[test]
fn id_should_parse_post_id() {
    let parsed = Id::from_str("GW-epicom:0-w_95_1-1d").unwrap();
    assert_eq!(parsed.scope(), Scope::W);
    assert_eq!(parsed.webtoon(), 95);
    assert_eq!(parsed.episode(), 1);
    assert_eq!(parsed.post(), Base36::new(49));
    assert_eq!(parsed.reply(), None);
}

#[test]
fn post_should_parse_post_id() {
    let parsed = Id::from_str("GW-epicom:0-w_95_1-1d").unwrap();
    assert_eq!(parsed.scope(), Scope::W);
    assert_eq!(parsed.webtoon(), 95);
    assert_eq!(parsed.episode(), 1);
    assert_eq!(parsed.post(), Base36::new(49));
    assert_eq!(parsed.reply(), None);
}

#[test]
fn id_should_parse_reply_id() {
    {
        let parsed = Id::from_str("GW-epicom:0-w_95_1-1d-z").unwrap();
        assert_eq!(parsed.scope(), Scope::W);
        assert_eq!(parsed.webtoon(), 95);
        assert_eq!(parsed.episode(), 1);
        assert_eq!(parsed.post(), Base36::new(49));
        assert_eq!(parsed.reply(), Some(Base36::new(35)));
    }
    {
        let parsed = Id::from_str("GW-epicom:0-c_656579_161-13-1").unwrap();
        assert_eq!(parsed.scope(), Scope::C);
        assert_eq!(parsed.webtoon(), 656_579);
        assert_eq!(parsed.episode(), 161);
        assert_eq!(parsed.post(), Base36::new(39));
        assert_eq!(parsed.reply(), Some(Base36::new(1)));
    }
}

#[test]
fn post_should_parse_reply_id() {
    let parsed = Id::from_str("GW-epicom:0-c_656579_161-13-1").unwrap();
    assert_eq!(parsed.scope(), Scope::C);
    assert_eq!(parsed.webtoon(), 656_579);
    assert_eq!(parsed.episode(), 161);
    assert_eq!(parsed.post(), Base36::new(39));
    assert_eq!(parsed.reply(), Some(Base36::new(1)));
}

#[test]
fn should_skip_unknown_prefix() {
    {
        let parsed = Id::from_str("`1:1300:GW-epicom:0-w_95_1-1d-z").unwrap();
        assert_eq!(parsed.scope(), Scope::W);
        assert_eq!(parsed.webtoon(), 95);
        assert_eq!(parsed.episode(), 1);
        assert_eq!(parsed.post(), Base36::new(49));
        assert_eq!(parsed.reply(), Some(Base36::new(35)));
    }
    {
        let parsed = Id::from_str("10:1:GW-epicom:0-c_656579_161-13-1").unwrap();
        assert_eq!(parsed.scope(), Scope::C);
        assert_eq!(parsed.webtoon(), 656_579);
        assert_eq!(parsed.episode(), 161);
        assert_eq!(parsed.post(), Base36::new(39));
        assert_eq!(parsed.reply(), Some(Base36::new(1)));
    }
}

#[test]
fn id_text_round_trips() {
    for text in ["GW-epicom:0-w_95_1-1d", "GW-epicom:0-c_656579_161-z-z", "GW-epicom:0-w_1_65535-0-1"] {
        let parsed = Id::from_str(text).unwrap();
        assert_eq!(parsed.to_string(), text);
        assert_eq!(Id::from_str(&parsed.to_string()).unwrap(), parsed);
    }
}

#[test]
fn id_rejects_malformed_text() {
    assert!(Id::from_str("no namespace here").is_err());
    assert!(Id::from_str("GW-epicom:0-x_95_1-1d").is_err());
    assert!(Id::from_str("GW-epicom:0-w_95_1").is_err());
}

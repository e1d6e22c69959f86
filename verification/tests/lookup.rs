use webtoon::platform::webtoons::error::ClientError;
use webtoon::platform::webtoons::meta::{Genre, Scope, Type};
use webtoon::platform::webtoons::originals::Schedule;
use webtoon::platform::webtoons::webtoon::homepage::Homepage;
use webtoon::platform::webtoons::webtoon::{lookup_url, Webtoon};

#[test]
fn lookup_urls_by_type() {
    assert_eq!(lookup_url(95, Type::Original), "https://www.webtoons.com/*/*/*/list?title_no=95");
    assert_eq!(lookup_url(1132214, Type::Canvas), "https://www.webtoons.com/*/canvas/*/list?title_no=1132214");
}

#[test]
fn lookup_lands_on_the_homepage() {
    let w = Webtoon::from_lookup(95, "https://www.webtoons.com/en/fantasy/tower-of-god/list?title_no=95").unwrap();
    assert_eq!(w.id, 95);
    assert_eq!(w.scope, Scope::Original(Genre::Fantasy));
    assert_eq!(w.slug, "tower-of-god");
    assert!(matches!(
        Webtoon::from_lookup(95, "https://www.webtoons.com/fr/fantasy/tower-of-god/list?title_no=95"),
        Err(ClientError::UnsupportedLanguage)
    ));
    assert!(matches!(
        Webtoon::from_lookup(95, "https://www.webtoons.com/en/fantasy/tower-of-god/list"),
        Err(ClientError::Internal(_))
    ));
    assert!(matches!(Webtoon::from_lookup(95, "not a url"), Err(ClientError::Internal(_))));
}

fn homepage(schedule: Option<Schedule>) -> Homepage {
    Homepage {
        title: "T".to_owned(),
        creators: Vec::new(),
        genres: vec![Genre::Fantasy],
        summary: "S".to_owned(),
        views: 1,
        subscribers: 1,
        schedule,
        thumbnail: None,
        banner: None,
        pages: 1,
    }
}

#[test]
fn completion_follows_the_schedule() {
    let original = Webtoon::from_url("https://www.webtoons.com/en/fantasy/tower-of-god/list?title_no=95").unwrap();
    assert!(original.is_completed(&homepage(Some(Schedule::Completed))));
    assert!(!original.is_completed(&homepage(Some(Schedule::Daily))));
    let canvas = Webtoon::from_url("https://www.webtoons.com/en/canvas/some-story/list?title_no=1132214").unwrap();
    assert!(!canvas.is_completed(&homepage(Some(Schedule::Completed))));
}

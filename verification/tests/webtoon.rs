use webtoon::platform::webtoons::error::InvalidWebtoonUrl;
use webtoon::platform::webtoons::meta::{Genre, Scope, Type};
use webtoon::platform::webtoons::webtoon::Webtoon;

#[test]
fn webtoon_should_make_webtoon_from_url() {
    let webtoon = Webtoon::from_url("https://www.webtoons.com/en/fantasy/tower-of-god/list?title_no=95").unwrap();
    assert_eq!(webtoon.scope, Scope::Original(Genre::Fantasy));
    assert_eq!(webtoon.slug.as_str(), "tower-of-god");
    assert_eq!(webtoon.id, 95);
}

#[test]
fn mod_should_make_webtoon_from_url() {
    let webtoon = Webtoon::from_url("https://www.webtoons.com/en/fantasy/tower-of-god/list?title_no=95").unwrap();
    assert_eq!(webtoon.scope, Scope::Original(Genre::Fantasy));
    assert_eq!(webtoon.slug.as_str(), "tower-of-god");
    assert_eq!(webtoon.id(), 95);
    assert_eq!(webtoon.webtoon_type(), Type::Original);
    assert!(webtoon.is_original());
}

#[test]
fn canvas_url_gives_a_canvas_webtoon() {
    let webtoon = Webtoon::from_url("https://www.webtoons.com/en/canvas/animals/list?title_no=738855").unwrap();
    assert_eq!(webtoon.scope, Scope::Canvas);
    assert!(webtoon.is_canvas());
    assert_eq!(webtoon.homepage_url(None), "https://www.webtoons.com/en/canvas/animals/list?title_no=738855");
    assert_eq!(webtoon.homepage_url(Some(3)), "https://www.webtoons.com/en/canvas/animals/list?title_no=738855&page=3");
}

fn reason(url: &str) -> String {
    match Webtoon::from_url(url) {
        Err(InvalidWebtoonUrl::Malformed { reason, .. }) => reason,
        other => panic!("expected a malformed url, got {other:?}"),
    }
}

#[test]
fn webtoon_url_errors() {
    assert!(matches!(
        Webtoon::from_url("https://www.webtoons.com/fr/fantasy/tower-of-god/list?title_no=95"),
        Err(InvalidWebtoonUrl::UnsupportedLanguage)
    ));
    assert_eq!(reason("not a url"), "invalid url schema");
    assert_eq!(
        reason("https://www.webtoons.com/en"),
        "provided url didn't have a second segment representing the scope, e.g. `canvas`, `fantasy`"
    );
    assert_eq!(
        reason("https://www.webtoons.com/en/nonsense/x/list?title_no=1"),
        "found an unexpected scope in provided `webtoons.com` url: failed to parse `nonsense` into a known genre"
    );
    assert_eq!(
        reason("https://www.webtoons.com/en/fantasy"),
        "provided url didn't have a third segment representing the slug, e.g. `tower-of-god`"
    );
    assert_eq!(
        reason("https://www.webtoons.com/en/fantasy/tower-of-god/list"),
        "a valid `webtoons.com` Webtoon url should have a `title_no` query, but none was found"
    );
    assert_eq!(reason("https://www.webtoons.com/en/fantasy/tower-of-god/list?title_no"), "`title_no` should always have a `=` separator");
    assert_eq!(reason("https://www.webtoons.com/en/fantasy/tower-of-god/list?page=2"), "provided url did not have a `title_no` query");
    assert_eq!(
        reason("https://www.webtoons.com/en/fantasy/tower-of-god/list?title_no="),
        "provided url had a `title_no` query but nothing after the `=`"
    );
    assert_eq!(
        reason("https://www.webtoons.com/en/fantasy/tower-of-god/list?title_no=9a"),
        "provided url had a `title_no` query but the value was not a valid digit"
    );
    assert_eq!(
        reason("https://www.webtoons.com/en/fantasy/tower-of-god/list?title_no=99999999999"),
        "the `title_no` value was too large to fit in a `u32`: number too large to fit in target type"
    );
}

#[test]
fn invalid_url_displays_its_reason() {
    let err = Webtoon::from_url("not a url").unwrap_err();
    assert_eq!(err.to_string(), "`not a url` was malformed: invalid url schema");
    assert_eq!(InvalidWebtoonUrl::UnsupportedLanguage.to_string(), "only the english `webtoons.com` is supported");
}

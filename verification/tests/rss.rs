use webtoon::platform::webtoons::webtoon::episode::PublishedStatus;
use webtoon::platform::webtoons::webtoon::rss::{episode_from_item, episode_number, published, RssItem};

#[test]
fn should_parse_en_rss_date() {
    let date = published("Tuesday, 10 Sep 2024 16:40:23 GMT").unwrap();
    assert_eq!(Some(1725986423), date.timestamp());
}

#[test]
fn rss_dates_must_be_well_formed() {
    assert!(published("Tuesday, 10 Sep 2024 16:40:23 UTC").is_err());
    assert!(published("Tuesday 10 Sep 2024 16:40:23 GMT").is_err());
    assert!(published("Tuesday, Sep 10 2024 16:40:23 GMT").is_err());
    let d = published("Tuesday, 10 Sep 2024 16:40:23 GMTGMT").unwrap();
    assert_eq!((d.year(), d.month(), d.day(), d.hour()), (2024, 9, 10, Some(16)));
}

#[test]
fn rss_links_give_episode_numbers() {
    let link = "https://www.webtoons.com/en/fantasy/tower-of-god/season-3-ep-190/viewer?title_no=95&episode_no=597";
    assert_eq!(episode_number(link).unwrap(), 597);
    assert!(episode_number("https://www.webtoons.com/en/fantasy/tower-of-god/list?title_no=95").is_err());
    assert!(episode_number("not a url").is_err());
    assert!(episode_number("https://www.webtoons.com/x?episode_no=70000").is_err());
}

#[test]
fn rss_items_become_episodes() {
    let item = RssItem {
        title: Some("Season 3 Ep. 190".to_owned()),
        link: Some("https://www.webtoons.com/en/fantasy/tower-of-god/x/viewer?title_no=95&episode_no=597".to_owned()),
        pub_date: Some("Tuesday, 10 Sep 2024 16:40:23 GMT".to_owned()),
    };
    let e = episode_from_item(&item).unwrap();
    assert_eq!(e.number(), 597);
    assert_eq!(e.title.as_deref(), Some("Season 3 Ep. 190"));
    assert_eq!(e.published.unwrap().timestamp(), Some(1725986423));
    assert_eq!(e.published_status, Some(PublishedStatus::Published));
    let old = RssItem { pub_date: Some("Monday, 10 Sep 2012 16:40:23 GMT".to_owned()), ..item.clone() };
    assert!(episode_from_item(&old).is_err());
    let untitled = RssItem { title: None, ..item };
    assert!(episode_from_item(&untitled).is_err());
}

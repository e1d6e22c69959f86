use webtoon::platform::webtoons::client::api::analytics::AnalyticsEpisode;
use webtoon::platform::webtoons::webtoon::episode::{Episode, Published};
use webtoon::platform::webtoons::webtoon::homepage::listed_episodes;
use webtoon::stdx::time::DateOrDateTime;

fn published_at(millis: i64) -> Option<Published> {
    let entry = AnalyticsEpisode {
        number: 1,
        title: "One".to_owned(),
        comments: None,
        views: None,
        published: millis,
        super_likes: None,
    };
    Episode::from_analytics(&entry).ok().and_then(|e| e.published)
}

#[test]
fn millis_become_a_utc_date_and_time() {
    let d = published_at(1_600_000_000_123).unwrap();
    assert_eq!(
        d.0,
        DateOrDateTime::DateTime { year: 2020, month: 9, day: 13, hour: 12, minute: 26, second: 40, timestamp: 1_600_000_000 }
    );
    // Before the epoch, seconds round down.
    let d = published_at(-1).unwrap();
    assert_eq!(d.timestamp(), Some(-1));
    assert_eq!((d.year(), d.month(), d.day()), (1969, 12, 31));
    assert_eq!(d.second(), Some(59));
    assert!(published_at(i64::MAX).is_none());
    let leap = published_at(1_709_164_800_000).unwrap();
    assert_eq!((leap.year(), leap.month(), leap.day()), (2024, 2, 29));
    let old = published_at(-2_203_891_200_000).unwrap();
    assert_eq!((old.year(), old.month(), old.day()), (1900, 3, 1));
}

fn listed_on(date: &str) -> Option<Published> {
    let html = format!(
        "<ul><li class=\"_episodeItem\" data-episode-no=\"1\"><span class=\"subj\"><span>One</span></span>\
         <span class=\"date\">{date}</span></li></ul>"
    );
    listed_episodes(&html).ok().and_then(|v| v[0].published)
}

#[test]
fn list_dates_are_read_in_their_format() {
    let d = listed_on("Jan 3, 2024").unwrap();
    assert_eq!(d.0, DateOrDateTime::Date { year: 2024, month: 1, day: 3 });
    assert_eq!(d.hour(), None);
    assert!(listed_on("Feb 30, 2024").is_none());
    assert!(listed_on("tomorrow").is_none());
    assert!(listed_on("2024-01-03").is_none());
}

use webtoon::platform::webtoons::client::api::analytics::{analytics_episodes, AnalyticsEpisode, SeriesAnalytics};
use webtoon::platform::webtoons::webtoon::episode::Episode;

fn entry(number: u16, views: Option<u32>, published: i64) -> AnalyticsEpisode {
    AnalyticsEpisode {
        number,
        title: format!("Episode {number}"),
        comments: Some(1),
        views,
        published,
        super_likes: None,
    }
}

fn page(current: u16, episodes: Vec<AnalyticsEpisode>) -> SeriesAnalytics {
    SeriesAnalytics { current_page: current, episodes, title_name: "A Title".to_owned(), total_count: 3, total_pages: 2 }
}

#[test]
fn analytics_entry_becomes_an_episode() {
    let e = Episode::from_analytics(&entry(7, None, 1_600_000_000_123)).unwrap();
    assert_eq!(e.number(), 7);
    assert_eq!(e.title.as_deref(), Some("Episode 7"));
    assert_eq!(e.views, Some(0));
    assert!(e.published_status.is_none());
    let published = e.published.unwrap();
    assert_eq!(published.timestamp(), Some(1_600_000_000));
    assert_eq!((published.year(), published.month(), published.day()), (2020, 9, 13));
    assert_eq!((published.hour(), published.minute(), published.second()), (Some(12), Some(26), Some(40)));
}

#[test]
fn analytics_pages_join_in_order() {
    let pages = vec![page(1, vec![entry(3, Some(10), 0), entry(2, Some(5), 0)]), page(2, vec![entry(1, Some(1), 0)])];
    let episodes = analytics_episodes(pages).unwrap();
    let numbers: Vec<u16> = episodes.iter().map(|e| e.number()).collect();
    assert_eq!(numbers, vec![3, 2, 1]);
    assert_eq!(episodes[0].views, Some(10));
}

#[test]
fn analytics_timestamp_out_of_range_is_an_error() {
    assert!(Episode::from_analytics(&entry(1, None, i64::MAX)).is_err());
    assert!(analytics_episodes(vec![page(1, vec![entry(1, None, 0), entry(2, None, i64::MIN)])]).is_err());
}

use webtoon::platform::webtoons::webtoon::episode::{Episode, PublishedStatus};
use webtoon::platform::webtoons::webtoon::homepage::{
    all_listed_episodes, last_listed_episode, listed_episodes, random_listed_episode, random_page,
};

fn item(number: u16, title: &str, date: &str) -> String {
    format!(
        "<li class=\"_episodeItem\" data-episode-no=\"{number}\"><a href=\"#\">\
         <span class=\"subj\"><span>{title}</span></span>\
         <span class=\"date\">\n\t{date}\n</span><span class=\"tx\">#{number}</span></a></li>"
    )
}

fn list(items: &[String]) -> String {
    format!("<html><body><ul id=\"_listUl\">{}</ul></body></html>", items.concat())
}

#[test]
fn episode_list_entries_are_read_in_order() {
    let html = list(&[item(3, " Third &amp; last ", "Feb 10, 2024"), item(2, "Second", "Jan 3, 2024")]);
    let episodes = listed_episodes(&html).unwrap();
    assert_eq!(episodes.len(), 2);
    let third = &episodes[0];
    assert_eq!(third.number(), 3);
    assert_eq!(third.title.as_deref(), Some("Third & last"));
    let published = third.published.unwrap();
    assert_eq!((published.year(), published.month(), published.day()), (2024, 2, 10));
    assert_eq!(published.hour(), None);
    assert_eq!(published.timestamp(), None);
    assert_eq!(third.published_status, Some(PublishedStatus::Published));
    assert!(third.views.is_none());
    assert!(third.ad_status.is_none());
    assert_eq!(episodes[1].number(), 2);
}

#[test]
fn episode_list_entry_errors() {
    // Before `webtoons.com` existed.
    assert!(listed_episodes(&list(&[item(1, "Old", "Jan 3, 2013")])).is_err());
    // Not a date.
    assert!(listed_episodes(&list(&[item(1, "Bad", "soon")])).is_err());
    // Blank title.
    assert!(listed_episodes(&list(&[item(1, "   ", "Jan 3, 2024")])).is_err());
    // Number out of range.
    let html = list(&[item(1, "Ok", "Jan 3, 2024").replace("data-episode-no=\"1\"", "data-episode-no=\"70000\"")]);
    assert!(listed_episodes(&html).is_err());
    // An empty page lists nothing.
    assert!(listed_episodes(&list(&[])).unwrap().is_empty());
}

#[test]
fn first_episode_is_the_last_listed() {
    let html = list(&[item(2, "Second", "Jan 10, 2024"), item(1, "First", "Jan 3, 2024")]);
    let first = last_listed_episode(&html).unwrap();
    assert_eq!(first.number(), 1);
    assert_eq!(first.title.as_deref(), Some("First"));
    assert!(last_listed_episode(&list(&[])).is_err());
}

#[test]
fn random_episode_is_one_listed() {
    let html = list(&[item(2, "Second", "Jan 10, 2024"), item(1, "First", "Jan 3, 2024")]);
    for _ in 0..20 {
        let e = random_listed_episode(&html).unwrap();
        assert!(e.number() == 1 || e.number() == 2);
    }
    assert!(random_listed_episode(&list(&[])).is_err());
}

#[test]
fn pages_join_in_order() {
    let page_one = listed_episodes(&list(&[item(4, "Four", "Mar 1, 2024"), item(3, "Three", "Feb 1, 2024")])).unwrap();
    let page_two = listed_episodes(&list(&[item(2, "Two", "Jan 10, 2024"), item(1, "One", "Jan 3, 2024")])).unwrap();
    let all: Vec<Episode> = all_listed_episodes(vec![page_one, page_two]).unwrap();
    let numbers: Vec<u16> = all.iter().map(|e| e.number()).collect();
    assert_eq!(numbers, vec![4, 3, 2, 1]);
    assert!(all_listed_episodes(vec![vec![], vec![]]).is_err());
}

#[test]
fn random_pages_stay_in_range() {
    assert_eq!(random_page(1), 1);
    for _ in 0..200 {
        let page = random_page(3);
        assert!((1..=3).contains(&page));
    }
    assert!((1..=u16::MAX).contains(&random_page(u16::MAX)));
}

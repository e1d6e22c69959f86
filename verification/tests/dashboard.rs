use webtoon::platform::webtoons::dashboard::episodes::{
    dashboard_episodes, dashboard_pages, gather_episodes, parse, DashboardEpisode, DashboardStatus, Metadata,
};
use webtoon::platform::webtoons::dashboard::statistics::subscribers_from_texts;
use webtoon::platform::webtoons::webtoon::episode::{season, AdStatus, Episode, PublishedStatus};

#[test]
fn dashboard_statuses() {
    assert_eq!(DashboardStatus::from_str("AD_ON").unwrap(), DashboardStatus::AdOn);
    assert_eq!(DashboardStatus::try_from(String::from("DISAPPROVED_AUTO")).unwrap(), DashboardStatus::DisapprovedAuto);
    let err = DashboardStatus::from_str("LIVE").unwrap_err();
    assert_eq!(
        err.to_string(),
        "failed to parse `LIVE` into a `DashboardStatus` expected one of PUBLISHED, READY, DRAFT, IN_REVIEW, APPROVED, REMOVED, AD_ON, or AD_OFF"
    );
    assert!(DashboardStatus::AdOff.is_published());
    assert!(!DashboardStatus::Ready.is_published());
    assert_eq!(DashboardStatus::AdOn.ad_status(), AdStatus::Yes);
    assert_eq!(DashboardStatus::AdOff.ad_status(), AdStatus::No);
    assert_eq!(DashboardStatus::Published.ad_status(), AdStatus::Never);
    assert_eq!(PublishedStatus::from(DashboardStatus::AdOn), PublishedStatus::Published);
    assert_eq!(PublishedStatus::from(DashboardStatus::Removed), PublishedStatus::Removed);
    assert_eq!(PublishedStatus::from(DashboardStatus::InReview), PublishedStatus::Draft);
}

#[test]
fn dashboard_json_is_the_last_list_line_cleaned() {
    let html = "<script>\n  dashboardEpisodeList: [{\"a\":1}],\n  other: 2,\n  dashboardEpisodeList: [{\"title\":\"It\\'s &quot;x&quot; \\x3c &amp; y\"}],\r\n</script>\n";
    let json = parse(html).unwrap();
    assert_eq!(json, "[{\"title\":\"It's \\\"x\\\" < & y\"}]");
    assert!(parse("<html>nothing</html>").is_err());
}

fn dashboard_episode(number: u16, title: &str) -> DashboardEpisode {
    DashboardEpisode {
        metadata: Metadata {
            number,
            title: title.to_owned(),
            is_published: true,
            views: 10,
            likes: 2,
            thumbnail: None,
            creator_note: String::new(),
        },
        published: Some(1_600_000_000_000),
        dashboard_status: DashboardStatus::AdOn,
        comment_exposure: true,
    }
}

#[test]
fn dashboard_page_count() {
    assert_eq!(dashboard_pages(&vec![]).unwrap(), 0);
    assert_eq!(dashboard_pages(&vec![dashboard_episode(23, "a")]).unwrap(), 3);
    assert_eq!(dashboard_pages(&vec![dashboard_episode(20, "a")]).unwrap(), 2);
    let too_many: Vec<DashboardEpisode> = (0..11).map(|n| dashboard_episode(n, "a")).collect();
    assert!(dashboard_pages(&too_many).is_err());
}

#[test]
fn episode_from_dashboard_entry() {
    let episode = Episode::from_dashboard(dashboard_episode(5, "[Season 2] Ep. 5")).unwrap();
    assert_eq!(episode.number(), 5);
    assert_eq!(episode.season, Some(2));
    assert_eq!(episode.views, Some(10));
    assert_eq!(episode.ad_status, Some(AdStatus::Yes));
    assert_eq!(episode.published_status, Some(PublishedStatus::Published));
    let mut bad = dashboard_episode(5, "Ep. 5");
    bad.published = Some(i64::MAX);
    assert!(Episode::from_dashboard(bad).is_err());
}

#[test]
fn seasons_in_titles() {
    assert_eq!(season("[Season 2] Ep. 5").unwrap(), Some(2));
    assert_eq!(season("Ep. 1 [S3]").unwrap(), Some(3));
    assert_eq!(season("(S4) Ep. 1").unwrap(), Some(4));
    assert_eq!(season("(Season 12) Finale").unwrap(), Some(12));
    assert_eq!(season("Episode 1").unwrap(), None);
    assert!(season("[Season 300] Ep. 1").is_err());
}

#[test]
fn gathering_keeps_first_listing_in_number_order() {
    let all = vec![
        Episode::from_dashboard(dashboard_episode(3, "third")).unwrap(),
        Episode::from_dashboard(dashboard_episode(1, "first")).unwrap(),
        Episode::from_dashboard(dashboard_episode(3, "duplicate")).unwrap(),
        Episode::from_dashboard(dashboard_episode(2, "second")).unwrap(),
    ];
    let gathered = gather_episodes(all).unwrap();
    let numbers: Vec<u16> = gathered.iter().map(|e| e.number()).collect();
    assert_eq!(numbers, vec![1, 2, 3]);
    assert_eq!(gathered[2].title.as_deref(), Some("third"));
}

#[test]
fn stats_subscribers() {
    assert_eq!(subscribers_from_texts("Subscribers", "1.3M").unwrap(), 1_300_000);
    assert_eq!(subscribers_from_texts("Subscribers", "12,345").unwrap(), 12_345);
    assert!(subscribers_from_texts("Views", "12").is_err());
    assert!(subscribers_from_texts("Subscribers", "1M").is_err());
}

#[test]
fn dashboard_pages_give_episodes_with_statuses() {
    let mut removed = dashboard_episode(2, "second");
    removed.dashboard_status = DashboardStatus::Removed;
    removed.published = None;
    let pages = vec![
        vec![dashboard_episode(3, "third"), removed],
        vec![dashboard_episode(1, "first"), dashboard_episode(3, "again")],
    ];
    let episodes = dashboard_episodes(pages).unwrap();
    let numbers: Vec<u16> = episodes.iter().map(|e| e.number()).collect();
    assert_eq!(numbers, vec![1, 2, 3]);
    assert_eq!(episodes[2].title.as_deref(), Some("third"));
    assert_eq!(episodes[0].ad_status, Some(AdStatus::Yes));
    assert_eq!(episodes[0].published_status, Some(PublishedStatus::Published));
    assert_eq!(episodes[1].ad_status, Some(AdStatus::Never));
    assert_eq!(episodes[1].published_status, Some(PublishedStatus::Removed));
    assert!(episodes[1].published.is_none());
    assert!(episodes[0].published.is_some());
    assert_eq!(episodes[0].views, Some(10));
    assert!(dashboard_episodes(vec![]).unwrap().is_empty());
    let mut bad = dashboard_episode(4, "bad");
    bad.published = Some(i64::MAX);
    assert!(dashboard_episodes(vec![vec![dashboard_episode(1, "a")], vec![bad]]).is_err());
}

use webtoon::platform::webtoons::canvas::{page_range, page_range_ok, PageBound};
use webtoon::platform::webtoons::client::api::analytics::total_views;
use webtoon::platform::webtoons::client::{
    analytics_url, creator_page_url, creator_webtoons_url, dashboard_url, episode_url, title_user_info_url,
};
use webtoon::platform::webtoons::webtoon::episode::Episode;
use webtoon::platform::webtoons::webtoon::Webtoon;

fn tower_of_god() -> Webtoon {
    Webtoon::from_url("https://www.webtoons.com/en/fantasy/tower-of-god/list?title_no=95").unwrap()
}

fn canvas_story() -> Webtoon {
    Webtoon::from_url("https://www.webtoons.com/en/canvas/some-story/list?title_no=1132214").unwrap()
}

#[test]
fn client_addresses() {
    assert_eq!(
        episode_url(&tower_of_god(), 87),
        "https://www.webtoons.com/*/fantasy/*/*/viewer?title_no=95&episode_no=87"
    );
    assert_eq!(
        episode_url(&canvas_story(), 1),
        "https://www.webtoons.com/*/canvas/*/*/viewer?title_no=1132214&episode_no=1"
    );
    assert_eq!(dashboard_url(843910, 2), "https://www.webtoons.com/*/challenge/dashboardEpisode?titleNo=843910&page=2");
    assert_eq!(
        analytics_url(843910, 1),
        "https://www.webtoons.com/en/api/v1/creators/analytics/episodes?titleNo=843910&page=1&pageSize=100"
    );
    assert_eq!(title_user_info_url(&tower_of_god()), "https://www.webtoons.com/getTitleUserInfo?titleNo=95");
    assert_eq!(
        title_user_info_url(&canvas_story()),
        "https://www.webtoons.com/canvas/getTitleUserInfo?titleNo=1132214"
    );
    assert_eq!(creator_page_url("w7ml9"), "https://www.webtoons.com/p/community/en/u/w7ml9");
    assert_eq!(
        creator_webtoons_url("w7ml9"),
        "https://www.webtoons.com/p/community/api/v1/creator/w7ml9/titles?language=ENGLISH"
    );
}

#[test]
fn canvas_page_ranges() {
    assert!(page_range_ok(PageBound::Included(1), PageBound::Included(3)));
    assert_eq!(page_range(PageBound::Included(1), PageBound::Included(3)), (1, 4, 80));
    assert!(page_range_ok(PageBound::Excluded(0), PageBound::Excluded(3)));
    assert_eq!(page_range(PageBound::Excluded(0), PageBound::Excluded(3)), (1, 3, 60));
    assert!(page_range_ok(PageBound::Unbounded, PageBound::Unbounded));
    assert_eq!(page_range(PageBound::Unbounded, PageBound::Unbounded), (1, 101, 2020));
    // Would overflow, or end before it starts.
    assert!(!page_range_ok(PageBound::Excluded(u16::MAX), PageBound::Unbounded));
    assert!(!page_range_ok(PageBound::Included(1), PageBound::Included(u16::MAX)));
    assert!(!page_range_ok(PageBound::Included(6), PageBound::Excluded(5)));
    assert!(page_range_ok(PageBound::Included(5), PageBound::Excluded(5)));
}

fn with_views(views: Option<u32>) -> Episode {
    Episode { number: 1, title: None, season: None, published: None, views, ad_status: None, published_status: None }
}

#[test]
fn views_add_up() {
    assert_eq!(total_views(&vec![]), 0);
    let episodes = vec![with_views(Some(u32::MAX)), with_views(None), with_views(Some(5))];
    assert_eq!(total_views(&episodes), u32::MAX as u64 + 5);
}

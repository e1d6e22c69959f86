use webtoon::platform::webtoons::creator::Creator;
use webtoon::platform::webtoons::meta::{Genre, Scope};
use webtoon::platform::webtoons::originals::{Schedule, Weekday};
use webtoon::platform::webtoons::webtoon::episode::panels;
use webtoon::platform::webtoons::webtoon::homepage::Homepage;
use webtoon::platform::webtoons::webtoon::Webtoon;

fn original() -> Webtoon {
    Webtoon { id: 95, scope: Scope::Original(Genre::Fantasy), slug: String::from("tower-of-god") }
}

fn canvas() -> Webtoon {
    Webtoon { id: 7, scope: Scope::Canvas, slug: String::from("animals") }
}

fn original_page() -> String {
    [
        "<html><body>",
        "<div class=\"info\"><h2 class=\"genre\">fantasy</h2><h1 class=\"subj\">The Reason for the<br>\n   Twin Lady’s   Disguise</h1></div>",
        "<div class=\"author_area\"> SUMPUL\t,\tHereLee\t,\tAlphatart\t,\t... <button>author info</button></div>",
        "<ul><li><em class=\"cnt\">1.3B</em></li><li><em class=\"cnt\">4.5M</em></li></ul>",
        "<p class=\"day_info\"><span>UP</span>EVERY MON, THU</p>",
        "<p class=\"summary\">A   tale\n of   two</p>",
        "<div class=\"thmb\"><img src=\"https://webtoon-phinf.pstatic.net/a/b.jpg\"></div>",
        "<ul><li class=\"_episodeItem\"><a><span class=\"tx\">#23</span></a></li><li class=\"_episodeItem\"><a><span class=\"tx\">#22</span></a></li></ul>",
        "</body></html>",
    ]
    .concat()
}

#[test]
fn original_homepage_is_read() {
    let page = Homepage::parse(&original_page(), &original()).unwrap();
    assert_eq!(page.title, "The Reason for the Twin Lady’s Disguise");
    let names: Vec<&str> = page.creators.iter().map(Creator::username).collect();
    assert_eq!(names, vec!["SUMPUL", "HereLee", "Alphatart"]);
    assert!(page.creators.iter().all(|c| c.profile().is_none()));
    assert_eq!(page.genres, vec![Genre::Fantasy]);
    assert_eq!(page.summary, "A tale of two");
    assert_eq!(page.views, 1_300_000_000);
    assert_eq!(page.subscribers, 4_500_000);
    assert_eq!(page.schedule, Some(Schedule::Weekdays(vec![Weekday::Monday, Weekday::Thursday])));
    assert_eq!(page.banner.as_deref(), Some("https://swebtoon-phinf.pstatic.net/a/b.jpg"));
    assert!(page.thumbnail.is_none());
    assert_eq!(page.pages, 12);
}

#[test]
fn original_with_two_genres_fails() {
    let two_genres = original_page().replace(
        "<h2 class=\"genre\">fantasy</h2>",
        "<h2 class=\"genre\">fantasy</h2><h2 class=\"genre\">action</h2>",
    );
    assert!(two_genres.contains("action"));
    assert!(Homepage::parse(&two_genres, &original()).is_err());
    let two_canvas_genres = CANVAS_PAGE.replace(
        "<p class=\"genre\">romance</p>",
        "<p class=\"genre\">romance</p><p class=\"genre\">comedy</p>",
    );
    let page = Homepage::parse(&two_canvas_genres, &canvas()).unwrap();
    assert_eq!(page.genres, vec![Genre::Romance, Genre::Comedy]);
}

#[test]
fn webtoons_are_equal_by_id() {
    let renamed = Webtoon { id: 95, scope: Scope::Original(Genre::Action), slug: String::from("other") };
    assert!(original() == renamed);
    let canvas_95 = Webtoon { id: 95, scope: Scope::Canvas, slug: String::from("tower-of-god") };
    assert!(original() != canvas_95);
    assert!(original() != canvas());
}

const CANVAS_PAGE: &str = r#"<html><body>
<div class="info"><p class="genre">romance</p><h3 class="subj">Animals</h3></div>
<div class="author_area"><a class="author" href="https://www.webtoons.com/en/creator/792o8">
   Some Creator
</a><button>i</button></div>
<em class="cnt">999</em><em class="cnt">12,345</em>
<p class="summary">short</p>
<div class="thmb"><img src="https://webtoon-phinf.pstatic.net/c.png"></div>
</body></html>"#;

#[test]
fn canvas_homepage_is_read() {
    let page = Homepage::parse(CANVAS_PAGE, &canvas()).unwrap();
    assert_eq!(page.title, "Animals");
    assert_eq!(page.creators.len(), 1);
    assert_eq!(page.creators[0].username(), "Some Creator");
    assert_eq!(page.creators[0].profile(), Some("792o8"));
    assert_eq!(page.genres, vec![Genre::Romance]);
    assert_eq!(page.views, 999);
    assert_eq!(page.subscribers, 12_345);
    assert!(page.schedule.is_none());
    assert_eq!(page.thumbnail.as_deref(), Some("https://swebtoon-phinf.pstatic.net/c.png"));
    assert_eq!(page.pages, 1);
}

#[test]
fn homepage_missing_parts_fail() {
    assert!(Homepage::parse("<html></html>", &original()).is_err());
    let no_schedule = original_page().replace("day_info", "other");
    assert!(Homepage::parse(&no_schedule, &original()).is_err());
    let two_creators = CANVAS_PAGE.replace("<div class=\"author_area\">", "<a class=\"author\" href=\"https://www.webtoons.com/en/creator/x1\">Other</a><div class=\"author_area\">");
    assert!(Homepage::parse(&two_creators, &canvas()).is_err());
}

const EPISODE_PAGE: &str = r#"<html><body>
<img class="_images" data-url="https://webtoon-phinf.pstatic.net/20221005_56/Mom-I&#39;m-Sorry_01.jpg?type=q90" height="1280.5" width="800">
<img class="_images" data-url="https://webtoon-phinf.pstatic.net/x/02.png" height="600" width="700">
</body></html>"#;

#[test]
fn episode_panels_are_read() {
    let found = panels(EPISODE_PAGE, 3).unwrap();
    assert_eq!(found.len(), 2);
    assert_eq!(found[0].url(), "https://swebtoon-phinf.pstatic.net/20221005_56/Mom-I'm-Sorry_01.jpg?type=q90");
    assert_eq!(found[0].ext, "jpg");
    assert_eq!(found[0].height, 1280);
    assert_eq!(found[0].width, 800);
    assert_eq!(found[0].number, 1);
    assert_eq!(found[1].ext, "png");
    assert_eq!(found[1].number, 2);
    assert_eq!(found[1].episode, 3);
}

#[test]
fn episode_panel_problems() {
    assert!(panels("<html></html>", 1).is_err());
    let audio = "<button id=\"soundControl\"></button>";
    assert!(panels(audio, 1).unwrap().is_empty());
    let too_wide = EPISODE_PAGE.replace("width=\"700\"", "width=\"801\"");
    assert!(panels(&too_wide, 1).is_err());
    let bmp = EPISODE_PAGE.replace("02.png", "02.bmp");
    assert!(panels(&bmp, 1).is_err());
    let bad_height = EPISODE_PAGE.replace("height=\"600\"", "height=\"600.\"");
    assert!(panels(&bad_height, 1).is_err());
}

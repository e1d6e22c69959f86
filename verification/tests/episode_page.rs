use webtoon::platform::webtoons::webtoon::episode::{episode_page, EpisodeError};

fn page(extra: &str, images: &str) -> String {
    format!(
        "<html><body>\
         <div class=\"subj_info\"><h1 class=\"subj_episode\">Ep. 2 &amp; more</h1></div>\
         <div class=\"episode_lst\"><div class=\"episode_cont\"><ul>\
           <li data-episode-no=\"1\"><a><span class=\"thmb\"><img class=\"_thumbnailImages\" data-url=\"https://webtoon-phinf.pstatic.net/one.jpg\"></span></a></li>\
           <li data-episode-no=\"2\"><a><span class=\"thmb\"><img class=\"_thumbnailImages\" data-url=\"https://webtoon-phinf.pstatic.net/two.jpg?type=q90\"></span></a></li>\
         </ul></div></div>\
         <div id=\"_imageList\">{images}</div>{extra}</body></html>"
    )
}

const IMAGES: &str = "<img class=\"_images\" data-url=\"https://webtoon-phinf.pstatic.net/a/001.jpg\" height=\"1280.0\" width=\"800\">\
    <img class=\"_images\" data-url=\"https://webtoon-phinf.pstatic.net/a/002.png\" height=\"720\" width=\"800.0\">";

#[test]
fn episode_page_is_read() {
    let html = page("<div class=\"creator_note\"><p class=\"author_text\">Thanks &amp; bye</p></div>", IMAGES);
    let p = episode_page(&html, 2).unwrap();
    assert_eq!(p.title, "Ep. 2 & more");
    assert_eq!(p.thumbnail, "https://swebtoon-phinf.pstatic.net/two.jpg?type=q90");
    assert_eq!(p.length, Some(2000));
    assert_eq!(p.note.as_deref(), Some("Thanks & bye"));
    assert_eq!(p.panels.len(), 2);
    assert_eq!(p.panels[1].height, 720);
    assert_eq!(p.panels[1].ext, "png");
}

#[test]
fn episode_page_without_note() {
    let p = episode_page(&page("", IMAGES), 1).unwrap();
    assert!(p.note.is_none());
    assert_eq!(p.thumbnail, "https://swebtoon-phinf.pstatic.net/one.jpg");
}

#[test]
fn app_only_episode_is_not_viewable() {
    let html = page("<div class=\"publishing_wrap\"><img class=\"qrcode\" src=\"x\"></div>", IMAGES);
    assert!(matches!(episode_page(&html, 2), Err(EpisodeError::NotViewable)));
}

#[test]
fn audio_reader_has_no_length() {
    let html = page("<button id=\"soundControl\"></button>", IMAGES);
    let p = episode_page(&html, 2).unwrap();
    assert_eq!(p.length, None);
    assert!(p.panels.is_empty());
}

#[test]
fn episode_page_errors() {
    // The episode is not in the next/previous list.
    assert!(matches!(episode_page(&page("", IMAGES), 9), Err(EpisodeError::Internal(_))));
    // A height that is not a number.
    let bad = IMAGES.replace("height=\"720\"", "height=\"tall\"");
    assert!(matches!(episode_page(&page("", &bad), 2), Err(EpisodeError::Internal(_))));
    // An empty note.
    let html = page("<div class=\"creator_note\"><p class=\"author_text\"></p></div>", IMAGES);
    assert!(matches!(episode_page(&html, 2), Err(EpisodeError::Internal(_))));
    // Lengths that overflow a `u32`.
    let tall = IMAGES.replace("1280.0", "4294967295");
    assert!(matches!(episode_page(&page("", &tall), 2), Err(EpisodeError::Internal(_))));
}

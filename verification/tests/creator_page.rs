use webtoon::platform::webtoons::creator::{homepage, CreatorError};

fn page(body: &str) -> String {
    format!(
        "<html><head><meta name=\"author\" content=\"Tom &amp; Jerry\"></head><body>{body}</body></html>"
    )
}

const METRICS: &str = "<span class=\"CreatorBriefMetric_count__abc\">3</span>\
    <span class=\"other\">9</span>\
    <span class=\"CreatorBriefMetric_count__abc\">1,234,567</span>";

const SCRIPT: &str = "<script>self.__next_f.push([1,\"{\\\"creatorId\\\":\\\"n5z4d\\\",\\\"x\\\":1}\"])</script>";

#[test]
fn creator_page_is_read() {
    let html = page(&format!("{METRICS}<img alt=\"PATREON\">{SCRIPT}"));
    let p = homepage(&html).unwrap().unwrap();
    assert_eq!(p.username, "Tom & Jerry");
    assert_eq!(p.followers, 1_234_567);
    assert!(p.has_patreon);
    assert_eq!(p.id, "n5z4d");
}

#[test]
fn creator_page_without_patreon() {
    let html = page(&format!("{METRICS}<img alt=\"INSTAGRAM\">{SCRIPT}"));
    let p = homepage(&html).unwrap().unwrap();
    assert!(!p.has_patreon);
}

#[test]
fn invalid_creator_profile_is_an_error() {
    let html = page("<p class=\"ErrorPage_text__FQYij\">Invalid creator profile.</p>");
    assert!(matches!(homepage(&html), Err(CreatorError::InvalidCreatorProfile)));
}

#[test]
fn other_error_text_is_not_an_invalid_profile() {
    let html = page(&format!(
        "<p class=\"ErrorPage_text__FQYij\">Something else.</p>{METRICS}{SCRIPT}"
    ));
    assert!(homepage(&html).unwrap().is_some());
}

#[test]
fn disabled_account_has_no_page() {
    let html = page(
        "<p>This account has been disabled because it didn\u{2019}t follow our community policy. More</p>",
    );
    assert!(matches!(homepage(&html), Ok(None)));
}

#[test]
fn creator_page_missing_parts_are_internal_errors() {
    // No second metric.
    let html = page(&format!("<span class=\"CreatorBriefMetric_count__a\">3</span>{SCRIPT}"));
    assert!(matches!(homepage(&html), Err(CreatorError::Internal(_))));
    // No creator id.
    let html = page(METRICS);
    assert!(matches!(homepage(&html), Err(CreatorError::Internal(_))));
    // No author meta.
    let html = format!("<html><body>{METRICS}{SCRIPT}</body></html>");
    assert!(matches!(homepage(&html), Err(CreatorError::Internal(_))));
    // Followers that are not digits.
    let html = page(&format!(
        "<span class=\"CreatorBriefMetric_count__a\">3</span><span class=\"CreatorBriefMetric_count__a\">1.2K</span>{SCRIPT}"
    ));
    assert!(matches!(homepage(&html), Err(CreatorError::Internal(_))));
}

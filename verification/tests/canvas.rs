use webtoon::platform::webtoons::canvas::Sort;

#[test]
fn sort_popularity_displays_as_mana() {
    assert_eq!(Sort::Popularity.to_string(), "MANA");
}

#[test]
fn sort_likes_displays_as_likeit() {
    assert_eq!(Sort::Likes.to_string(), "LIKEIT");
}

#[test]
fn sort_date_displays_as_update() {
    assert_eq!(Sort::Date.to_string(), "UPDATE");
}

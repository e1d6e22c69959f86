use webtoon::platform::webtoons::meta::{Genre, Scope, Type};

#[test]
fn meta_should_parse_genres_from_str() {
    let genre = Genre::from_str("Slice of life").unwrap();
    assert_eq!(Genre::SliceOfLife, genre);
}

#[test]
fn webtoon_should_parse_genres_from_str() {
    let genre = Genre::from_str("Slice of life").unwrap();
    assert_eq!(Genre::SliceOfLife, genre);
}

#[test]
fn genre_slugs_read_back() {
    for genre in [
        Genre::Action, Genre::Adaptation, Genre::Animals, Genre::LGBTQ, Genre::CityOffice, Genre::Comedy,
        Genre::Drama, Genre::EasternPalace, Genre::Fantasy, Genre::GraphicNovel, Genre::Heartwarming,
        Genre::Historical, Genre::Horror, Genre::Inspirational, Genre::Local, Genre::MartialArts, Genre::Mystery,
        Genre::Romance, Genre::MatureRomance, Genre::RomanticFantasy, Genre::School, Genre::SciFi, Genre::Shonen,
        Genre::SliceOfLife, Genre::Sports, Genre::Superhero, Genre::Supernatural, Genre::Thriller, Genre::TimeSlip,
        Genre::Informative, Genre::WebNovel, Genre::WesternPalace, Genre::Zombies,
    ] {
        assert_eq!(Genre::from_str(genre.as_slug()).unwrap(), genre);
        assert_eq!(Scope::from_str(Scope::Original(genre).as_slug()).unwrap(), Scope::Original(genre));
    }
    assert_eq!(Scope::from_str("canvas").unwrap(), Scope::Canvas);
}

#[test]
fn some_genre_slugs_are_not_genre_names() {
    // These genres are named on the platform by their display text only.
    for genre in [Genre::AllAges, Genre::PostApocalyptic, Genre::ShortStory] {
        assert!(Genre::from_str(genre.as_slug()).is_err());
    }
}

#[test]
fn unknown_genre_is_reported() {
    let err = Genre::from_str("not-a-genre").unwrap_err();
    assert_eq!(err.0, "not-a-genre");
    assert_eq!(err.to_string(), "failed to parse `not-a-genre` into a known genre");
}

#[test]
fn scope_gives_the_webtoon_type() {
    assert_eq!(Scope::Canvas.webtoon_type(), Type::Canvas);
    assert_eq!(Scope::Original(Genre::Fantasy).webtoon_type(), Type::Original);
}

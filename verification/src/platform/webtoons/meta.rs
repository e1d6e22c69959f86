//! Webtoon kinds, genres and the URL scope that `webtoons.com` files a webtoon under.
use crate::stdx::text::{chars_of, eq_str};
use vstd::prelude::*;

verus! {

/// Represents the type a Webtoon can be on `webtoons.com`.
#[derive(Debug, Clone, Copy, PartialEq, Eq, Structural, PartialOrd, Ord, Hash)]
pub enum Type {
    /// An Original Webtoon.
    Original,
    /// A Canvas Webtoon.
    Canvas,
}

/// Why a string was not a webtoon [`Type`]; holds the string.
#[derive(Debug)]
pub struct ParseTypeError(pub String);

/// The [`Type`] that `webtoons.com` API text names: `WEBTOON` or `CHALLENGE`.
pub open spec fn type_of(s: Seq<char>) -> Option<Type> {
    if s == "WEBTOON"@ {
        Some(Type::Original)
    } else if s == "CHALLENGE"@ {
        Some(Type::Canvas)
    } else {
        None
    }
}

impl Type {
    /// Parses `WEBTOON` or `CHALLENGE`.
    pub fn from_str(s: &str) -> (r: Result<Type, ParseTypeError>)
        ensures
            match type_of(s@) {
                Some(t) => r == Ok::<Type, ParseTypeError>(t),
                None => r matches Err(ParseTypeError(e)) && e@ == s@,
            },
    {
        let cs = chars_of(s);
        if eq_str(&cs, "WEBTOON") {
            Ok(Type::Original)
        } else if eq_str(&cs, "CHALLENGE") {
            Ok(Type::Canvas)
        } else {
            Err(ParseTypeError(s.to_owned()))
        }
    }
}

/// Represents a genre on `webtoons.com`.
#[non_exhaustive]
#[derive(Debug, Clone, Copy, PartialEq, Eq, Structural, PartialOrd, Ord, Hash)]
pub enum Genre {
    /// The `comedy` genre.
    Comedy,
    /// The `fantasy` genre.
    Fantasy,
    /// The `romance` genre.
    Romance,
    /// The `slice-of-life` genre.
    SliceOfLife,
    /// The `sf` genre.
    SciFi,
    /// The `drama` genre.
    Drama,
    /// The `short-story` genre.
    ShortStory,
    /// The `action` genre.
    Action,
    /// The `super-hero` genre.
    Superhero,
    /// The `heartwarming` genre.
    Heartwarming,
    /// The `thriller` genre.
    Thriller,
    /// The `horror` genre.
    Horror,
    /// The `post-apocalyptic` genre.
    PostApocalyptic,
    /// The `zombies` genre.
    Zombies,
    /// The `school` genre.
    School,
    /// The `supernatural` genre.
    Supernatural,
    /// The `animals` genre.
    Animals,
    /// The `mystery` genre.
    Mystery,
    /// The `historical` genre.
    Historical,
    /// Tiptoon
    Informative,
    /// The `sports` genre.
    Sports,
    /// The `inspirational` genre.
    Inspirational,
    /// The `all-ages` genre.
    AllAges,
    /// The `bl-gl` genre.
    LGBTQ,
    /// The `romantic-fantasy` genre.
    RomanticFantasy,
    /// The `martial-arts` genre.
    MartialArts,
    /// The `western-palace` genre.
    WesternPalace,
    /// The `eastern-palace` genre.
    EasternPalace,
    /// The `romance-m` genre.
    MatureRomance,
    /// Reincarnation/Time-travel
    TimeSlip,
    /// The `local` genre.
    Local,
    /// Modern/Workplace
    CityOffice,
    /// The `adaptation` genre.
    Adaptation,
    /// The `shonen` genre.
    Shonen,
    /// The `web-novel` genre.
    WebNovel,
    /// The `graphic-novel` genre.
    GraphicNovel,
}

/// The URL slug of a genre, e.g. `all-ages` for [`Genre::AllAges`].
pub open spec fn genre_slug(g: Genre) -> Seq<char> {
    match g {
        Genre::Action => "action"@,
        Genre::Adaptation => "adaptation"@,
        Genre::AllAges => "all-ages"@,
        Genre::Animals => "animals"@,
        Genre::LGBTQ => "bl-gl"@,
        Genre::CityOffice => "city-office"@,
        Genre::Comedy => "comedy"@,
        Genre::Drama => "drama"@,
        Genre::EasternPalace => "eastern-palace"@,
        Genre::Fantasy => "fantasy"@,
        Genre::GraphicNovel => "graphic-novel"@,
        Genre::Heartwarming => "heartwarming"@,
        Genre::Historical => "historical"@,
        Genre::Horror => "horror"@,
        Genre::Inspirational => "inspirational"@,
        Genre::Local => "local"@,
        Genre::MartialArts => "martial-arts"@,
        Genre::Mystery => "mystery"@,
        Genre::PostApocalyptic => "post-apocalyptic"@,
        Genre::Romance => "romance"@,
        Genre::MatureRomance => "romance-m"@,
        Genre::RomanticFantasy => "romantic-fantasy"@,
        Genre::School => "school"@,
        Genre::SciFi => "sf"@,
        Genre::Shonen => "shonen"@,
        Genre::ShortStory => "short-story"@,
        Genre::SliceOfLife => "slice-of-life"@,
        Genre::Sports => "sports"@,
        Genre::Superhero => "super-hero"@,
        Genre::Supernatural => "supernatural"@,
        Genre::Thriller => "thriller"@,
        Genre::TimeSlip => "time-slip"@,
        Genre::Informative => "tiptoon"@,
        Genre::WebNovel => "web-novel"@,
        Genre::WesternPalace => "western-palace"@,
        Genre::Zombies => "zombies"@,
    }
}

/// The genre that a text on `webtoons.com` names, if it is one of the spellings the
/// platform uses.
pub open spec fn genre_of(s: Seq<char>) -> Option<Genre> {
    if s == "action"@ || s == "Action"@ || s == "ACTION"@ {
        Some(Genre::Action)
    } else if s == "adaptation"@ {
        Some(Genre::Adaptation)
    } else if s == "All Ages"@ || s == "ALL AGES"@ {
        Some(Genre::AllAges)
    } else if s == "animals"@ || s == "Animals"@ || s == "ANIMALS"@ {
        Some(Genre::Animals)
    } else if s == "bl-gl"@ || s == "LGBTQ+"@ || s == "LGBTQ+ / Y"@ || s == "LGBTQI+"@ {
        Some(Genre::LGBTQ)
    } else if s == "city-office"@ {
        Some(Genre::CityOffice)
    } else if s == "comedy"@ || s == "Comedy"@ || s == "COMEDY"@ {
        Some(Genre::Comedy)
    } else if s == "drama"@ || s == "Drama"@ || s == "DRAMA"@ {
        Some(Genre::Drama)
    } else if s == "eastern-palace"@ {
        Some(Genre::EasternPalace)
    } else if s == "fantasy"@ || s == "Fantasy"@ || s == "FANTASY"@ {
        Some(Genre::Fantasy)
    } else if s == "graphic-novel"@ || s == "Graphic Novel"@ || s == "GRAPHIC_NOVEL"@ {
        Some(Genre::GraphicNovel)
    } else if s == "heartwarming"@ || s == "Heartwarming"@ || s == "HEARTWARMING"@ {
        Some(Genre::Heartwarming)
    } else if s == "historical"@ || s == "Historical"@ || s == "HISTORICAL"@ {
        Some(Genre::Historical)
    } else if s == "horror"@ || s == "Horror"@ || s == "HORROR"@ {
        Some(Genre::Horror)
    } else if s == "inspirational"@ || s == "Inspirational"@ || s == "INSPIRATIONAL"@ {
        Some(Genre::Inspirational)
    } else if s == "local"@ || s == "LOCAL"@ {
        Some(Genre::Local)
    } else if s == "martial-arts"@ {
        Some(Genre::MartialArts)
    } else if s == "mystery"@ || s == "Crime/Mystery"@ || s == "Mystery"@ || s == "CRIME/MYSTERY"@ {
        Some(Genre::Mystery)
    } else if s == "Post apocalyptic"@ || s == "Post-apocalyptic"@ || s == "POST APOCALYPTIC"@ {
        Some(Genre::PostApocalyptic)
    } else if s == "romance"@ || s == "Romance"@ || s == "ROMANCE"@ {
        Some(Genre::Romance)
    } else if s == "romance-m"@ {
        Some(Genre::MatureRomance)
    } else if s == "romantic-fantasy"@ || s == "Romance Fantasy"@ || s == "ROMANTIC_FANTASY"@ {
        Some(Genre::RomanticFantasy)
    } else if s == "school"@ || s == "School"@ || s == "SCHOOL"@ {
        Some(Genre::School)
    } else if s == "sf"@ || s == "Sci-Fi"@ || s == "Sci-fi"@ || s == "SCI-FI"@ || s == "SF"@ {
        Some(Genre::SciFi)
    } else if s == "shonen"@ {
        Some(Genre::Shonen)
    } else if s == "Short story"@ || s == "SHORT STORY"@ {
        Some(Genre::ShortStory)
    } else if s == "slice-of-life"@ || s == "Slice of life"@ || s == "SLICE OF LIFE"@ {
        Some(Genre::SliceOfLife)
    } else if s == "sports"@ || s == "Sports"@ || s == "SPORTS"@ {
        Some(Genre::Sports)
    } else if s == "super-hero"@ || s == "superhero"@ || s == "Superhero"@ || s == "SUPERHERO"@ {
        Some(Genre::Superhero)
    } else if s == "supernatural"@ || s == "Supernatural"@ || s == "SUPERNATURAL"@ {
        Some(Genre::Supernatural)
    } else if s == "thriller"@ || s == "Thriller"@ || s == "THRILLER"@ {
        Some(Genre::Thriller)
    } else if s == "time-slip"@ {
        Some(Genre::TimeSlip)
    } else if s == "informative"@ || s == "tiptoon"@ || s == "Informative"@ || s == "INFORMATIVE"@ {
        Some(Genre::Informative)
    } else if s == "web-novel"@ || s == "WEBNOVEL"@ {
        Some(Genre::WebNovel)
    } else if s == "western-palace"@ {
        Some(Genre::WesternPalace)
    } else if s == "zombies"@ || s == "Zombies"@ || s == "ZOMBIES"@ {
        Some(Genre::Zombies)
    } else {
        None
    }
}

/// A genre's slug reads back as that genre, for every genre whose slug is one of the
/// spellings that [`genre_of`] accepts: all but all-ages, post-apocalyptic and short-story,
/// whose slugs name no genre.
pub proof fn lemma_genre_slug_reads_back(g: Genre)
    requires
        !(g is AllAges || g is PostApocalyptic || g is ShortStory),
    ensures
        genre_of(genre_slug(g)) == Some(g),
{
    // Each spelling is told apart from the others by its length and its first and last
    // characters.
    reveal_strlit("action");
    assert("action"@.len() == 6 && "action"@[0] == 'a' && "action"@[5] == 'n');
    reveal_strlit("adaptation");
    assert("adaptation"@.len() == 10 && "adaptation"@[0] == 'a' && "adaptation"@[9] == 'n');
    reveal_strlit("all-ages");
    assert("all-ages"@.len() == 8 && "all-ages"@[0] == 'a' && "all-ages"@[7] == 's');
    reveal_strlit("animals");
    assert("animals"@.len() == 7 && "animals"@[0] == 'a' && "animals"@[6] == 's');
    reveal_strlit("bl-gl");
    assert("bl-gl"@.len() == 5 && "bl-gl"@[0] == 'b' && "bl-gl"@[4] == 'l');
    reveal_strlit("city-office");
    assert("city-office"@.len() == 11 && "city-office"@[0] == 'c' && "city-office"@[10] == 'e');
    reveal_strlit("comedy");
    assert("comedy"@.len() == 6 && "comedy"@[0] == 'c' && "comedy"@[5] == 'y');
    reveal_strlit("drama");
    assert("drama"@.len() == 5 && "drama"@[0] == 'd' && "drama"@[4] == 'a');
    reveal_strlit("eastern-palace");
    assert("eastern-palace"@.len() == 14 && "eastern-palace"@[0] == 'e' && "eastern-palace"@[13] == 'e');
    reveal_strlit("fantasy");
    assert("fantasy"@.len() == 7 && "fantasy"@[0] == 'f' && "fantasy"@[6] == 'y');
    reveal_strlit("graphic-novel");
    assert("graphic-novel"@.len() == 13 && "graphic-novel"@[0] == 'g' && "graphic-novel"@[12] == 'l');
    reveal_strlit("heartwarming");
    assert("heartwarming"@.len() == 12 && "heartwarming"@[0] == 'h' && "heartwarming"@[11] == 'g');
    reveal_strlit("historical");
    assert("historical"@.len() == 10 && "historical"@[0] == 'h' && "historical"@[9] == 'l');
    reveal_strlit("horror");
    assert("horror"@.len() == 6 && "horror"@[0] == 'h' && "horror"@[5] == 'r');
    reveal_strlit("inspirational");
    assert("inspirational"@.len() == 13 && "inspirational"@[0] == 'i' && "inspirational"@[12] == 'l');
    reveal_strlit("local");
    assert("local"@.len() == 5 && "local"@[0] == 'l' && "local"@[4] == 'l');
    reveal_strlit("martial-arts");
    assert("martial-arts"@.len() == 12 && "martial-arts"@[0] == 'm' && "martial-arts"@[11] == 's');
    reveal_strlit("mystery");
    assert("mystery"@.len() == 7 && "mystery"@[0] == 'm' && "mystery"@[6] == 'y');
    reveal_strlit("post-apocalyptic");
    assert("post-apocalyptic"@.len() == 16 && "post-apocalyptic"@[0] == 'p' && "post-apocalyptic"@[15] == 'c');
    reveal_strlit("romance");
    assert("romance"@.len() == 7 && "romance"@[0] == 'r' && "romance"@[6] == 'e');
    reveal_strlit("romance-m");
    assert("romance-m"@.len() == 9 && "romance-m"@[0] == 'r' && "romance-m"@[8] == 'm');
    reveal_strlit("romantic-fantasy");
    assert("romantic-fantasy"@.len() == 16 && "romantic-fantasy"@[0] == 'r' && "romantic-fantasy"@[15] == 'y');
    reveal_strlit("school");
    assert("school"@.len() == 6 && "school"@[0] == 's' && "school"@[5] == 'l');
    reveal_strlit("sf");
    assert("sf"@.len() == 2 && "sf"@[0] == 's' && "sf"@[1] == 'f');
    reveal_strlit("shonen");
    assert("shonen"@.len() == 6 && "shonen"@[0] == 's' && "shonen"@[5] == 'n');
    reveal_strlit("short-story");
    assert("short-story"@.len() == 11 && "short-story"@[0] == 's' && "short-story"@[10] == 'y');
    reveal_strlit("slice-of-life");
    assert("slice-of-life"@.len() == 13 && "slice-of-life"@[0] == 's' && "slice-of-life"@[12] == 'e');
    reveal_strlit("sports");
    assert("sports"@.len() == 6 && "sports"@[0] == 's' && "sports"@[5] == 's');
    reveal_strlit("super-hero");
    assert("super-hero"@.len() == 10 && "super-hero"@[0] == 's' && "super-hero"@[9] == 'o');
    reveal_strlit("supernatural");
    assert("supernatural"@.len() == 12 && "supernatural"@[0] == 's' && "supernatural"@[11] == 'l');
    reveal_strlit("thriller");
    assert("thriller"@.len() == 8 && "thriller"@[0] == 't' && "thriller"@[7] == 'r');
    reveal_strlit("time-slip");
    assert("time-slip"@.len() == 9 && "time-slip"@[0] == 't' && "time-slip"@[8] == 'p');
    reveal_strlit("tiptoon");
    assert("tiptoon"@.len() == 7 && "tiptoon"@[0] == 't' && "tiptoon"@[6] == 'n');
    reveal_strlit("web-novel");
    assert("web-novel"@.len() == 9 && "web-novel"@[0] == 'w' && "web-novel"@[8] == 'l');
    reveal_strlit("western-palace");
    assert("western-palace"@.len() == 14 && "western-palace"@[0] == 'w' && "western-palace"@[13] == 'e');
    reveal_strlit("zombies");
    assert("zombies"@.len() == 7 && "zombies"@[0] == 'z' && "zombies"@[6] == 's');
    reveal_strlit("Action");
    assert("Action"@.len() == 6 && "Action"@[0] == 'A' && "Action"@[5] == 'n');
    reveal_strlit("ACTION");
    assert("ACTION"@.len() == 6 && "ACTION"@[0] == 'A' && "ACTION"@[5] == 'N');
    reveal_strlit("All Ages");
    assert("All Ages"@.len() == 8 && "All Ages"@[0] == 'A' && "All Ages"@[7] == 's');
    reveal_strlit("ALL AGES");
    assert("ALL AGES"@.len() == 8 && "ALL AGES"@[0] == 'A' && "ALL AGES"@[7] == 'S');
    reveal_strlit("Animals");
    assert("Animals"@.len() == 7 && "Animals"@[0] == 'A' && "Animals"@[6] == 's');
    reveal_strlit("ANIMALS");
    assert("ANIMALS"@.len() == 7 && "ANIMALS"@[0] == 'A' && "ANIMALS"@[6] == 'S');
    reveal_strlit("LGBTQ+");
    assert("LGBTQ+"@.len() == 6 && "LGBTQ+"@[0] == 'L' && "LGBTQ+"@[5] == '+');
    reveal_strlit("LGBTQ+ / Y");
    assert("LGBTQ+ / Y"@.len() == 10 && "LGBTQ+ / Y"@[0] == 'L' && "LGBTQ+ / Y"@[9] == 'Y');
    reveal_strlit("LGBTQI+");
    assert("LGBTQI+"@.len() == 7 && "LGBTQI+"@[0] == 'L' && "LGBTQI+"@[6] == '+');
    reveal_strlit("Comedy");
    assert("Comedy"@.len() == 6 && "Comedy"@[0] == 'C' && "Comedy"@[5] == 'y');
    reveal_strlit("COMEDY");
    assert("COMEDY"@.len() == 6 && "COMEDY"@[0] == 'C' && "COMEDY"@[5] == 'Y');
    reveal_strlit("Drama");
    assert("Drama"@.len() == 5 && "Drama"@[0] == 'D' && "Drama"@[4] == 'a');
    reveal_strlit("DRAMA");
    assert("DRAMA"@.len() == 5 && "DRAMA"@[0] == 'D' && "DRAMA"@[4] == 'A');
    reveal_strlit("Fantasy");
    assert("Fantasy"@.len() == 7 && "Fantasy"@[0] == 'F' && "Fantasy"@[6] == 'y');
    reveal_strlit("FANTASY");
    assert("FANTASY"@.len() == 7 && "FANTASY"@[0] == 'F' && "FANTASY"@[6] == 'Y');
    reveal_strlit("Graphic Novel");
    assert("Graphic Novel"@.len() == 13 && "Graphic Novel"@[0] == 'G' && "Graphic Novel"@[12] == 'l');
    reveal_strlit("GRAPHIC_NOVEL");
    assert("GRAPHIC_NOVEL"@.len() == 13 && "GRAPHIC_NOVEL"@[0] == 'G' && "GRAPHIC_NOVEL"@[12] == 'L');
    reveal_strlit("Heartwarming");
    assert("Heartwarming"@.len() == 12 && "Heartwarming"@[0] == 'H' && "Heartwarming"@[11] == 'g');
    reveal_strlit("HEARTWARMING");
    assert("HEARTWARMING"@.len() == 12 && "HEARTWARMING"@[0] == 'H' && "HEARTWARMING"@[11] == 'G');
    reveal_strlit("Historical");
    assert("Historical"@.len() == 10 && "Historical"@[0] == 'H' && "Historical"@[9] == 'l');
    reveal_strlit("HISTORICAL");
    assert("HISTORICAL"@.len() == 10 && "HISTORICAL"@[0] == 'H' && "HISTORICAL"@[9] == 'L');
    reveal_strlit("Horror");
    assert("Horror"@.len() == 6 && "Horror"@[0] == 'H' && "Horror"@[5] == 'r');
    reveal_strlit("HORROR");
    assert("HORROR"@.len() == 6 && "HORROR"@[0] == 'H' && "HORROR"@[5] == 'R');
    reveal_strlit("Inspirational");
    assert("Inspirational"@.len() == 13 && "Inspirational"@[0] == 'I' && "Inspirational"@[12] == 'l');
    reveal_strlit("INSPIRATIONAL");
    assert("INSPIRATIONAL"@.len() == 13 && "INSPIRATIONAL"@[0] == 'I' && "INSPIRATIONAL"@[12] == 'L');
    reveal_strlit("LOCAL");
    assert("LOCAL"@.len() == 5 && "LOCAL"@[0] == 'L' && "LOCAL"@[4] == 'L');
    reveal_strlit("Crime/Mystery");
    assert("Crime/Mystery"@.len() == 13 && "Crime/Mystery"@[0] == 'C' && "Crime/Mystery"@[12] == 'y');
    reveal_strlit("Mystery");
    assert("Mystery"@.len() == 7 && "Mystery"@[0] == 'M' && "Mystery"@[6] == 'y');
    reveal_strlit("CRIME/MYSTERY");
    assert("CRIME/MYSTERY"@.len() == 13 && "CRIME/MYSTERY"@[0] == 'C' && "CRIME/MYSTERY"@[12] == 'Y');
    reveal_strlit("Post apocalyptic");
    assert("Post apocalyptic"@.len() == 16 && "Post apocalyptic"@[0] == 'P' && "Post apocalyptic"@[15] == 'c');
    reveal_strlit("Post-apocalyptic");
    assert("Post-apocalyptic"@.len() == 16 && "Post-apocalyptic"@[0] == 'P' && "Post-apocalyptic"@[15] == 'c');
    reveal_strlit("POST APOCALYPTIC");
    assert("POST APOCALYPTIC"@.len() == 16 && "POST APOCALYPTIC"@[0] == 'P' && "POST APOCALYPTIC"@[15] == 'C');
    reveal_strlit("Romance");
    assert("Romance"@.len() == 7 && "Romance"@[0] == 'R' && "Romance"@[6] == 'e');
    reveal_strlit("ROMANCE");
    assert("ROMANCE"@.len() == 7 && "ROMANCE"@[0] == 'R' && "ROMANCE"@[6] == 'E');
    reveal_strlit("Romance Fantasy");
    assert("Romance Fantasy"@.len() == 15 && "Romance Fantasy"@[0] == 'R' && "Romance Fantasy"@[14] == 'y');
    reveal_strlit("ROMANTIC_FANTASY");
    assert("ROMANTIC_FANTASY"@.len() == 16 && "ROMANTIC_FANTASY"@[0] == 'R' && "ROMANTIC_FANTASY"@[15] == 'Y');
    reveal_strlit("School");
    assert("School"@.len() == 6 && "School"@[0] == 'S' && "School"@[5] == 'l');
    reveal_strlit("SCHOOL");
    assert("SCHOOL"@.len() == 6 && "SCHOOL"@[0] == 'S' && "SCHOOL"@[5] == 'L');
    reveal_strlit("Sci-Fi");
    assert("Sci-Fi"@.len() == 6 && "Sci-Fi"@[0] == 'S' && "Sci-Fi"@[5] == 'i');
    reveal_strlit("Sci-fi");
    assert("Sci-fi"@.len() == 6 && "Sci-fi"@[0] == 'S' && "Sci-fi"@[5] == 'i');
    reveal_strlit("SCI-FI");
    assert("SCI-FI"@.len() == 6 && "SCI-FI"@[0] == 'S' && "SCI-FI"@[5] == 'I');
    reveal_strlit("SF");
    assert("SF"@.len() == 2 && "SF"@[0] == 'S' && "SF"@[1] == 'F');
    reveal_strlit("Short story");
    assert("Short story"@.len() == 11 && "Short story"@[0] == 'S' && "Short story"@[10] == 'y');
    reveal_strlit("SHORT STORY");
    assert("SHORT STORY"@.len() == 11 && "SHORT STORY"@[0] == 'S' && "SHORT STORY"@[10] == 'Y');
    reveal_strlit("Slice of life");
    assert("Slice of life"@.len() == 13 && "Slice of life"@[0] == 'S' && "Slice of life"@[12] == 'e');
    reveal_strlit("SLICE OF LIFE");
    assert("SLICE OF LIFE"@.len() == 13 && "SLICE OF LIFE"@[0] == 'S' && "SLICE OF LIFE"@[12] == 'E');
    reveal_strlit("Sports");
    assert("Sports"@.len() == 6 && "Sports"@[0] == 'S' && "Sports"@[5] == 's');
    reveal_strlit("SPORTS");
    assert("SPORTS"@.len() == 6 && "SPORTS"@[0] == 'S' && "SPORTS"@[5] == 'S');
    reveal_strlit("superhero");
    assert("superhero"@.len() == 9 && "superhero"@[0] == 's' && "superhero"@[8] == 'o');
    reveal_strlit("Superhero");
    assert("Superhero"@.len() == 9 && "Superhero"@[0] == 'S' && "Superhero"@[8] == 'o');
    reveal_strlit("SUPERHERO");
    assert("SUPERHERO"@.len() == 9 && "SUPERHERO"@[0] == 'S' && "SUPERHERO"@[8] == 'O');
    reveal_strlit("Supernatural");
    assert("Supernatural"@.len() == 12 && "Supernatural"@[0] == 'S' && "Supernatural"@[11] == 'l');
    reveal_strlit("SUPERNATURAL");
    assert("SUPERNATURAL"@.len() == 12 && "SUPERNATURAL"@[0] == 'S' && "SUPERNATURAL"@[11] == 'L');
    reveal_strlit("Thriller");
    assert("Thriller"@.len() == 8 && "Thriller"@[0] == 'T' && "Thriller"@[7] == 'r');
    reveal_strlit("THRILLER");
    assert("THRILLER"@.len() == 8 && "THRILLER"@[0] == 'T' && "THRILLER"@[7] == 'R');
    reveal_strlit("informative");
    assert("informative"@.len() == 11 && "informative"@[0] == 'i' && "informative"@[10] == 'e');
    reveal_strlit("Informative");
    assert("Informative"@.len() == 11 && "Informative"@[0] == 'I' && "Informative"@[10] == 'e');
    reveal_strlit("INFORMATIVE");
    assert("INFORMATIVE"@.len() == 11 && "INFORMATIVE"@[0] == 'I' && "INFORMATIVE"@[10] == 'E');
    reveal_strlit("WEBNOVEL");
    assert("WEBNOVEL"@.len() == 8 && "WEBNOVEL"@[0] == 'W' && "WEBNOVEL"@[7] == 'L');
    reveal_strlit("Zombies");
    assert("Zombies"@.len() == 7 && "Zombies"@[0] == 'Z' && "Zombies"@[6] == 's');
    reveal_strlit("ZOMBIES");
    assert("ZOMBIES"@.len() == 7 && "ZOMBIES"@[0] == 'Z' && "ZOMBIES"@[6] == 'S');
    match g {
        Genre::Action => {},
        Genre::Adaptation => {},
        Genre::AllAges => {},
        Genre::Animals => {},
        Genre::LGBTQ => {},
        Genre::CityOffice => {},
        Genre::Comedy => {},
        Genre::Drama => {},
        Genre::EasternPalace => {},
        Genre::Fantasy => {},
        Genre::GraphicNovel => {},
        Genre::Heartwarming => {},
        Genre::Historical => {},
        Genre::Horror => {},
        Genre::Inspirational => {},
        Genre::Local => {},
        Genre::MartialArts => {},
        Genre::Mystery => {},
        Genre::PostApocalyptic => {},
        Genre::Romance => {},
        Genre::MatureRomance => {},
        Genre::RomanticFantasy => {},
        Genre::School => {},
        Genre::SciFi => {},
        Genre::Shonen => {},
        Genre::ShortStory => {},
        Genre::SliceOfLife => {},
        Genre::Sports => {},
        Genre::Superhero => {},
        Genre::Supernatural => {},
        Genre::Thriller => {},
        Genre::TimeSlip => {},
        Genre::Informative => {},
        Genre::WebNovel => {},
        Genre::WesternPalace => {},
        Genre::Zombies => {},
    }
}

/// A letter in lower case: `A`..`Z` become `a`..`z`, every other character stays.
pub open spec fn ascii_lower(c: char) -> char {
    if 'A' <= c && c <= 'Z' {
        ((c as int) + 32) as char
    } else {
        c
    }
}

/// The text in ASCII lower case.
pub open spec fn lowercase(s: Seq<char>) -> Seq<char> {
    s.map_values(|c: char| ascii_lower(c))
}

/// The other names, in lower case, that `webtoons.com` gives a genre besides its slug, e.g.
/// `crime/mystery` for [`Genre::Mystery`] and `sci-fi` for [`Genre::SciFi`].
pub open spec fn genre_alias(g: Genre, name: Seq<char>) -> bool {
    match g {
        Genre::AllAges => name == "all ages"@,
        Genre::LGBTQ => name == "lgbtq+"@ || name == "lgbtq+ / y"@ || name == "lgbtqi+"@,
        Genre::GraphicNovel => name == "graphic novel"@ || name == "graphic_novel"@,
        Genre::Mystery => name == "crime/mystery"@,
        Genre::PostApocalyptic => name == "post apocalyptic"@,
        Genre::RomanticFantasy => name == "romance fantasy"@ || name == "romantic_fantasy"@,
        Genre::SciFi => name == "sci-fi"@,
        Genre::ShortStory => name == "short story"@,
        Genre::SliceOfLife => name == "slice of life"@,
        Genre::Superhero => name == "superhero"@,
        Genre::Informative => name == "informative"@,
        Genre::WebNovel => name == "webnovel"@,
        _ => false,
    }
}

/// Every spelling that reads as a genre is, in lower case, that genre's slug or one of its
/// other names: `Romance` and `ROMANCE` read as romance and nothing else.
pub proof fn lemma_genre_spelling_names_it(s: Seq<char>, g: Genre)
    requires
        genre_of(s) == Some(g),
    ensures
        lowercase(s) == genre_slug(g) || genre_alias(g, lowercase(s)),
{
    reveal_strlit("action");
    reveal_strlit("Action");
    reveal_strlit("ACTION");
    reveal_strlit("adaptation");
    reveal_strlit("All Ages");
    reveal_strlit("ALL AGES");
    reveal_strlit("animals");
    reveal_strlit("Animals");
    reveal_strlit("ANIMALS");
    reveal_strlit("bl-gl");
    reveal_strlit("LGBTQ+");
    reveal_strlit("LGBTQ+ / Y");
    reveal_strlit("LGBTQI+");
    reveal_strlit("city-office");
    reveal_strlit("comedy");
    reveal_strlit("Comedy");
    reveal_strlit("COMEDY");
    reveal_strlit("drama");
    reveal_strlit("Drama");
    reveal_strlit("DRAMA");
    reveal_strlit("eastern-palace");
    reveal_strlit("fantasy");
    reveal_strlit("Fantasy");
    reveal_strlit("FANTASY");
    reveal_strlit("graphic-novel");
    reveal_strlit("Graphic Novel");
    reveal_strlit("GRAPHIC_NOVEL");
    reveal_strlit("heartwarming");
    reveal_strlit("Heartwarming");
    reveal_strlit("HEARTWARMING");
    reveal_strlit("historical");
    reveal_strlit("Historical");
    reveal_strlit("HISTORICAL");
    reveal_strlit("horror");
    reveal_strlit("Horror");
    reveal_strlit("HORROR");
    reveal_strlit("inspirational");
    reveal_strlit("Inspirational");
    reveal_strlit("INSPIRATIONAL");
    reveal_strlit("local");
    reveal_strlit("LOCAL");
    reveal_strlit("martial-arts");
    reveal_strlit("mystery");
    reveal_strlit("Crime/Mystery");
    reveal_strlit("Mystery");
    reveal_strlit("CRIME/MYSTERY");
    reveal_strlit("Post apocalyptic");
    reveal_strlit("Post-apocalyptic");
    reveal_strlit("POST APOCALYPTIC");
    reveal_strlit("romance");
    reveal_strlit("Romance");
    reveal_strlit("ROMANCE");
    reveal_strlit("romance-m");
    reveal_strlit("romantic-fantasy");
    reveal_strlit("Romance Fantasy");
    reveal_strlit("ROMANTIC_FANTASY");
    reveal_strlit("school");
    reveal_strlit("School");
    reveal_strlit("SCHOOL");
    reveal_strlit("sf");
    reveal_strlit("Sci-Fi");
    reveal_strlit("Sci-fi");
    reveal_strlit("SCI-FI");
    reveal_strlit("SF");
    reveal_strlit("shonen");
    reveal_strlit("Short story");
    reveal_strlit("SHORT STORY");
    reveal_strlit("slice-of-life");
    reveal_strlit("Slice of life");
    reveal_strlit("SLICE OF LIFE");
    reveal_strlit("sports");
    reveal_strlit("Sports");
    reveal_strlit("SPORTS");
    reveal_strlit("super-hero");
    reveal_strlit("superhero");
    reveal_strlit("Superhero");
    reveal_strlit("SUPERHERO");
    reveal_strlit("supernatural");
    reveal_strlit("Supernatural");
    reveal_strlit("SUPERNATURAL");
    reveal_strlit("thriller");
    reveal_strlit("Thriller");
    reveal_strlit("THRILLER");
    reveal_strlit("time-slip");
    reveal_strlit("informative");
    reveal_strlit("tiptoon");
    reveal_strlit("Informative");
    reveal_strlit("INFORMATIVE");
    reveal_strlit("web-novel");
    reveal_strlit("WEBNOVEL");
    reveal_strlit("western-palace");
    reveal_strlit("zombies");
    reveal_strlit("Zombies");
    reveal_strlit("ZOMBIES");
    reveal_strlit("all ages");
    reveal_strlit("lgbtq+");
    reveal_strlit("lgbtq+ / y");
    reveal_strlit("lgbtqi+");
    reveal_strlit("graphic novel");
    reveal_strlit("graphic_novel");
    reveal_strlit("crime/mystery");
    reveal_strlit("post apocalyptic");
    reveal_strlit("post-apocalyptic");
    reveal_strlit("romance fantasy");
    reveal_strlit("romantic_fantasy");
    reveal_strlit("sci-fi");
    reveal_strlit("short story");
    reveal_strlit("slice of life");
    reveal_strlit("webnovel");
    assert(lowercase("action"@) =~= "action"@);
    assert(lowercase("Action"@) =~= "action"@);
    assert(lowercase("ACTION"@) =~= "action"@);
    assert(lowercase("adaptation"@) =~= "adaptation"@);
    assert(lowercase("All Ages"@) =~= "all ages"@);
    assert(lowercase("ALL AGES"@) =~= "all ages"@);
    assert(lowercase("animals"@) =~= "animals"@);
    assert(lowercase("Animals"@) =~= "animals"@);
    assert(lowercase("ANIMALS"@) =~= "animals"@);
    assert(lowercase("bl-gl"@) =~= "bl-gl"@);
    assert(lowercase("LGBTQ+"@) =~= "lgbtq+"@);
    assert(lowercase("LGBTQ+ / Y"@) =~= "lgbtq+ / y"@);
    assert(lowercase("LGBTQI+"@) =~= "lgbtqi+"@);
    assert(lowercase("city-office"@) =~= "city-office"@);
    assert(lowercase("comedy"@) =~= "comedy"@);
    assert(lowercase("Comedy"@) =~= "comedy"@);
    assert(lowercase("COMEDY"@) =~= "comedy"@);
    assert(lowercase("drama"@) =~= "drama"@);
    assert(lowercase("Drama"@) =~= "drama"@);
    assert(lowercase("DRAMA"@) =~= "drama"@);
    assert(lowercase("eastern-palace"@) =~= "eastern-palace"@);
    assert(lowercase("fantasy"@) =~= "fantasy"@);
    assert(lowercase("Fantasy"@) =~= "fantasy"@);
    assert(lowercase("FANTASY"@) =~= "fantasy"@);
    assert(lowercase("graphic-novel"@) =~= "graphic-novel"@);
    assert(lowercase("Graphic Novel"@) =~= "graphic novel"@);
    assert(lowercase("GRAPHIC_NOVEL"@) =~= "graphic_novel"@);
    assert(lowercase("heartwarming"@) =~= "heartwarming"@);
    assert(lowercase("Heartwarming"@) =~= "heartwarming"@);
    assert(lowercase("HEARTWARMING"@) =~= "heartwarming"@);
    assert(lowercase("historical"@) =~= "historical"@);
    assert(lowercase("Historical"@) =~= "historical"@);
    assert(lowercase("HISTORICAL"@) =~= "historical"@);
    assert(lowercase("horror"@) =~= "horror"@);
    assert(lowercase("Horror"@) =~= "horror"@);
    assert(lowercase("HORROR"@) =~= "horror"@);
    assert(lowercase("inspirational"@) =~= "inspirational"@);
    assert(lowercase("Inspirational"@) =~= "inspirational"@);
    assert(lowercase("INSPIRATIONAL"@) =~= "inspirational"@);
    assert(lowercase("local"@) =~= "local"@);
    assert(lowercase("LOCAL"@) =~= "local"@);
    assert(lowercase("martial-arts"@) =~= "martial-arts"@);
    assert(lowercase("mystery"@) =~= "mystery"@);
    assert(lowercase("Crime/Mystery"@) =~= "crime/mystery"@);
    assert(lowercase("Mystery"@) =~= "mystery"@);
    assert(lowercase("CRIME/MYSTERY"@) =~= "crime/mystery"@);
    assert(lowercase("Post apocalyptic"@) =~= "post apocalyptic"@);
    assert(lowercase("Post-apocalyptic"@) =~= "post-apocalyptic"@);
    assert(lowercase("POST APOCALYPTIC"@) =~= "post apocalyptic"@);
    assert(lowercase("romance"@) =~= "romance"@);
    assert(lowercase("Romance"@) =~= "romance"@);
    assert(lowercase("ROMANCE"@) =~= "romance"@);
    assert(lowercase("romance-m"@) =~= "romance-m"@);
    assert(lowercase("romantic-fantasy"@) =~= "romantic-fantasy"@);
    assert(lowercase("Romance Fantasy"@) =~= "romance fantasy"@);
    assert(lowercase("ROMANTIC_FANTASY"@) =~= "romantic_fantasy"@);
    assert(lowercase("school"@) =~= "school"@);
    assert(lowercase("School"@) =~= "school"@);
    assert(lowercase("SCHOOL"@) =~= "school"@);
    assert(lowercase("sf"@) =~= "sf"@);
    assert(lowercase("Sci-Fi"@) =~= "sci-fi"@);
    assert(lowercase("Sci-fi"@) =~= "sci-fi"@);
    assert(lowercase("SCI-FI"@) =~= "sci-fi"@);
    assert(lowercase("SF"@) =~= "sf"@);
    assert(lowercase("shonen"@) =~= "shonen"@);
    assert(lowercase("Short story"@) =~= "short story"@);
    assert(lowercase("SHORT STORY"@) =~= "short story"@);
    assert(lowercase("slice-of-life"@) =~= "slice-of-life"@);
    assert(lowercase("Slice of life"@) =~= "slice of life"@);
    assert(lowercase("SLICE OF LIFE"@) =~= "slice of life"@);
    assert(lowercase("sports"@) =~= "sports"@);
    assert(lowercase("Sports"@) =~= "sports"@);
    assert(lowercase("SPORTS"@) =~= "sports"@);
    assert(lowercase("super-hero"@) =~= "super-hero"@);
    assert(lowercase("superhero"@) =~= "superhero"@);
    assert(lowercase("Superhero"@) =~= "superhero"@);
    assert(lowercase("SUPERHERO"@) =~= "superhero"@);
    assert(lowercase("supernatural"@) =~= "supernatural"@);
    assert(lowercase("Supernatural"@) =~= "supernatural"@);
    assert(lowercase("SUPERNATURAL"@) =~= "supernatural"@);
    assert(lowercase("thriller"@) =~= "thriller"@);
    assert(lowercase("Thriller"@) =~= "thriller"@);
    assert(lowercase("THRILLER"@) =~= "thriller"@);
    assert(lowercase("time-slip"@) =~= "time-slip"@);
    assert(lowercase("informative"@) =~= "informative"@);
    assert(lowercase("tiptoon"@) =~= "tiptoon"@);
    assert(lowercase("Informative"@) =~= "informative"@);
    assert(lowercase("INFORMATIVE"@) =~= "informative"@);
    assert(lowercase("web-novel"@) =~= "web-novel"@);
    assert(lowercase("WEBNOVEL"@) =~= "webnovel"@);
    assert(lowercase("western-palace"@) =~= "western-palace"@);
    assert(lowercase("zombies"@) =~= "zombies"@);
    assert(lowercase("Zombies"@) =~= "zombies"@);
    assert(lowercase("ZOMBIES"@) =~= "zombies"@);
}

/// Why a string was not a known [`Genre`]; holds the string.
#[derive(Debug)]
pub struct ParseGenreError(pub String);

/// The text a [`ParseGenreError`] for `s` displays.
pub open spec fn parse_genre_message(s: Seq<char>) -> Seq<char> {
    "failed to parse `"@ + s + "` into a known genre"@
}

impl ParseGenreError {
    /// The text this error displays: failed to parse `{0}` into a known genre.
    pub fn to_string(&self) -> (s: String)
        ensures
            s@ == parse_genre_message(self.0@),
    {
        let mut s = "failed to parse `".to_owned();
        s.append(self.0.as_str());
        s.append("` into a known genre");
        s
    }
}

impl Genre {
    /// Converts a [`Genre`] into a URL safe slug, e.g. `Genre::AllAges => "all-ages"`.
    pub fn as_slug(&self) -> (r: &'static str)
        ensures
            r@ == genre_slug(*self),
    {
        match self {
            Genre::Action => "action",
            Genre::Adaptation => "adaptation",
            Genre::AllAges => "all-ages",
            Genre::Animals => "animals",
            Genre::LGBTQ => "bl-gl",
            Genre::CityOffice => "city-office",
            Genre::Comedy => "comedy",
            Genre::Drama => "drama",
            Genre::EasternPalace => "eastern-palace",
            Genre::Fantasy => "fantasy",
            Genre::GraphicNovel => "graphic-novel",
            Genre::Heartwarming => "heartwarming",
            Genre::Historical => "historical",
            Genre::Horror => "horror",
            Genre::Inspirational => "inspirational",
            Genre::Local => "local",
            Genre::MartialArts => "martial-arts",
            Genre::Mystery => "mystery",
            Genre::PostApocalyptic => "post-apocalyptic",
            Genre::Romance => "romance",
            Genre::MatureRomance => "romance-m",
            Genre::RomanticFantasy => "romantic-fantasy",
            Genre::School => "school",
            Genre::SciFi => "sf",
            Genre::Shonen => "shonen",
            Genre::ShortStory => "short-story",
            Genre::SliceOfLife => "slice-of-life",
            Genre::Sports => "sports",
            Genre::Superhero => "super-hero",
            Genre::Supernatural => "supernatural",
            Genre::Thriller => "thriller",
            Genre::TimeSlip => "time-slip",
            Genre::Informative => "tiptoon",
            Genre::WebNovel => "web-novel",
            Genre::WesternPalace => "western-palace",
            Genre::Zombies => "zombies",
        }
    }

    /// Parses one of the spellings `webtoons.com` uses for a genre.
    pub fn from_str(s: &str) -> (r: Result<Genre, ParseGenreError>)
        ensures
            match genre_of(s@) {
                Some(g) => r == Ok::<Genre, ParseGenreError>(g),
                None => r matches Err(ParseGenreError(e)) && e@ == s@,
            },
    {
        let cs = chars_of(s);
        match Self::from_chars(&cs) {
            Some(g) => Ok(g),
            None => Err(ParseGenreError(s.to_owned())),
        }
    }

    /// Parses one of the spellings `webtoons.com` uses for a genre.
    pub fn from_chars(cs: &[char]) -> (r: Option<Genre>)
        ensures
            r == genre_of(cs@),
    {
        if eq_str(cs, "action") || eq_str(cs, "Action") || eq_str(cs, "ACTION") {
            Some(Genre::Action)
        } else if eq_str(cs, "adaptation") {
            Some(Genre::Adaptation)
        } else if eq_str(cs, "All Ages") || eq_str(cs, "ALL AGES") {
            Some(Genre::AllAges)
        } else if eq_str(cs, "animals") || eq_str(cs, "Animals") || eq_str(cs, "ANIMALS") {
            Some(Genre::Animals)
        } else if eq_str(cs, "bl-gl") || eq_str(cs, "LGBTQ+") || eq_str(cs, "LGBTQ+ / Y") || eq_str(cs, "LGBTQI+") {
            Some(Genre::LGBTQ)
        } else if eq_str(cs, "city-office") {
            Some(Genre::CityOffice)
        } else if eq_str(cs, "comedy") || eq_str(cs, "Comedy") || eq_str(cs, "COMEDY") {
            Some(Genre::Comedy)
        } else if eq_str(cs, "drama") || eq_str(cs, "Drama") || eq_str(cs, "DRAMA") {
            Some(Genre::Drama)
        } else if eq_str(cs, "eastern-palace") {
            Some(Genre::EasternPalace)
        } else if eq_str(cs, "fantasy") || eq_str(cs, "Fantasy") || eq_str(cs, "FANTASY") {
            Some(Genre::Fantasy)
        } else if eq_str(cs, "graphic-novel") || eq_str(cs, "Graphic Novel") || eq_str(cs, "GRAPHIC_NOVEL") {
            Some(Genre::GraphicNovel)
        } else if eq_str(cs, "heartwarming") || eq_str(cs, "Heartwarming") || eq_str(cs, "HEARTWARMING") {
            Some(Genre::Heartwarming)
        } else if eq_str(cs, "historical") || eq_str(cs, "Historical") || eq_str(cs, "HISTORICAL") {
            Some(Genre::Historical)
        } else if eq_str(cs, "horror") || eq_str(cs, "Horror") || eq_str(cs, "HORROR") {
            Some(Genre::Horror)
        } else if eq_str(cs, "inspirational") || eq_str(cs, "Inspirational") || eq_str(cs, "INSPIRATIONAL") {
            Some(Genre::Inspirational)
        } else if eq_str(cs, "local") || eq_str(cs, "LOCAL") {
            Some(Genre::Local)
        } else if eq_str(cs, "martial-arts") {
            Some(Genre::MartialArts)
        } else if eq_str(cs, "mystery") || eq_str(cs, "Crime/Mystery") || eq_str(cs, "Mystery") || eq_str(cs, "CRIME/MYSTERY") {
            Some(Genre::Mystery)
        } else if eq_str(cs, "Post apocalyptic") || eq_str(cs, "Post-apocalyptic") || eq_str(cs, "POST APOCALYPTIC") {
            Some(Genre::PostApocalyptic)
        } else if eq_str(cs, "romance") || eq_str(cs, "Romance") || eq_str(cs, "ROMANCE") {
            Some(Genre::Romance)
        } else if eq_str(cs, "romance-m") {
            Some(Genre::MatureRomance)
        } else if eq_str(cs, "romantic-fantasy") || eq_str(cs, "Romance Fantasy") || eq_str(cs, "ROMANTIC_FANTASY") {
            Some(Genre::RomanticFantasy)
        } else if eq_str(cs, "school") || eq_str(cs, "School") || eq_str(cs, "SCHOOL") {
            Some(Genre::School)
        } else if eq_str(cs, "sf") || eq_str(cs, "Sci-Fi") || eq_str(cs, "Sci-fi") || eq_str(cs, "SCI-FI") || eq_str(cs, "SF") {
            Some(Genre::SciFi)
        } else if eq_str(cs, "shonen") {
            Some(Genre::Shonen)
        } else if eq_str(cs, "Short story") || eq_str(cs, "SHORT STORY") {
            Some(Genre::ShortStory)
        } else if eq_str(cs, "slice-of-life") || eq_str(cs, "Slice of life") || eq_str(cs, "SLICE OF LIFE") {
            Some(Genre::SliceOfLife)
        } else if eq_str(cs, "sports") || eq_str(cs, "Sports") || eq_str(cs, "SPORTS") {
            Some(Genre::Sports)
        } else if eq_str(cs, "super-hero") || eq_str(cs, "superhero") || eq_str(cs, "Superhero") || eq_str(cs, "SUPERHERO") {
            Some(Genre::Superhero)
        } else if eq_str(cs, "supernatural") || eq_str(cs, "Supernatural") || eq_str(cs, "SUPERNATURAL") {
            Some(Genre::Supernatural)
        } else if eq_str(cs, "thriller") || eq_str(cs, "Thriller") || eq_str(cs, "THRILLER") {
            Some(Genre::Thriller)
        } else if eq_str(cs, "time-slip") {
            Some(Genre::TimeSlip)
        } else if eq_str(cs, "informative") || eq_str(cs, "tiptoon") || eq_str(cs, "Informative") || eq_str(cs, "INFORMATIVE") {
            Some(Genre::Informative)
        } else if eq_str(cs, "web-novel") || eq_str(cs, "WEBNOVEL") {
            Some(Genre::WebNovel)
        } else if eq_str(cs, "western-palace") {
            Some(Genre::WesternPalace)
        } else if eq_str(cs, "zombies") || eq_str(cs, "Zombies") || eq_str(cs, "ZOMBIES") {
            Some(Genre::Zombies)
        } else {
            None
        }
    }
}

/// Where a webtoon's URL files it: under a genre for Originals, or under `canvas`.
#[derive(Debug, Clone, Copy, PartialEq, Eq, Structural, PartialOrd, Ord, Hash)]
pub enum Scope {
    /// An Original, filed under its genre.
    Original(Genre),
    /// A Canvas webtoon.
    Canvas,
}

/// The URL segment of a scope.
pub open spec fn scope_slug(s: Scope) -> Seq<char> {
    match s {
        Scope::Canvas => "canvas"@,
        Scope::Original(g) => genre_slug(g),
    }
}

/// The scope a URL segment names.
pub open spec fn scope_of(s: Seq<char>) -> Option<Scope> {
    if s == "canvas"@ {
        Some(Scope::Canvas)
    } else {
        match genre_of(s) {
            Some(g) => Some(Scope::Original(g)),
            None => None,
        }
    }
}

impl Scope {
    /// The URL segment of this scope.
    pub fn as_slug(&self) -> (r: &'static str)
        ensures
            r@ == scope_slug(*self),
    {
        match self {
            Scope::Canvas => "canvas",
            Scope::Original(genre) => genre.as_slug(),
        }
    }

    /// Parses a URL segment: `canvas`, or a genre.
    pub fn from_str(s: &str) -> (r: Result<Scope, ParseGenreError>)
        ensures
            match scope_of(s@) {
                Some(sc) => r == Ok::<Scope, ParseGenreError>(sc),
                None => r matches Err(ParseGenreError(e)) && e@ == s@,
            },
    {
        let cs = chars_of(s);
        match Self::from_chars(&cs) {
            Some(sc) => Ok(sc),
            None => Err(ParseGenreError(s.to_owned())),
        }
    }

    /// Parses a URL segment: `canvas`, or a genre.
    pub fn from_chars(cs: &[char]) -> (r: Option<Scope>)
        ensures
            r == scope_of(cs@),
    {
        if eq_str(cs, "canvas") {
            Some(Scope::Canvas)
        } else {
            match Genre::from_chars(cs) {
                Some(g) => Some(Scope::Original(g)),
                None => None,
            }
        }
    }

    /// The [`Type`] of the webtoons filed under this scope.
    pub fn webtoon_type(&self) -> (t: Type)
        ensures
            t == (if *self is Canvas { Type::Canvas } else { Type::Original }),
    {
        match self {
            Scope::Canvas => Type::Canvas,
            Scope::Original(_) => Type::Original,
        }
    }
}

} // verus!

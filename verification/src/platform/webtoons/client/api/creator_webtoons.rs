//! The answer of the endpoint that lists a creator's webtoons.
use crate::platform::webtoons::meta::Type;
use vstd::prelude::*;

verus! {

/// The body of a creator-webtoons response.
pub struct CreatorWebtoons {
    /// The listing.
    pub result: Result,
}

/// A creator's listed webtoons.
pub struct Result {
    /// One entry per public webtoon.
    pub titles: Vec<Titles>,
    /// How many webtoons the creator has.
    pub total_count: usize,
}

/// One webtoon of a creator.
pub struct Titles {
    /// The webtoon's id.
    pub id: u32,
    /// The webtoon's title.
    pub title: String,
    /// Its creators.
    pub authors: Vec<Authors>,
    /// Its genres, as the platform spells them.
    pub genres: Vec<String>,
    /// Whether it is an Original or a Canvas webtoon.
    pub webtoon_type: Type,
    /// Its thumbnail.
    pub thumbnail_url: String,
    /// When its latest episode was published, in milliseconds since the epoch.
    pub recent_episode_registered_at: i64,
    /// When it was published, in milliseconds since the epoch.
    pub title_registered_at: i64,
}

/// A creator of a listed webtoon.
pub struct Authors {
    /// The creator's name.
    pub nickname: String,
}

/// The id and type of each listed webtoon, in the order listed.
pub fn listed_webtoons(listing: &CreatorWebtoons) -> (ids: Vec<(u32, Type)>)
    ensures
        ids@.len() == listing.result.titles@.len(),
        forall|i: int|
            0 <= i < ids@.len() ==> #[trigger] ids@[i] == (
                listing.result.titles@[i].id,
                listing.result.titles@[i].webtoon_type,
            ),
{
    let titles = &listing.result.titles;
    let mut ids: Vec<(u32, Type)> = Vec::new();
    let mut i: usize = 0;
    while i < titles.len()
        invariant
            i <= titles@.len(),
            ids@.len() == i,
            forall|j: int| 0 <= j < i ==> #[trigger] ids@[j] == (titles@[j].id, titles@[j].webtoon_type),
        decreases titles@.len() - i,
    {
        ids.push((titles[i].id, titles[i].webtoon_type));
        i += 1;
    }
    ids
}

} // verus!

//! The answer of the endpoint that counts an episode's likes.
use crate::stdx::error::Assumption;
use crate::platform::webtoons::client::api::posts::page_id_text;
use crate::platform::webtoons::webtoon::Webtoon;
use crate::stdx::num::decimal_string;
use vstd::prelude::*;

verus! {

/// The body of a likes response.
#[derive(Debug)]
pub struct RawLikesResponse {
    /// The counted contents.
    pub result: Contents,
}

/// The counted contents of a likes response.
#[derive(Debug)]
pub struct Contents {
    /// One entry per counted episode.
    pub contents: Vec<Reaction>,
}

/// The reactions counted for one episode.
#[derive(Debug)]
pub struct Reaction {
    /// One count per kind of reaction.
    pub reactions: Vec<Count>,
}

/// One reaction count.
#[derive(Debug)]
pub struct Count {
    /// How many reacted.
    pub count: u32,
}

/// The likes a likes response gives an episode: the first count of its first entry, or none
/// yet when that entry counts nothing; `None` when there is no entry.
pub open spec fn likes_of(r: RawLikesResponse) -> Option<u32> {
    if r.result.contents@.len() == 0 {
        None
    } else if r.result.contents@[0].reactions@.len() == 0 {
        Some(0)
    } else {
        Some(r.result.contents@[0].reactions@[0].count)
    }
}

/// Reads an episode's likes from a likes response; see [`likes_of`].
pub fn episode_likes(response: &RawLikesResponse) -> (r: Result<u32, Assumption>)
    ensures
        match likes_of(*response) {
            Some(n) => r == Ok::<u32, Assumption>(n),
            None => r is Err,
        },
{
    if response.result.contents.len() == 0 {
        return Err(Assumption::new("`contents` field in `webtoons.com` likes api response was empty"));
    }
    let first = &response.result.contents[0];
    if first.reactions.len() == 0 {
        Ok(0)
    } else {
        Ok(first.reactions[0].count)
    }
}

/// The address of the request for the likes of episode `episode` of `w`.
pub fn likes_url(w: &Webtoon, episode: u16) -> (url: String)
    ensures
        url@ == "https://www.webtoons.com/api/v1/like/search/counts?serviceId=LINEWEBTOON&contentIds="@
            + page_id_text(*w, episode),
{
    let mut url = "https://www.webtoons.com/api/v1/like/search/counts?serviceId=LINEWEBTOON&contentIds=".to_owned();
    url.append(if w.is_canvas() { "c" } else { "w" });
    url.append("_");
    url.append(decimal_string(w.id as u64).as_str());
    url.append("_");
    url.append(decimal_string(episode as u64).as_str());
    url
}

} // verus!

//! What the `webtoons.com` client reads from the platform's endpoints, and the session it
//! sends along.
pub mod api;

use crate::platform::webtoons::meta::{scope_slug, Scope};
use crate::platform::webtoons::webtoon::Webtoon;
use crate::stdx::num::{decimal, decimal_string};
use vstd::prelude::*;

verus! {

/// The session token sent with authenticated requests (the `NEO_SES` cookie): none when no
/// session was given; a given one may still be invalid.
#[derive(Debug, Clone)]
pub struct Session(Option<String>);

impl Session {
    /// The token, if one was given.
    pub closed spec fn token_view(&self) -> Option<Seq<char>> {
        match self.0 {
            Some(s) => Some(s@),
            None => None,
        }
    }

    /// A session with the token `session`.
    pub fn new(session: &str) -> (s: Session)
        ensures
            s.token_view() == Some(session@),
    {
        Session(Some(session.to_owned()))
    }

    /// No session (`Default`).
    pub fn default() -> (s: Session)
        ensures
            s.token_view() is None,
    {
        Session(None)
    }

    /// Whether no session was given or its token is empty.
    pub fn is_empty(&self) -> (b: bool)
        ensures
            b == match self.token_view() {
                Some(t) => t.len() == 0,
                None => true,
            },
    {
        match &self.0 {
            Some(s) => s.as_str().is_empty(),
            None => true,
        }
    }

    /// The token, if one was given.
    pub fn token(&self) -> (t: Option<&str>)
        ensures
            match t {
                Some(s) => self.token_view() == Some(s@),
                None => self.token_view() is None,
            },
    {
        match &self.0 {
            Some(s) => Some(s.as_str()),
            None => None,
        }
    }
}

/// The address of the viewer page of episode `episode` of `w`, whatever its language and
/// slug.
pub open spec fn episode_url_text(w: Webtoon, episode: u16) -> Seq<char> {
    "https://www.webtoons.com/*/"@ + scope_slug(w.scope) + "/*/*/viewer?title_no="@ + decimal(w.id as nat)
        + "&episode_no="@ + decimal(episode as nat)
}

/// The address of the viewer page of episode `episode` of `w`.
pub fn episode_url(w: &Webtoon, episode: u16) -> (url: String)
    ensures
        url@ == episode_url_text(*w, episode),
{
    let mut url = "https://www.webtoons.com/*/".to_owned();
    url.append(w.scope.as_slug());
    url.append("/*/*/viewer?title_no=");
    let id = decimal_string(w.id as u64);
    url.append(id.as_str());
    url.append("&episode_no=");
    let n = decimal_string(episode as u64);
    url.append(n.as_str());
    url
}

/// The address of page `page` of the creator dashboard's episode list of the webtoon with
/// the id `id`.
pub fn dashboard_url(id: u32, page: u16) -> (url: String)
    ensures
        url@ == "https://www.webtoons.com/*/challenge/dashboardEpisode?titleNo="@ + decimal(id as nat) + "&page="@
            + decimal(page as nat),
{
    let mut url = "https://www.webtoons.com/*/challenge/dashboardEpisode?titleNo=".to_owned();
    let i = decimal_string(id as u64);
    url.append(i.as_str());
    url.append("&page=");
    let p = decimal_string(page as u64);
    url.append(p.as_str());
    url
}

/// The address of page `page` (of 100 episodes) of the episode analytics of the webtoon with
/// the id `id`.
pub fn analytics_url(id: u32, page: u16) -> (url: String)
    ensures
        url@ == "https://www.webtoons.com/en/api/v1/creators/analytics/episodes?titleNo="@ + decimal(id as nat)
            + "&page="@ + decimal(page as nat) + "&pageSize=100"@,
{
    let mut url = "https://www.webtoons.com/en/api/v1/creators/analytics/episodes?titleNo=".to_owned();
    let i = decimal_string(id as u64);
    url.append(i.as_str());
    url.append("&page=");
    let p = decimal_string(page as u64);
    url.append(p.as_str());
    url.append("&pageSize=100");
    url
}

/// The address of what the session's user has done with `w` (created it, rated it).
pub fn title_user_info_url(w: &Webtoon) -> (url: String)
    ensures
        url@ == (if w.scope is Canvas {
            "https://www.webtoons.com/canvas/getTitleUserInfo?titleNo="@
        } else {
            "https://www.webtoons.com/getTitleUserInfo?titleNo="@
        }) + decimal(w.id as nat),
{
    let mut url = match w.scope {
        Scope::Canvas => "https://www.webtoons.com/canvas/getTitleUserInfo?titleNo=".to_owned(),
        Scope::Original(_) => "https://www.webtoons.com/getTitleUserInfo?titleNo=".to_owned(),
    };
    let i = decimal_string(w.id as u64);
    url.append(i.as_str());
    url
}

/// The address of the profile page of the creator with the profile segment `profile`.
pub fn creator_page_url(profile: &str) -> (url: String)
    ensures
        url@ == "https://www.webtoons.com/p/community/en/u/"@ + profile@,
{
    let mut url = "https://www.webtoons.com/p/community/en/u/".to_owned();
    url.append(profile);
    url
}

/// The address of the list of webtoons of the creator with the profile segment `profile`.
pub fn creator_webtoons_url(profile: &str) -> (url: String)
    ensures
        url@ == "https://www.webtoons.com/p/community/api/v1/creator/"@ + profile@ + "/titles?language=ENGLISH"@,
{
    let mut url = "https://www.webtoons.com/p/community/api/v1/creator/".to_owned();
    url.append(profile);
    url.append("/titles?language=ENGLISH");
    url
}

} // verus!

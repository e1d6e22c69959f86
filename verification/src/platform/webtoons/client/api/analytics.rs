//! The answer of the creator dashboard's episode analytics endpoint, and the episodes made
//! of it.
use crate::platform::webtoons::webtoon::episode::{Episode, Published};
use crate::stdx::error::Assumption;
use crate::stdx::time::{utc_from_millis, utc_of_millis};
use vstd::prelude::*;

verus! {

/// One page of a webtoon's episode analytics.
#[derive(Debug)]
pub struct SeriesAnalytics {
    /// Which page this is, from 1.
    pub current_page: u16,
    /// The episodes on this page.
    pub episodes: Vec<AnalyticsEpisode>,
    /// The webtoon's title.
    pub title_name: String,
    /// How many episodes there are in all.
    pub total_count: u16,
    /// How many pages there are.
    pub total_pages: u16,
}

/// An episode's analytics.
#[derive(Debug, Clone)]
pub struct AnalyticsEpisode {
    /// Its number.
    pub number: u16,
    /// Its title.
    pub title: String,
    /// How many comments it has, if reported.
    pub comments: Option<u32>,
    /// How many views it has, if reported.
    pub views: Option<u32>,
    /// When it was published, in milliseconds since the epoch.
    pub published: i64,
    /// How many super likes it has, if reported.
    pub super_likes: Option<u32>,
}

/// Whether `e` is the episode an analytics entry `a` describes: its number and title, its
/// publication time as chrono reads it, and its views (none reported is zero).
pub open spec fn analytics_episode_is(a: AnalyticsEpisode, e: Episode) -> bool {
    &&& e.number == a.number
    &&& e.title matches Some(t) && t@ == a.title@
    &&& e.season is None
    &&& utc_of_millis(a.published) matches Some(d) && e.published == Some(Published(d))
    &&& e.views == Some(
        match a.views {
            Some(v) => v,
            None => 0u32,
        },
    )
    &&& e.ad_status is None
    &&& e.published_status is None
}

impl Episode {
    /// The episode an analytics entry describes; fails when chrono does not accept its
    /// publication time.
    pub fn from_analytics(a: &AnalyticsEpisode) -> (r: core::result::Result<Episode, Assumption>)
        ensures
            utc_of_millis(a.published) is Some <==> r is Ok,
            r matches Ok(e) ==> analytics_episode_is(*a, e),
    {
        let published = match utc_from_millis(a.published) {
            Some(d) => Published(d),
            None => return Err(Assumption::new("timestamps returned by `webtoons.com` should be valid Unix timestamps")),
        };
        let views = match a.views {
            Some(v) => v,
            None => 0,
        };
        Ok(Episode {
            number: a.number,
            title: Some(a.title.clone()),
            season: None,
            published: Some(published),
            views: Some(views),
            ad_status: None,
            published_status: None,
        })
    }
}

/// The analytics entries of every page, in order.
pub open spec fn analytics_entries(pages: Seq<SeriesAnalytics>) -> Seq<AnalyticsEpisode> {
    pages.map_values(|p: SeriesAnalytics| p.episodes@).flatten()
}

/// The episodes of a webtoon from every page of its analytics, in order; fails when one of
/// them cannot be read.
pub fn analytics_episodes(pages: Vec<SeriesAnalytics>) -> (r: core::result::Result<Vec<Episode>, Assumption>)
    ensures
        (forall|i: int| 0 <= i < analytics_entries(pages@).len()
            ==> utc_of_millis(#[trigger] analytics_entries(pages@)[i].published) is Some) <==> r is Ok,
        r matches Ok(v) ==> v@.len() == analytics_entries(pages@).len()
            && forall|i: int| 0 <= i < v@.len() ==> analytics_episode_is(analytics_entries(pages@)[i], #[trigger] v@[i]),
{
    let ghost all = analytics_entries(pages@);
    let mut entries: Vec<AnalyticsEpisode> = Vec::new();
    let mut rest = pages;
    while rest.len() > 0
        invariant
            entries@ + analytics_entries(rest@) == all,
        decreases rest@.len(),
    {
        let ghost before = rest@;
        let mut page = rest.remove(0);
        assert(before.map_values(|p: SeriesAnalytics| p.episodes@).drop_first() =~= rest@.map_values(|p: SeriesAnalytics| p.episodes@));
        assert(before.map_values(|p: SeriesAnalytics| p.episodes@).first() == page.episodes@);
        let ghost old = entries@;
        entries.append(&mut page.episodes);
        assert(entries@ + analytics_entries(rest@) =~= old + analytics_entries(before));
    }
    assert(rest@.map_values(|p: SeriesAnalytics| p.episodes@) =~= Seq::<Seq<AnalyticsEpisode>>::empty());
    assert(entries@ =~= all);
    let mut out: Vec<Episode> = Vec::new();
    let mut i: usize = 0;
    while i < entries.len()
        invariant
            i <= entries@.len(),
            entries@ == all,
            all == analytics_entries(pages@),
            out@.len() == i,
            forall|j: int| 0 <= j < i ==> utc_of_millis(#[trigger] all[j].published) is Some,
            forall|j: int| 0 <= j < i ==> analytics_episode_is(all[j], #[trigger] out@[j]),
        decreases entries@.len() - i,
    {
        match Episode::from_analytics(&entries[i]) {
            Ok(e) => out.push(e),
            Err(err) => {
                assert(utc_of_millis(all[i as int].published) is None);
                return Err(err);
            },
        }
        i += 1;
    }
    Ok(out)
}

/// The views an episode reports, none being zero.
pub open spec fn views_or_zero(e: Episode) -> nat {
    match e.views {
        Some(v) => v as nat,
        None => 0,
    }
}

/// The views of all `episodes` added up.
pub open spec fn views_sum(episodes: Seq<Episode>) -> nat
    decreases episodes.len(),
{
    if episodes.len() == 0 {
        0
    } else {
        views_sum(episodes.drop_last()) + views_or_zero(episodes.last())
    }
}

proof fn lemma_views_sum_bound(episodes: Seq<Episode>)
    ensures
        views_sum(episodes) <= episodes.len() * (u32::MAX as nat),
    decreases episodes.len(),
{
    if episodes.len() > 0 {
        lemma_views_sum_bound(episodes.drop_last());
        assert((episodes.len() - 1) * (u32::MAX as nat) + u32::MAX as nat == episodes.len() * (u32::MAX as nat)) by (nonlinear_arith);
    }
}

/// The views of a webtoon's episodes added up, an episode that reports none counting zero.
pub fn total_views(episodes: &Vec<Episode>) -> (t: u64)
    requires
        episodes@.len() <= u32::MAX,
    ensures
        t as nat == views_sum(episodes@),
{
    let mut total: u64 = 0;
    let mut i: usize = 0;
    while i < episodes.len()
        invariant
            i <= episodes@.len(),
            episodes@.len() <= u32::MAX,
            total as nat == views_sum(episodes@.take(i as int)),
        decreases episodes@.len() - i,
    {
        proof {
            assert(episodes@.take(i + 1).drop_last() =~= episodes@.take(i as int));
            lemma_views_sum_bound(episodes@.take(i + 1));
            assert((i + 1) * (u32::MAX as nat) <= (u32::MAX as nat) * (u32::MAX as nat)) by (nonlinear_arith)
                requires i + 1 <= u32::MAX;
        }
        let v: u64 = match episodes[i].views {
            Some(v) => v as u64,
            None => 0,
        };
        total = total + v;
        i += 1;
    }
    assert(episodes@.take(i as int) =~= episodes@);
    total
}

} // verus!

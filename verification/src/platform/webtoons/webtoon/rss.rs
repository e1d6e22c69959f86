//! The episodes a webtoon's RSS feed lists: each item's title, link and publication date.
use crate::platform::webtoons::webtoon::episode::{Episode, Published, PublishedStatus};
use crate::platform::webtoons::webtoon::homepage::year_of;
use crate::stdx::error::Assumption;
use crate::stdx::link::{pairs_view, parse, query_pairs, url_parses, url_query_pairs};
use crate::stdx::num::{parse_decimal, parse_u16};
use crate::stdx::text::{chars_of, eq_str, split_once, split_once_at, string_from_chars, trim, trim_chars};
use crate::stdx::time::{parse_utc_datetime, utc_datetime_parsed, DateOrDateTime};
use vstd::prelude::*;

verus! {

/// `str::trim_end_matches` with a non-empty pattern: `s` without every trailing repeat of
/// `p`.
pub open spec fn strip_trailing_str(s: Seq<char>, p: Seq<char>) -> Seq<char>
    decreases s.len(),
{
    if p.len() > 0 && p.len() <= s.len() && s.skip(s.len() - p.len()) == p {
        strip_trailing_str(s.take(s.len() - p.len()), p)
    } else {
        s
    }
}

/// The date and time part of an item's `pubDate`, e.g. `Tuesday, 10 Sep 2024 16:40:23 GMT`:
/// it must end with `GMT`; what follows its first `,`, without the trailing `GMT` and
/// trimmed, must start with a digit.
pub open spec fn rss_date_text(date: Seq<char>) -> Option<Seq<char>> {
    if !(3 <= date.len() && date.skip(date.len() - 3) == "GMT"@) {
        None
    } else {
        match split_once(date, ","@) {
            None => None,
            Some((_, rest)) => {
                let d = trim(strip_trailing_str(rest, "GMT"@));
                if d.len() > 0 && '0' <= d[0] && d[0] <= '9' {
                    Some(d)
                } else {
                    None
                }
            },
        }
    }
}

/// When an item of the feed was published, from its `pubDate`: its date and time part read
/// as `%d %b %Y %T` in UTC.
pub open spec fn rss_published_of(date: Seq<char>) -> Option<DateOrDateTime> {
    match rss_date_text(date) {
        Some(d) => utc_datetime_parsed(d, "%d %b %Y %T"@),
        None => None,
    }
}

fn strip_trailing_gmt(s: &Vec<char>) -> (r: Vec<char>)
    ensures
        r@ == strip_trailing_str(s@, "GMT"@),
{
    let p = chars_of("GMT");
    proof {
        reveal_strlit("GMT");
    }
    let mut end: usize = s.len();
    assert(s@.take(end as int) =~= s@);
    assert(p@ =~= seq!['G', 'M', 'T']);
    while end >= 3 && s[end - 3] == 'G' && s[end - 2] == 'M' && s[end - 1] == 'T'
        invariant
            end <= s@.len(),
            p@ == "GMT"@,
            p@ == seq!['G', 'M', 'T'],
            strip_trailing_str(s@, p@) == strip_trailing_str(s@.take(end as int), p@),
        decreases end,
    {
        let ghost t = s@.take(end as int);
        assert(t.skip(t.len() - 3) =~= p@);
        assert(t.take(t.len() - 3) =~= s@.take(end - 3));
        end -= 3;
    }
    let ghost t = s@.take(end as int);
    proof {
        if 3 <= t.len() && t.skip(t.len() - 3) == p@ {
            assert(t.skip(t.len() - 3)[0] == s@[end - 3]);
            assert(t.skip(t.len() - 3)[1] == s@[end - 2]);
            assert(t.skip(t.len() - 3)[2] == s@[end - 1]);
        }
    }
    let mut out: Vec<char> = Vec::new();
    let mut i: usize = 0;
    while i < end
        invariant
            i <= end <= s@.len(),
            out@ == s@.take(i as int),
        decreases end - i,
    {
        out.push(s[i]);
        i += 1;
        assert(out@ =~= s@.take(i as int));
    }
    out
}

/// Reads when an item of the feed was published from its `pubDate`; see
/// [`rss_published_of`].
pub fn published(date: &str) -> (r: Result<DateOrDateTime, Assumption>)
    ensures
        match rss_published_of(date@) {
            Some(d) => r == Ok::<DateOrDateTime, Assumption>(d),
            None => r is Err,
        },
{
    let cs = chars_of(date);
    let n = cs.len();
    if !(n >= 3 && cs[n - 3] == 'G' && cs[n - 2] == 'M' && cs[n - 1] == 'T') {
        proof {
            reveal_strlit("GMT");
            if 3 <= n {
                let tail = cs@.skip(n - 3);
                if tail == "GMT"@ {
                    assert(tail[0] == cs@[n - 3] && tail[1] == cs@[n - 2] && tail[2] == cs@[n - 1]);
                }
            }
        }
        return Err(Assumption::new("`webtoons.com` RSS feed `pubDate` should end with `GMT`"));
    }
    proof {
        reveal_strlit("GMT");
        assert(cs@.skip(n - 3) =~= "GMT"@);
    }
    let comma = vec![','];
    assert(comma@ =~= ","@) by {
        reveal_strlit(",");
    }
    let rest = match split_once_at(&cs, &comma) {
        Some((_, rest)) => rest,
        None => return Err(Assumption::new("`webtoons.com` RSS feed `pubDate` should contain `,` separating day of week from date")),
    };
    let stripped = strip_trailing_gmt(&rest);
    let d = trim_chars(stripped.as_slice());
    if !(d.len() > 0 && '0' <= d[0] && d[0] <= '9') {
        return Err(Assumption::new("`webtoons.com` RSS feed `pubDate` should start with a digit after the day of week"));
    }
    let text = string_from_chars(d.as_slice());
    match parse_utc_datetime(text.as_str(), "%d %b %Y %T") {
        Some(dt) => Ok(dt),
        None => Err(Assumption::new("`webtoons.com` RSS feed `pubDate` should be parseable with format `%d %b %Y %T`")),
    }
}

/// The value of the first pair named `key`.
pub open spec fn first_value(pairs: Seq<(Seq<char>, Seq<char>)>, key: Seq<char>) -> Option<Seq<char>>
    decreases pairs.len(),
{
    if pairs.len() == 0 {
        None
    } else if pairs[0].0 == key {
        Some(pairs[0].1)
    } else {
        first_value(pairs.drop_first(), key)
    }
}

/// The episode number an item's link gives: the first `episode_no` of its query, as a
/// `u16`.
pub open spec fn rss_episode_of(link: Seq<char>) -> Option<u16> {
    if !url_parses(link) {
        None
    } else {
        match first_value(url_query_pairs(link), "episode_no"@) {
            Some(v) => match parse_decimal(v, u16::MAX as nat) {
                Ok(n) => Some(n as u16),
                Err(_) => None,
            },
            None => None,
        }
    }
}

/// Reads the episode number from an item's link; see [`rss_episode_of`].
pub fn episode_number(link: &str) -> (r: Result<u16, Assumption>)
    ensures
        match rss_episode_of(link@) {
            Some(n) => r == Ok::<u16, Assumption>(n),
            None => r is Err,
        },
{
    let url = match parse(link) {
        Some(u) => u,
        None => return Err(Assumption::new("`webtoons.com` RSS feed episode url should be a valid url")),
    };
    let pairs = query_pairs(&url);
    let ghost pv = pairs_view(pairs@);
    let mut i: usize = 0;
    assert(pv.skip(0) =~= pv);
    while i < pairs.len()
        invariant
            i <= pairs@.len(),
            pv == pairs_view(pairs@),
            url_parses(link@),
            pv == url_query_pairs(link@),
            first_value(pv, "episode_no"@) == first_value(pv.skip(i as int), "episode_no"@),
        decreases pairs@.len() - i,
    {
        assert(pv.skip(i as int).drop_first() =~= pv.skip(i + 1));
        assert(pv.skip(i as int)[0] == (pairs@[i as int].0@, pairs@[i as int].1@));
        let key = chars_of(pairs[i].0.as_str());
        if eq_str(&key, "episode_no") {
            let value = chars_of(pairs[i].1.as_str());
            return match parse_u16(value.as_slice()) {
                Ok(n) => Ok(n),
                Err(e) => Err(Assumption::unparsed("`episode_no` query parameter should be parseable as a `u16`", &value, e)),
            };
        }
        i += 1;
    }
    Err(Assumption::new("`webtoons.com` RSS feed episode url should have an `episode_no` query parameter"))
}

/// An item of a webtoon's RSS feed, as plain values.
#[derive(Debug, Clone)]
pub struct RssItem {
    /// Its `title`, if any.
    pub title: Option<String>,
    /// Its `link`, if any.
    pub link: Option<String>,
    /// Its `pubDate`, if any.
    pub pub_date: Option<String>,
}

/// Whether an item of the feed can be read: it has a title, a link with an episode number,
/// and a publication date from 2014 on.
pub open spec fn rss_item_ok(item: RssItem) -> bool {
    &&& item.pub_date matches Some(d) && rss_published_of(d@) matches Some(p) && year_of(p) >= 2014
    &&& item.link matches Some(l) && rss_episode_of(l@) is Some
    &&& item.title is Some
}

/// Whether `e` is the episode an item of the feed describes. A feed lists public, free
/// episodes only, so it is published; nothing else is known of it.
pub open spec fn rss_episode_is(item: RssItem, e: Episode) -> bool {
    &&& item.link matches Some(l) && rss_episode_of(l@) == Some(e.number)
    &&& item.title matches Some(t) && e.title matches Some(et) && et@ == t@
    &&& item.pub_date matches Some(d) && rss_published_of(d@) matches Some(p) && e.published == Some(Published(p))
    &&& e.season is None
    &&& e.views is None
    &&& e.ad_status is None
    &&& e.published_status == Some(PublishedStatus::Published)
}

/// Reads the episode an item of a webtoon's RSS feed describes; see [`rss_item_ok`].
pub fn episode_from_item(item: &RssItem) -> (r: Result<Episode, Assumption>)
    ensures
        rss_item_ok(*item) <==> r is Ok,
        r matches Ok(e) ==> rss_episode_is(*item, e),
{
    let date = match &item.pub_date {
        Some(d) => d,
        None => return Err(Assumption::new("`webtoons.com` RSS feed item should always have a `pubDate` element")),
    };
    let when = published(date.as_str())?;
    let link = match &item.link {
        Some(l) => l,
        None => return Err(Assumption::new("`webtoons.com` RSS feed item should always have a `link` element")),
    };
    let number = episode_number(link.as_str())?;
    let title = match &item.title {
        Some(t) => t.clone(),
        None => return Err(Assumption::new("`webtoons.com` RSS feed item should always have a `title` element")),
    };
    if when.year() < 2014 {
        return Err(Assumption::new("`webtoons.com` episode publish year should be 2014 or later"));
    }
    Ok(Episode {
        number,
        title: Some(title),
        season: None,
        published: Some(Published(when)),
        views: None,
        ad_status: None,
        published_status: Some(PublishedStatus::Published),
    })
}

} // verus!

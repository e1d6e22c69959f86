//! The statistics dashboard of a creator on `webtoons.com`.
use crate::stdx::error::Assumption;
use crate::stdx::num::{parse_decimal, parse_u32, IntErrorKind};
use crate::stdx::text::{
    chars_of, eq_str, ends_with_char, replace_all, replace_chars, split_once, split_once_at,
    string_from_chars, strip_trailing, strip_trailing_char,
};
use vstd::prelude::*;

verus! {

/// The statistics of a Webtoon.
#[derive(Debug, PartialEq, Eq, Default)]
pub struct Stats {
    /// How many episodes were published.
    pub updates: u16,
    /// How many subscribe to it.
    pub subscribers: u32,
    /// This month's figures.
    pub this_month: Current,
    /// Last month's figures.
    pub last_month: Previous,
}

/// This month's figures of a Webtoon.
#[derive(Debug, PartialEq, Eq, Default)]
pub struct Current {
    /// How many episodes were published.
    pub updates: u8,
    /// How many views this month.
    pub monthly_views: u32,
    /// How many views today.
    pub daily_views: u32,
    /// The average views per published episode.
    pub average_views_per_update: u32,
}

/// Last month's figures of a Webtoon, where shown.
#[derive(Debug, PartialEq, Eq, Default)]
pub struct Previous {
    /// How many episodes were published.
    pub updates: Option<u8>,
    /// How many views.
    pub monthly_views: Option<u32>,
    /// The average views per published episode.
    pub average_views_per_update: Option<u32>,
}

/// The subscribers a stats-dashboard count stands for: `1.3M` is 1,300,000, and a plain count
/// may hold `,` separators.
pub open spec fn stats_subscribers_value(count: Seq<char>) -> Option<int> {
    if count.len() > 0 && count.last() == 'M' {
        match split_once(strip_trailing(count, 'M'), "."@) {
            None => None,
            Some((m, h)) => match (parse_decimal(m, u32::MAX as nat), parse_decimal(h, u32::MAX as nat)) {
                (Ok(a), Ok(b)) => Some((a * 1_000_000 + b * 100_000) as int),
                _ => None,
            },
        }
    } else {
        match parse_decimal(replace_all(count, ","@, Seq::<char>::empty()), u32::MAX as nat) {
            Ok(n) => Some(n as int),
            Err(_) => None,
        }
    }
}

/// The error for a part of the subscribers count that is not a `u32`: `{what}, got: {got}:
/// {cause}`.
fn unfit(what: &str, got: &[char], e: IntErrorKind) -> (a: Assumption)
    ensures
        a.spec_message() == what@ + ", got: "@ + got@ + ": "@ + crate::stdx::num::int_error_text(e),
{
    let mut m = what.to_owned();
    m.append(", got: ");
    let g = string_from_chars(got);
    m.append(g.as_str());
    Assumption::with_cause(m.as_str(), e.text())
}

/// Reads the subscribers from the stats dashboard's third column: its category text, which
/// must be `Subscribers`, and its count text; see [`stats_subscribers_value`].
pub fn subscribers_from_texts(category: &str, count: &str) -> (r: Result<u32, Assumption>)
    requires
        stats_subscribers_value(count@) matches Some(v) ==> v <= u32::MAX,
    ensures
        category@ != "Subscribers"@ ==> r is Err,
        category@ == "Subscribers"@ ==> match stats_subscribers_value(count@) {
            Some(v) => r == Ok::<u32, Assumption>(v as u32),
            None => r is Err,
        },
{
    let cat = chars_of(category);
    if !eq_str(&cat, "Subscribers") {
        return Err(Assumption::new("expected to find `Subscribers` category on `webtoons.com` stats dashboard at `.col3>p`"));
    }
    let cs = chars_of(count);
    if ends_with_char(&cs, 'M') {
        let digits = strip_trailing_char(&cs, 'M');
        let mut dot: Vec<char> = Vec::new();
        dot.push('.');
        assert(dot@ =~= "."@) by {
            reveal_strlit(".");
        }
        match split_once_at(&digits, &dot) {
            None => Err(Assumption::new("on `webtoons.com` Webtoon homepage, a million subscribers is always represented as a decimal value, with an `M` suffix, eg. `1.3M`, and so should always split on `.`")),
            Some((m, h)) => {
                let millions = match parse_u32(&m) {
                    Ok(n) => n,
                    Err(e) => return Err(unfit("`on the `webtoons.com` Webtoon homepage, the millions part of the subscribers count should always fit in a `u32`", &m, e)),
                };
                let hundred_thousands = match parse_u32(&h) {
                    Ok(n) => n,
                    Err(e) => return Err(unfit("`on the `webtoons.com` Webtoon homepage, the hundred thousands part of the subscribers count should always fit in a `u32`", &h, e)),
                };
                Ok(millions * 1_000_000 + hundred_thousands * 100_000)
            },
        }
    } else {
        let comma = chars_of(",");
        proof {
            reveal_strlit(",");
        }
        let plain = replace_chars(&cs, &comma, &Vec::new());
        match parse_u32(&plain) {
            Ok(n) => Ok(n),
            Err(e) => Err(unfit("`on the `webtoons.com` Webtoon homepage, subscribers count should always fit in a `u32`", &cs, e)),
        }
    }
}

} // verus!

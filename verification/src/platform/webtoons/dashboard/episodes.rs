//! The episode dashboard of a creator on `webtoons.com`: the statuses it shows, the episode
//! list it embeds as JSON, and the episodes gathered from its pages.
use crate::stdx::entities::{decode_html_entities, html_entities_decoded};
use crate::stdx::error::Assumption;
use crate::stdx::math::{bucket_of, MathExt};
use crate::stdx::text::{
    chars_of, ends_with_char, eq_str, lines, lines_chars, replace_all, replace_chars, seqs_of,
    starts_with_at, string_from_chars, strip_leading, strip_leading_chars, strip_trailing,
    strip_trailing_char, trim_start, trim_start_chars, matches_at,
};
use crate::platform::webtoons::webtoon::episode::{dashboard_episode_is, dashboard_episode_ok, Episode};
use vstd::prelude::*;

verus! {

/// The status the dashboard shows for an episode.
#[derive(Debug, Clone, Copy, PartialEq, Eq, Structural)]
pub enum DashboardStatus {
    /// `PUBLISHED`.
    Published,
    /// `DRAFT`.
    Draft,
    /// `APPROVED`.
    Approved,
    /// `REMOVED`.
    Removed,
    /// `READY`.
    Ready,
    /// `AD_ON`: published and behind an ad.
    AdOn,
    /// `AD_OFF`: published and out from behind an ad.
    AdOff,
    /// `IN_REVIEW`.
    InReview,
    /// `DISAPPROVED`.
    Disapproved,
    /// `DISAPPROVED_AUTO`.
    DisapprovedAuto,
}

/// The ad status of an episode, as the dashboard status says.
pub use crate::platform::webtoons::webtoon::episode::AdStatus;

/// The status a dashboard status text names.
pub open spec fn status_of(s: Seq<char>) -> Option<DashboardStatus> {
    if s == "PUBLISHED"@ {
        Some(DashboardStatus::Published)
    } else if s == "DRAFT"@ {
        Some(DashboardStatus::Draft)
    } else if s == "READY"@ {
        Some(DashboardStatus::Ready)
    } else if s == "AD_ON"@ {
        Some(DashboardStatus::AdOn)
    } else if s == "AD_OFF"@ {
        Some(DashboardStatus::AdOff)
    } else if s == "REMOVED"@ {
        Some(DashboardStatus::Removed)
    } else if s == "APPROVED"@ {
        Some(DashboardStatus::Approved)
    } else if s == "IN_REVIEW"@ {
        Some(DashboardStatus::InReview)
    } else if s == "DISAPPROVED"@ {
        Some(DashboardStatus::Disapproved)
    } else if s == "DISAPPROVED_AUTO"@ {
        Some(DashboardStatus::DisapprovedAuto)
    } else {
        None
    }
}

/// The text the dashboard writes for a status, e.g. `AD_ON` for [`DashboardStatus::AdOn`].
pub open spec fn status_text(s: DashboardStatus) -> Seq<char> {
    match s {
        DashboardStatus::Published => "PUBLISHED"@,
        DashboardStatus::Draft => "DRAFT"@,
        DashboardStatus::Approved => "APPROVED"@,
        DashboardStatus::Removed => "REMOVED"@,
        DashboardStatus::Ready => "READY"@,
        DashboardStatus::AdOn => "AD_ON"@,
        DashboardStatus::AdOff => "AD_OFF"@,
        DashboardStatus::InReview => "IN_REVIEW"@,
        DashboardStatus::Disapproved => "DISAPPROVED"@,
        DashboardStatus::DisapprovedAuto => "DISAPPROVED_AUTO"@,
    }
}

/// Each status is read from exactly one text, the one the dashboard writes for it: that
/// text reads as the status, and no other text does.
pub proof fn lemma_status_text_is_the_only_name(d: DashboardStatus, s: Seq<char>)
    ensures
        status_of(status_text(d)) == Some(d),
        status_of(s) == Some(d) ==> s == status_text(d),
{
    // Each text is told apart by its length and its first and last characters.
    reveal_strlit("PUBLISHED");
    assert("PUBLISHED"@.len() == 9 && "PUBLISHED"@[0] == 'P' && "PUBLISHED"@[8] == 'D');
    reveal_strlit("DRAFT");
    assert("DRAFT"@.len() == 5 && "DRAFT"@[0] == 'D' && "DRAFT"@[4] == 'T');
    reveal_strlit("APPROVED");
    assert("APPROVED"@.len() == 8 && "APPROVED"@[0] == 'A' && "APPROVED"@[7] == 'D');
    reveal_strlit("REMOVED");
    assert("REMOVED"@.len() == 7 && "REMOVED"@[0] == 'R' && "REMOVED"@[6] == 'D');
    reveal_strlit("READY");
    assert("READY"@.len() == 5 && "READY"@[0] == 'R' && "READY"@[4] == 'Y');
    reveal_strlit("AD_ON");
    assert("AD_ON"@.len() == 5 && "AD_ON"@[0] == 'A' && "AD_ON"@[4] == 'N');
    reveal_strlit("AD_OFF");
    assert("AD_OFF"@.len() == 6 && "AD_OFF"@[0] == 'A' && "AD_OFF"@[5] == 'F');
    reveal_strlit("IN_REVIEW");
    assert("IN_REVIEW"@.len() == 9 && "IN_REVIEW"@[0] == 'I' && "IN_REVIEW"@[8] == 'W');
    reveal_strlit("DISAPPROVED");
    assert("DISAPPROVED"@.len() == 11 && "DISAPPROVED"@[0] == 'D' && "DISAPPROVED"@[10] == 'D');
    reveal_strlit("DISAPPROVED_AUTO");
    assert("DISAPPROVED_AUTO"@.len() == 16 && "DISAPPROVED_AUTO"@[0] == 'D' && "DISAPPROVED_AUTO"@[15] == 'O');
}

/// The ad status a dashboard status stands for.
pub open spec fn ad_status_of(s: DashboardStatus) -> AdStatus {
    match s {
        DashboardStatus::AdOn => AdStatus::Yes,
        DashboardStatus::AdOff => AdStatus::No,
        _ => AdStatus::Never,
    }
}

/// A dashboard status text that names no status; holds the text.
#[derive(Debug, PartialEq, Eq)]
pub struct DashboardStatusParseError(pub String);

impl DashboardStatusParseError {
    /// The text this error displays.
    pub fn to_string(&self) -> (s: String)
        ensures
            s@ == "failed to parse `"@ + self.0@
                + "` into a `DashboardStatus` expected one of PUBLISHED, READY, DRAFT, IN_REVIEW, APPROVED, REMOVED, AD_ON, or AD_OFF"@,
    {
        let mut s = "failed to parse `".to_owned();
        s.append(self.0.as_str());
        s.append("` into a `DashboardStatus` expected one of PUBLISHED, READY, DRAFT, IN_REVIEW, APPROVED, REMOVED, AD_ON, or AD_OFF");
        s
    }
}

impl DashboardStatus {
    /// Whether the episode is public: published, with or without an ad.
    pub fn is_published(self) -> (b: bool)
        ensures
            b == (self is Published || self is AdOn || self is AdOff),
    {
        match self {
            DashboardStatus::Published | DashboardStatus::AdOn | DashboardStatus::AdOff => true,
            _ => false,
        }
    }

    /// Whether the episode is behind an ad.
    pub fn ad_status(self) -> (a: AdStatus)
        ensures
            a == ad_status_of(self),
    {
        match self {
            DashboardStatus::Published
            | DashboardStatus::Draft
            | DashboardStatus::Ready
            | DashboardStatus::Approved
            | DashboardStatus::Removed
            | DashboardStatus::InReview
            | DashboardStatus::Disapproved
            | DashboardStatus::DisapprovedAuto => AdStatus::Never,
            DashboardStatus::AdOn => AdStatus::Yes,
            DashboardStatus::AdOff => AdStatus::No,
        }
    }

    /// Reads a dashboard status, e.g. `AD_ON` (`FromStr`).
    pub fn from_str(s: &str) -> (r: Result<DashboardStatus, DashboardStatusParseError>)
        ensures
            match status_of(s@) {
                Some(st) => r == Ok::<DashboardStatus, DashboardStatusParseError>(st),
                None => r matches Err(DashboardStatusParseError(e)) && e@ == s@,
            },
    {
        let cs = chars_of(s);
        if eq_str(&cs, "PUBLISHED") {
            Ok(DashboardStatus::Published)
        } else if eq_str(&cs, "DRAFT") {
            Ok(DashboardStatus::Draft)
        } else if eq_str(&cs, "READY") {
            Ok(DashboardStatus::Ready)
        } else if eq_str(&cs, "AD_ON") {
            Ok(DashboardStatus::AdOn)
        } else if eq_str(&cs, "AD_OFF") {
            Ok(DashboardStatus::AdOff)
        } else if eq_str(&cs, "REMOVED") {
            Ok(DashboardStatus::Removed)
        } else if eq_str(&cs, "APPROVED") {
            Ok(DashboardStatus::Approved)
        } else if eq_str(&cs, "IN_REVIEW") {
            Ok(DashboardStatus::InReview)
        } else if eq_str(&cs, "DISAPPROVED") {
            Ok(DashboardStatus::Disapproved)
        } else if eq_str(&cs, "DISAPPROVED_AUTO") {
            Ok(DashboardStatus::DisapprovedAuto)
        } else {
            Err(DashboardStatusParseError(s.to_owned()))
        }
    }

    /// Reads a dashboard status from an owned string (`TryFrom<String>`).
    pub fn try_from(value: String) -> (r: Result<DashboardStatus, DashboardStatusParseError>)
        ensures
            match status_of(value@) {
                Some(st) => r == Ok::<DashboardStatus, DashboardStatusParseError>(st),
                None => r matches Err(DashboardStatusParseError(e)) && e@ == value@,
            },
    {
        DashboardStatus::from_str(value.as_str())
    }
}

/// An episode as the dashboard lists it.
#[derive(Debug)]
pub struct DashboardEpisode {
    /// What the episode is.
    pub metadata: Metadata,
    /// When it was or will be published, in milliseconds since the epoch.
    pub published: Option<i64>,
    /// Its status.
    pub dashboard_status: DashboardStatus,
    /// Whether its comments are shown.
    pub comment_exposure: bool,
}

/// What a dashboard episode is.
#[derive(Debug)]
pub struct Metadata {
    /// Its number.
    pub number: u16,
    /// Its title.
    pub title: String,
    /// Whether it is public.
    pub is_published: bool,
    /// How many views it has.
    pub views: u32,
    /// How many likes it has.
    pub likes: u32,
    /// Its thumbnail; drafts have none.
    pub thumbnail: Option<String>,
    /// The creator's note on it.
    pub creator_note: String,
}

/// The prefix of the line of the dashboard page that holds the episode list.
pub open spec fn list_prefix() -> Seq<char> {
    "dashboardEpisodeList: "@
}

/// Whether a (left-trimmed) line of the dashboard page holds the episode list: it starts
/// with the prefix and ends with `,`.
pub open spec fn is_list_line(l: Seq<char>) -> bool {
    matches_at(l, list_prefix(), 0) && l.len() > 0 && l.last() == ','
}

/// The last line, left-trimmed, that holds the episode list.
pub open spec fn last_list_line(ls: Seq<Seq<char>>) -> Option<Seq<char>>
    decreases ls.len(),
{
    if ls.len() == 0 {
        None
    } else if is_list_line(trim_start(ls.last())) {
        Some(trim_start(ls.last()))
    } else {
        last_list_line(ls.drop_last())
    }
}

/// The JSON an episode-list line holds: without its prefixes and trailing commas, escaped
/// quotes and `<` restored, `&quot;` turned into an escaped quote, then HTML entities
/// decoded.
pub open spec fn cleaned_list(line: Seq<char>) -> Seq<char> {
    let inner = strip_trailing(strip_leading(line, list_prefix()), ',');
    let a = replace_all(inner, "\\'"@, "'"@);
    let b = replace_all(a, "\\x3c"@, "<"@);
    let c = replace_all(b, "&quot;"@, "\\\""@);
    html_entities_decoded(c)
}

/// The JSON of the episode list that a dashboard page embeds, if it embeds one.
pub open spec fn dashboard_json(html: Seq<char>) -> Option<Seq<char>> {
    match last_list_line(lines(html)) {
        Some(l) => Some(cleaned_list(l)),
        None => None,
    }
}

fn cleaned(line: &[char]) -> (r: String)
    ensures
        r@ == cleaned_list(line@),
{
    let prefix = chars_of("dashboardEpisodeList: ");
    let stripped = strip_leading_chars(line, &prefix);
    let inner = strip_trailing_char(&stripped, ',');
    proof {
        reveal_strlit("\\'");
        reveal_strlit("\\x3c");
        reveal_strlit("&quot;");
    }
    let a = replace_chars(&inner, &chars_of("\\'"), &chars_of("'"));
    let b = replace_chars(&a, &chars_of("\\x3c"), &chars_of("<"));
    let c = replace_chars(&b, &chars_of("&quot;"), &chars_of("\\\""));
    let cs = string_from_chars(&c);
    decode_html_entities(cs.as_str())
}

/// The JSON of the episode list embedded in the episode dashboard page `html`: the last
/// line that, left-trimmed, starts with `dashboardEpisodeList: ` and ends with `,`, cleaned
/// as [`cleaned_list`] says.
///
/// Fails when no line holds the list.
pub fn parse(html: &str) -> (r: Result<String, Assumption>)
    ensures
        match dashboard_json(html@) {
            Some(json) => r matches Ok(s) && s@ == json,
            None => r is Err,
        },
{
    let cs = chars_of(html);
    let ls = lines_chars(&cs);
    let ghost all = lines(html@);
    let prefix = chars_of("dashboardEpisodeList: ");
    let mut i: usize = ls.len();
    assert(all.take(i as int) =~= all);
    while i > 0
        invariant
            i <= ls@.len(),
            seqs_of(ls@) == all,
            all == lines(html@),
            prefix@ == list_prefix(),
            last_list_line(all) == last_list_line(all.take(i as int)),
        decreases i,
    {
        let ghost prev = all.take(i as int);
        assert(prev.last() == ls@[i - 1]@);
        assert(prev.drop_last() =~= all.take(i - 1));
        let line = trim_start_chars(&ls[i - 1]);
        if starts_with_at(&line, &prefix, 0) && ends_with_char(&line, ',') {
            assert(is_list_line(line@));
            assert(last_list_line(prev) == Some(line@));
            return Ok(cleaned(&line));
        }
        i -= 1;
    }
    Err(Assumption::new("failed to find line that starts with `dashboardEpisodeList: ` and ends with `,` on `webtoons.com` episode dashboard"))
}

/// How many episodes a page of the dashboard lists at most.
pub const MAX_EPISODES_PER_PAGE: u16 = 10;

/// How many pages of the dashboard to read, from its first page: none for an empty first
/// page, else the page that the highest episode number (listed first) falls on.
///
/// Fails when the first page lists more episodes than a page holds.
pub fn dashboard_pages(first_page: &Vec<DashboardEpisode>) -> (r: Result<u16, Assumption>)
    ensures
        first_page@.len() > 10 ==> r is Err,
        first_page@.len() == 0 ==> r == Ok::<u16, Assumption>(0),
        0 < first_page@.len() <= 10 ==> (r matches Ok(n)
            && n == bucket_of(first_page@[0].metadata.number as nat, 10)),
{
    if first_page.len() > 10 {
        return Err(Assumption::new("`webtoons.com` episode dashboard was expected to have a max of 10 per page"));
    }
    if first_page.len() == 0 {
        return Ok(0);
    }
    Ok(first_page[0].metadata.number.in_bucket_of(MAX_EPISODES_PER_PAGE))
}

/// Whether the `i`-th episode is the first with its number.
pub open spec fn is_first(v: Seq<Episode>, i: int) -> bool {
    forall|j: int| 0 <= j < i ==> #[trigger] v[j].number != v[i].number
}

/// Whether the episodes are listed by strictly increasing number.
pub open spec fn by_number(r: Seq<Episode>) -> bool {
    forall|a: int, b: int| 0 <= a < b < r.len() ==> #[trigger] r[a].number < #[trigger] r[b].number
}

/// Whether `x` is the first episode of `v` with its number.
pub open spec fn first_listed(v: Seq<Episode>, x: Episode) -> bool {
    exists|i: int| 0 <= i < v.len() && is_first(v, i) && v[i] == x
}

/// Whether some episode of `r` has the number `n`.
pub open spec fn has_number(r: Seq<Episode>, n: u16) -> bool {
    exists|a: int| 0 <= a < r.len() && r[a].number == n
}

/// Whether `r` gathers the episodes of `v`: for each number that occurs, the first episode
/// with that number, listed by increasing number.
pub open spec fn gathered(v: Seq<Episode>, r: Seq<Episode>) -> bool {
    &&& by_number(r)
    &&& forall|a: int| 0 <= a < r.len() ==> first_listed(v, #[trigger] r[a])
    &&& forall|i: int| 0 <= i < v.len() ==> has_number(r, #[trigger] v[i].number)
}

proof fn lemma_first_push(v: Seq<Episode>, e: Episode, i: int)
    requires
        0 <= i < v.len(),
    ensures
        is_first(v.push(e), i) == is_first(v, i),
{
    let w = v.push(e);
    assert forall|j: int| 0 <= j < i implies #[trigger] w[j] == v[j] by {}
    assert(w[i] == v[i]);
    if is_first(v, i) {
        assert forall|j: int| 0 <= j < i implies #[trigger] w[j].number != w[i].number by {
            assert(w[j] == v[j]);
        }
    }
    if is_first(w, i) {
        assert forall|j: int| 0 <= j < i implies #[trigger] v[j].number != v[i].number by {
            assert(w[j] == v[j]);
        }
    }
}

proof fn lemma_first_listed_push(v: Seq<Episode>, e: Episode, x: Episode)
    requires
        first_listed(v, x),
    ensures
        first_listed(v.push(e), x),
{
    let i = choose|i: int| 0 <= i < v.len() && is_first(v, i) && v[i] == x;
    lemma_first_push(v, e, i);
    assert(v.push(e)[i] == v[i]);
}

proof fn lemma_gathered_skip(v: Seq<Episode>, e: Episode, out: Seq<Episode>, p: int)
    requires
        gathered(v, out),
        0 <= p < out.len(),
        out[p].number == e.number,
    ensures
        gathered(v.push(e), out),
{
    let w = v.push(e);
    assert forall|a: int| 0 <= a < out.len() implies first_listed(w, #[trigger] out[a]) by {
        lemma_first_listed_push(v, e, out[a]);
    }
    assert forall|i: int| 0 <= i < w.len() implies has_number(out, #[trigger] w[i].number) by {
        if i < v.len() {
            assert(w[i] == v[i]);
            assert(has_number(out, v[i].number));
        } else {
            assert(out[p].number == w[i].number);
        }
    }
}

proof fn lemma_gathered_insert(v: Seq<Episode>, e: Episode, before: Seq<Episode>, p: int)
    requires
        gathered(v, before),
        0 <= p <= before.len(),
        forall|a: int| 0 <= a < p ==> #[trigger] before[a].number < e.number,
        p < before.len() ==> before[p].number > e.number,
    ensures
        gathered(v.push(e), before.insert(p, e)),
{
    let w = v.push(e);
    let out = before.insert(p, e);
    assert forall|j: int| 0 <= j < v.len() implies #[trigger] v[j].number != e.number by {
        assert(has_number(before, v[j].number));
        let a = choose|a: int| 0 <= a < before.len() && before[a].number == v[j].number;
        if a >= p {
            assert(before[p].number <= before[a].number);
        } else {
            assert(before[a].number < e.number);
        }
    }
    assert(is_first(w, v.len() as int)) by {
        assert forall|j: int| 0 <= j < v.len() implies #[trigger] w[j].number != w[v.len() as int].number by {
            assert(w[j] == v[j]);
        }
    }
    assert(first_listed(w, e)) by {
        assert(w[v.len() as int] == e);
    }
    assert forall|a: int, b: int| 0 <= a < b < out.len() implies #[trigger] out[a].number < #[trigger] out[b].number by {
        if b < p {
            assert(out[a] == before[a] && out[b] == before[b]);
        } else if b == p {
            assert(out[a] == before[a]);
        } else if a < p {
            assert(out[a] == before[a] && out[b] == before[b - 1]);
            assert(before[b - 1].number >= before[p].number);
        } else if a == p {
            assert(out[b] == before[b - 1]);
            assert(before[b - 1].number >= before[p].number);
        } else {
            assert(out[a] == before[a - 1] && out[b] == before[b - 1]);
        }
    }
    assert forall|a: int| 0 <= a < out.len() implies first_listed(w, #[trigger] out[a]) by {
        if a != p {
            let b = if a < p { a } else { a - 1 };
            assert(out[a] == before[b]);
            lemma_first_listed_push(v, e, before[b]);
        }
    }
    assert forall|i: int| 0 <= i < w.len() implies has_number(out, #[trigger] w[i].number) by {
        if i < v.len() {
            assert(w[i] == v[i]);
            assert(has_number(before, v[i].number));
            let a = choose|a: int| 0 <= a < before.len() && before[a].number == v[i].number;
            if a < p {
                assert(out[a] == before[a]);
            } else {
                assert(out[a + 1] == before[a]);
            }
        } else {
            assert(out[p] == e);
        }
    }
}

/// Adds `e`, listed after the episodes of `v`, to what gathers them.
fn add_episode(out: &mut Vec<Episode>, e: Episode, Ghost(v): Ghost<Seq<Episode>>)
    requires
        gathered(v, old(out)@),
    ensures
        gathered(v.push(e), final(out)@),
{
    let mut p: usize = 0;
    while p < out.len() && out[p].number < e.number
        invariant
            p <= out@.len(),
            forall|a: int| 0 <= a < p ==> #[trigger] out@[a].number < e.number,
        decreases out@.len() - p,
    {
        p += 1;
    }
    if p < out.len() && out[p].number == e.number {
        proof {
            lemma_gathered_skip(v, e, out@, p as int);
        }
    } else {
        proof {
            lemma_gathered_insert(v, e, out@, p as int);
        }
        out.insert(p, e);
    }
}

/// Gathers the episodes read from all pages of the dashboard: an episode listed twice
/// keeps its first listing, and the result is ordered by number.
///
/// Fails when there are more episodes than a `u16` counts.
pub fn gather_episodes(all: Vec<Episode>) -> (r: Result<Vec<Episode>, Assumption>)
    ensures
        match r {
            Ok(out) => gathered(all@, out@) && out@.len() <= u16::MAX,
            Err(_) => exists|out: Seq<Episode>| gathered(all@, out) && out.len() > u16::MAX,
        },
{
    let ghost orig = all@;
    let mut rest = all;
    let mut out: Vec<Episode> = Vec::new();
    let ghost mut k: int = 0;
    assert(orig.skip(0) =~= orig);
    assert(orig.take(0) =~= Seq::<Episode>::empty());
    assert(gathered(orig.take(0), out@));
    while rest.len() > 0
        invariant
            0 <= k <= orig.len(),
            rest@ == orig.skip(k),
            gathered(orig.take(k), out@),
        decreases rest@.len(),
    {
        let e = rest.remove(0);
        assert(e == orig[k]);
        assert(orig.take(k).push(e) =~= orig.take(k + 1));
        add_episode(&mut out, e, Ghost(orig.take(k)));
        proof {
            assert(orig.skip(k).remove(0) =~= orig.skip(k + 1));
            k = k + 1;
        }
    }
    assert(orig.take(k) =~= orig);
    if out.len() > 65535 {
        return Err(Assumption::new("`webtoons.com` Webtoons should never have more than 65,535 episodes"));
    }
    Ok(out)
}

/// The dashboard entries of every page, in order.
pub open spec fn dashboard_entries(pages: Seq<Vec<DashboardEpisode>>) -> Seq<DashboardEpisode> {
    pages.map_values(|p: Vec<DashboardEpisode>| p@).flatten()
}

/// Whether `c` holds, entry by entry, the episodes that the dashboard entries `es` describe.
pub open spec fn read_from_dashboard(es: Seq<DashboardEpisode>, c: Seq<Episode>) -> bool {
    &&& c.len() == es.len()
    &&& forall|i: int| 0 <= i < c.len() ==> dashboard_episode_is(es[i], #[trigger] c[i])
}

/// Whether one of the dashboard entries `es` describes `ep`.
pub open spec fn described_by_one_of(es: Seq<DashboardEpisode>, ep: Episode) -> bool {
    exists|i: int| 0 <= i < es.len() && dashboard_episode_is(es[i], ep)
}

/// The episodes of a webtoon from every page of its dashboard: each entry read as the
/// episode it describes, then gathered as [`gather_episodes`] does.
///
/// Fails when an entry cannot be read, and when there are more episodes than a `u16`
/// counts. Every episode it gives carries its views and its ad and publication statuses.
pub fn dashboard_episodes(pages: Vec<Vec<DashboardEpisode>>) -> (r: Result<Vec<Episode>, Assumption>)
    ensures
        (forall|i: int| 0 <= i < dashboard_entries(pages@).len()
            ==> dashboard_episode_ok(#[trigger] dashboard_entries(pages@)[i])) || r is Err,
        (forall|i: int| 0 <= i < dashboard_entries(pages@).len()
            ==> dashboard_episode_ok(#[trigger] dashboard_entries(pages@)[i])) ==> exists|c: Seq<Episode>| {
            &&& #[trigger] read_from_dashboard(dashboard_entries(pages@), c)
            &&& match r {
                Ok(v) => gathered(c, v@) && v@.len() <= u16::MAX,
                Err(_) => exists|out: Seq<Episode>| gathered(c, out) && out.len() > u16::MAX,
            }
        },
        r matches Ok(v) ==> forall|a: int| 0 <= a < v@.len() ==> described_by_one_of(dashboard_entries(pages@), #[trigger] v@[a]),
        r matches Ok(v) ==> forall|a: int| 0 <= a < v@.len() ==> (#[trigger] v@[a]).views is Some
            && v@[a].ad_status is Some && v@[a].published_status is Some,
{
    let ghost all = dashboard_entries(pages@);
    let mut entries: Vec<DashboardEpisode> = Vec::new();
    let mut rest = pages;
    while rest.len() > 0
        invariant
            entries@ + dashboard_entries(rest@) == all,
        decreases rest@.len(),
    {
        let ghost before = rest@;
        let mut page = rest.remove(0);
        assert(before.map_values(|p: Vec<DashboardEpisode>| p@).drop_first() =~= rest@.map_values(|p: Vec<DashboardEpisode>| p@));
        assert(before.map_values(|p: Vec<DashboardEpisode>| p@).first() == page@);
        let ghost old = entries@;
        entries.append(&mut page);
        assert(entries@ + dashboard_entries(rest@) =~= old + dashboard_entries(before));
    }
    assert(rest@.map_values(|p: Vec<DashboardEpisode>| p@) =~= Seq::<Seq<DashboardEpisode>>::empty());
    assert(entries@ =~= all);
    let mut converted: Vec<Episode> = Vec::new();
    let mut left = entries;
    let ghost mut k: int = 0;
    assert(all.skip(0) =~= all);
    while left.len() > 0
        invariant
            0 <= k <= all.len(),
            all == dashboard_entries(pages@),
            left@ == all.skip(k),
            converted@.len() == k,
            forall|j: int| 0 <= j < k ==> dashboard_episode_ok(#[trigger] all[j]),
            forall|j: int| 0 <= j < k ==> dashboard_episode_is(all[j], #[trigger] converted@[j]),
        decreases left@.len(),
    {
        let e = left.remove(0);
        assert(e == all[k]);
        match Episode::from_dashboard(e) {
            Ok(ep) => converted.push(ep),
            Err(err) => return Err(err),
        }
        proof {
            assert(all.skip(k).remove(0) =~= all.skip(k + 1));
            k = k + 1;
        }
    }
    let ghost c = converted@;
    assert(read_from_dashboard(all, c));
    let r = gather_episodes(converted);
    if let Ok(v) = &r {
        assert forall|a: int| 0 <= a < v@.len() implies described_by_one_of(all, #[trigger] v@[a]) by {
            assert(first_listed(c, v@[a]));
            let i = choose|i: int| 0 <= i < c.len() && is_first(c, i) && c[i] == v@[a];
            assert(dashboard_episode_is(all[i], c[i]));
        }
        assert forall|a: int| 0 <= a < v@.len() implies (#[trigger] v@[a]).views is Some
            && v@[a].ad_status is Some && v@[a].published_status is Some by {
            assert(first_listed(c, v@[a]));
            let i = choose|i: int| 0 <= i < c.len() && is_first(c, i) && c[i] == v@[a];
            assert(dashboard_episode_is(all[i], c[i]));
        }
    }
    r
}

proof fn lemma_same_numbers(r1: Seq<Episode>, r2: Seq<Episode>)
    requires
        by_number(r1),
        by_number(r2),
        forall|a: int| 0 <= a < r1.len() ==> has_number(r2, #[trigger] r1[a].number),
        forall|b: int| 0 <= b < r2.len() ==> has_number(r1, #[trigger] r2[b].number),
    ensures
        r1.len() == r2.len(),
        forall|k: int| 0 <= k < r1.len() ==> #[trigger] r1[k].number == r2[k].number,
    decreases r1.len(),
{
    if r1.len() == 0 {
        if r2.len() > 0 {
            assert(has_number(r1, r2[0].number));
        }
    } else if r2.len() == 0 {
        assert(has_number(r2, r1[0].number));
    } else {
        assert(has_number(r2, r1[0].number));
        assert(has_number(r1, r2[0].number));
        let b = choose|b: int| 0 <= b < r2.len() && r2[b].number == r1[0].number;
        let a = choose|a: int| 0 <= a < r1.len() && r1[a].number == r2[0].number;
        if b > 0 {
            assert(r2[0].number < r2[b].number);
        }
        if a > 0 {
            assert(r1[0].number < r1[a].number);
        }
        assert(r1[0].number == r2[0].number);
        let t1 = r1.drop_first();
        let t2 = r2.drop_first();
        assert forall|x: int| 0 <= x < t1.len() implies has_number(t2, #[trigger] t1[x].number) by {
            assert(t1[x] == r1[x + 1]);
            assert(r1[0].number < r1[x + 1].number);
            assert(has_number(r2, r1[x + 1].number));
            let y = choose|y: int| 0 <= y < r2.len() && r2[y].number == r1[x + 1].number;
            assert(y != 0);
            assert(t2[y - 1] == r2[y]);
        }
        assert forall|y: int| 0 <= y < t2.len() implies has_number(t1, #[trigger] t2[y].number) by {
            assert(t2[y] == r2[y + 1]);
            assert(r2[0].number < r2[y + 1].number);
            assert(has_number(r1, r2[y + 1].number));
            let x = choose|x: int| 0 <= x < r1.len() && r1[x].number == r2[y + 1].number;
            assert(x != 0);
            assert(t1[x - 1] == r1[x]);
        }
        assert(by_number(t1)) by {
            assert forall|a: int, b: int| 0 <= a < b < t1.len() implies #[trigger] t1[a].number < #[trigger] t1[b].number by {
                assert(t1[a] == r1[a + 1] && t1[b] == r1[b + 1]);
            }
        }
        assert(by_number(t2)) by {
            assert forall|a: int, b: int| 0 <= a < b < t2.len() implies #[trigger] t2[a].number < #[trigger] t2[b].number by {
                assert(t2[a] == r2[a + 1] && t2[b] == r2[b + 1]);
            }
        }
        lemma_same_numbers(t1, t2);
        assert forall|k: int| 0 <= k < r1.len() implies #[trigger] r1[k].number == r2[k].number by {
            if k > 0 {
                assert(t1[k - 1] == r1[k] && t2[k - 1] == r2[k]);
            }
        }
    }
}

/// Gathering is exact: whatever two lists both gather the same episodes are equal, so
/// [`gather_episodes`] has exactly one possible result for each input.
pub proof fn lemma_gathered_unique(v: Seq<Episode>, r1: Seq<Episode>, r2: Seq<Episode>)
    requires
        gathered(v, r1),
        gathered(v, r2),
    ensures
        r1 == r2,
{
    assert forall|a: int| 0 <= a < r1.len() implies has_number(r2, #[trigger] r1[a].number) by {
        assert(first_listed(v, r1[a]));
        let i = choose|i: int| 0 <= i < v.len() && is_first(v, i) && v[i] == r1[a];
        assert(has_number(r2, v[i].number));
    }
    assert forall|b: int| 0 <= b < r2.len() implies has_number(r1, #[trigger] r2[b].number) by {
        assert(first_listed(v, r2[b]));
        let i = choose|i: int| 0 <= i < v.len() && is_first(v, i) && v[i] == r2[b];
        assert(has_number(r1, v[i].number));
    }
    lemma_same_numbers(r1, r2);
    assert forall|k: int| 0 <= k < r1.len() implies #[trigger] r1[k] == r2[k] by {
        assert(first_listed(v, r1[k]));
        assert(first_listed(v, r2[k]));
        let i = choose|i: int| 0 <= i < v.len() && is_first(v, i) && v[i] == r1[k];
        let j = choose|j: int| 0 <= j < v.len() && is_first(v, j) && v[j] == r2[k];
        assert(v[i].number == v[j].number);
        if i < j {
            assert(v[i].number != v[j].number);
        } else if j < i {
            assert(v[j].number != v[i].number);
        }
    }
    assert(r1 =~= r2);
}

} // verus!

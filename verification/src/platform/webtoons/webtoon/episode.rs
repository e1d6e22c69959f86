//! An episode of a Webtoon and what is read about it.
use crate::platform::webtoons::dashboard::episodes::{
    ad_status_of, DashboardEpisode, DashboardStatus,
};
use crate::stdx::error::Assumption;
use crate::stdx::num::{parse_decimal, parse_u8};
use crate::stdx::pattern::{compile, named_capture, regex_named_capture, regex_valid};
use crate::stdx::entities::{decode_html_entities, html_entities_decoded};
use crate::stdx::html::{
    css_valid, elements_view, groups_view, parse_css, parse_document, select, select_within,
    selected, selected_within, Document, Element, ElementView,
};
use crate::stdx::link::{parse, path, url_parses, url_path, url_with_host, with_host};
use crate::stdx::num::{parse_u16, parse_u32};
use crate::stdx::text::{chars_of, eq_str, split_char, split_chars, split_once, split_once_at, string_from_chars};
use crate::platform::webtoons::webtoon::{all_digits};
use crate::platform::webtoons::webtoon::homepage::{attr_of, attr_value, image_host, list_number_of};
use crate::stdx::time::{millis_in_range, utc_from_millis, utc_of_millis, DateOrDateTime};
use vstd::prelude::*;

verus! {

/// The ad status of an episode: whether it is behind an ad.
#[derive(Debug, Clone, Copy, PartialEq, Eq, Structural)]
pub enum AdStatus {
    /// Currently behind an ad.
    Yes,
    /// Not currently behind an ad.
    No,
    /// Never behind an ad.
    Never,
}

/// The publication status of an episode.
#[derive(Debug, Clone, Copy, PartialEq, Eq, Structural)]
pub enum PublishedStatus {
    /// Publicly available, including behind ad or fast-pass paywalls.
    Published,
    /// Not yet published in any capacity.
    Draft,
    /// Published before, and since removed.
    Removed,
}

/// The publication status a dashboard status stands for.
pub open spec fn published_status_of(s: DashboardStatus) -> PublishedStatus {
    match s {
        DashboardStatus::Published | DashboardStatus::AdOn | DashboardStatus::AdOff => PublishedStatus::Published,
        DashboardStatus::Removed => PublishedStatus::Removed,
        _ => PublishedStatus::Draft,
    }
}

/// A dashboard status reads as published exactly when the episode is public (published,
/// with or without an ad, as [`DashboardStatus::is_published`] says), as removed exactly
/// when it was removed, and as a draft in every other case; an episode that is or was
/// behind an ad is published.
pub proof fn lemma_published_status_agrees(s: DashboardStatus)
    ensures
        (published_status_of(s) == PublishedStatus::Published) == (s is Published || s is AdOn || s is AdOff),
        (published_status_of(s) == PublishedStatus::Removed) == (s is Removed),
        (published_status_of(s) == PublishedStatus::Draft)
            == !(s is Published || s is AdOn || s is AdOff || s is Removed),
        ad_status_of(s) != AdStatus::Never ==> published_status_of(s) == PublishedStatus::Published,
{
}

impl PublishedStatus {
    /// The publication status a dashboard status stands for (`From<DashboardStatus>`).
    pub fn from(value: DashboardStatus) -> (p: PublishedStatus)
        ensures
            p == published_status_of(value),
    {
        match value {
            DashboardStatus::Published | DashboardStatus::AdOn | DashboardStatus::AdOff => PublishedStatus::Published,
            DashboardStatus::Draft
            | DashboardStatus::Approved
            | DashboardStatus::Ready
            | DashboardStatus::InReview
            | DashboardStatus::Disapproved
            | DashboardStatus::DisapprovedAuto => PublishedStatus::Draft,
            DashboardStatus::Removed => PublishedStatus::Removed,
        }
    }
}

/// The patterns a season is written in within an episode title, tried in order:
/// `[Season 2]`, `[S2]`, `(S2)`, `(Season 2)`.
pub open spec fn season_pattern(i: int) -> Seq<char> {
    if i == 0 {
        "\\[Season (?P<season>\\d+)\\]"@
    } else if i == 1 {
        "\\[S(?P<season>\\d+)\\]"@
    } else if i == 2 {
        "\\(S(?P<season>\\d+)\\)"@
    } else {
        "\\(Season (?P<season>\\d+)\\)"@
    }
}

/// Each season pattern captures the season as one greedy run of digits, the group
/// `(?P<season>\d+)`, closed at once by the bracket that opened the pattern: in `[S12]` the
/// season is the whole `12`, never its first digit alone.
pub proof fn lemma_season_group_is_all_digits(i: int)
    requires
        0 <= i < 4,
    ensures
        exists|open: Seq<char>, close: Seq<char>| {
            &&& season_pattern(i) == open + "(?P<season>\\d+)"@ + close
            &&& open.len() >= 2
            &&& ((open.take(2) == "\\["@ && close == "\\]"@) || (open.take(2) == "\\("@ && close == "\\)"@))
        },
{
    reveal_strlit("(?P<season>\\d+)");
    reveal_strlit("\\[");
    reveal_strlit("\\]");
    reveal_strlit("\\(");
    reveal_strlit("\\)");
    let (open, close) = if i == 0 {
        reveal_strlit("\\[Season (?P<season>\\d+)\\]");
        reveal_strlit("\\[Season ");
        ("\\[Season "@, "\\]"@)
    } else if i == 1 {
        reveal_strlit("\\[S(?P<season>\\d+)\\]");
        reveal_strlit("\\[S");
        ("\\[S"@, "\\]"@)
    } else if i == 2 {
        reveal_strlit("\\(S(?P<season>\\d+)\\)");
        reveal_strlit("\\(S");
        ("\\(S"@, "\\)"@)
    } else {
        reveal_strlit("\\(Season (?P<season>\\d+)\\)");
        reveal_strlit("\\(Season ");
        ("\\(Season "@, "\\)"@)
    };
    assert(season_pattern(i) =~= open + "(?P<season>\\d+)"@ + close);
    assert(open.take(2) =~= "\\["@ || open.take(2) =~= "\\("@);
}

/// The season a title names, trying the patterns from the `i`-th on: the digits the first
/// matching pattern captures, which must fit in a `u8`; `Err` also for a pattern the regex
/// crate refuses.
pub open spec fn season_from(title: Seq<char>, i: nat) -> Result<Option<u8>, ()>
    decreases 4 - i,
{
    if i >= 4 {
        Ok(None)
    } else if !regex_valid(season_pattern(i as int)) {
        Err(())
    } else {
        match regex_named_capture(season_pattern(i as int), title, "season"@) {
            Some(d) => match parse_decimal(d, u8::MAX as nat) {
                Ok(n) => Ok(Some(n as u8)),
                Err(_) => Err(()),
            },
            None => season_from(title, i + 1),
        }
    }
}

fn season_pattern_text(i: usize) -> (p: &'static str)
    requires
        i < 4,
    ensures
        p@ == season_pattern(i as int),
{
    if i == 0 {
        "\\[Season (?P<season>\\d+)\\]"
    } else if i == 1 {
        "\\[S(?P<season>\\d+)\\]"
    } else if i == 2 {
        "\\(S(?P<season>\\d+)\\)"
    } else {
        "\\(Season (?P<season>\\d+)\\)"
    }
}

/// The season an episode title names, e.g. `2` for `[Season 2] Ep. 5`; see [`season_from`].
pub fn season(title: &str) -> (r: Result<Option<u8>, Assumption>)
    ensures
        match season_from(title@, 0) {
            Ok(s) => r == Ok::<Option<u8>, Assumption>(s),
            Err(_) => r is Err,
        },
{
    let mut i: usize = 0;
    while i < 4
        invariant
            i <= 4,
            season_from(title@, 0) == season_from(title@, i as nat),
        decreases 4 - i,
    {
        let pattern = match compile(season_pattern_text(i)) {
            Some(p) => p,
            None => return Err(Assumption::new("season regex should be valid")),
        };
        match named_capture(&pattern, title, "season") {
            Some(digits) => {
                let cs = chars_of(digits.as_str());
                return match parse_u8(&cs) {
                    Ok(n) => Ok(Some(n)),
                    Err(e) => Err(Assumption::with_cause("regex matched `\\d+` so should be parsable as `u8`", e.text())),
                };
            },
            None => {},
        }
        i += 1;
    }
    Ok(None)
}

/// When an episode was published: a date only when read from a webtoon's homepage, a date
/// and time when read from the creator dashboard.
#[derive(Debug, Clone, Copy, PartialEq, Eq, Structural)]
pub struct Published(pub DateOrDateTime);

impl Published {
    /// The day of the month.
    pub fn day(&self) -> (d: u32)
        ensures
            d == match self.0 {
                DateOrDateTime::Date { day, .. } => day,
                DateOrDateTime::DateTime { day, .. } => day,
            },
    {
        self.0.day()
    }

    /// The month.
    pub fn month(&self) -> (m: u32)
        ensures
            m == match self.0 {
                DateOrDateTime::Date { month, .. } => month,
                DateOrDateTime::DateTime { month, .. } => month,
            },
    {
        self.0.month()
    }

    /// The year.
    pub fn year(&self) -> (y: i32)
        ensures
            y == match self.0 {
                DateOrDateTime::Date { year, .. } => year,
                DateOrDateTime::DateTime { year, .. } => year,
            },
    {
        self.0.year()
    }

    /// The hour in 24-hour format, or `None` for a date only.
    pub fn hour(&self) -> (h: Option<u32>)
        ensures
            h == match self.0 {
                DateOrDateTime::Date { .. } => None,
                DateOrDateTime::DateTime { hour, .. } => Some(hour),
            },
    {
        self.0.hour()
    }

    /// The minute, or `None` for a date only.
    pub fn minute(&self) -> (m: Option<u32>)
        ensures
            m == match self.0 {
                DateOrDateTime::Date { .. } => None,
                DateOrDateTime::DateTime { minute, .. } => Some(minute),
            },
    {
        self.0.minute()
    }

    /// The second, or `None` for a date only.
    pub fn second(&self) -> (s: Option<u32>)
        ensures
            s == match self.0 {
                DateOrDateTime::Date { .. } => None,
                DateOrDateTime::DateTime { second, .. } => Some(second),
            },
    {
        self.0.second()
    }

    /// The Unix timestamp in non-leap seconds, or `None` for a date only.
    pub fn timestamp(&self) -> (t: Option<i64>)
        ensures
            t == match self.0 {
                DateOrDateTime::Date { .. } => None,
                DateOrDateTime::DateTime { timestamp, .. } => Some(timestamp),
            },
    {
        self.0.timestamp()
    }
}

/// An episode of a Webtoon and what is known about it.
#[derive(Debug)]
pub struct Episode {
    /// Its number.
    pub number: u16,
    /// Its title, where known.
    pub title: Option<String>,
    /// The season its title names, where known.
    pub season: Option<u8>,
    /// When it was published, where known.
    pub published: Option<Published>,
    /// How many views it has, where known.
    pub views: Option<u32>,
    /// Whether it is behind an ad, where known.
    pub ad_status: Option<AdStatus>,
    /// Whether it is published, where known.
    pub published_status: Option<PublishedStatus>,
}

/// Whether a dashboard episode can be read: its publication time, if any, is one chrono
/// accepts, and its title names a readable season or none.
pub open spec fn dashboard_episode_ok(e: DashboardEpisode) -> bool {
    &&& (e.published matches Some(ms) ==> millis_in_range(ms))
    &&& season_from(e.metadata.title@, 0) is Ok
}

/// Whether `ep` is the episode the dashboard entry `e` describes: its number, title and the
/// season that title names, its publication time, its views, and the ad and publication
/// statuses its dashboard status stands for.
pub open spec fn dashboard_episode_is(e: DashboardEpisode, ep: Episode) -> bool {
    &&& ep.number == e.metadata.number
    &&& ep.title matches Some(t) && t@ == e.metadata.title@
    &&& Ok::<Option<u8>, ()>(ep.season) == season_from(e.metadata.title@, 0)
    &&& match e.published {
        Some(ms) => ep.published == Some(Published(utc_of_millis(ms).unwrap())),
        None => ep.published is None,
    }
    &&& ep.views == Some(e.metadata.views)
    &&& ep.ad_status == Some(ad_status_of(e.dashboard_status))
    &&& ep.published_status == Some(published_status_of(e.dashboard_status))
}

impl Episode {
    /// The episode a dashboard entry describes.
    ///
    /// Fails when chrono does not accept its publication time and when its title names a
    /// season that cannot be read.
    pub fn from_dashboard(e: DashboardEpisode) -> (r: Result<Episode, Assumption>)
        ensures
            dashboard_episode_ok(e) <==> r is Ok,
            r matches Ok(ep) ==> dashboard_episode_is(e, ep),
    {
        let published = match e.published {
            Some(ms) => match utc_from_millis(ms) {
                Some(d) => Some(Published(d)),
                None => return Err(Assumption::new("`webtoons.com` should always return a valid unix millisecond timestamp")),
            },
            None => None,
        };
        let season = match season(e.metadata.title.as_str()) {
            Ok(s) => s,
            Err(err) => return Err(err),
        };
        Ok(Episode {
            number: e.metadata.number,
            title: Some(e.metadata.title),
            season,
            published,
            views: Some(e.metadata.views),
            ad_status: Some(e.dashboard_status.ad_status()),
            published_status: Some(PublishedStatus::from(e.dashboard_status)),
        })
    }

    /// Its number.
    pub fn number(&self) -> (n: u16)
        ensures
            n == self.number,
    {
        self.number
    }
}

/// A panel (image) of an episode.
#[derive(Debug, Clone)]
pub struct Panel {
    /// The address of its image.
    pub url: String,
    /// The episode it belongs to.
    pub episode: u16,
    /// Its position in the episode, from 1.
    pub number: u16,
    /// The extension of its image, e.g. `jpg`.
    pub ext: String,
    /// Its height in pixels.
    pub height: u32,
    /// Its width in pixels.
    pub width: u32,
}

impl Panel {
    /// The address of the panel's image.
    pub fn url(&self) -> (s: &str)
        ensures
            s@ == self.url@,
    {
        self.url.as_str()
    }
}

/// The panels of an episode, downloaded.
#[derive(Debug, Clone)]
pub struct DownloadedPanels {
    /// The panels.
    pub images: Vec<Panel>,
    /// The height of all panels stacked.
    pub height: u32,
    /// The width of the widest panel.
    pub width: u32,
}

impl DownloadedPanels {
    /// How many panels there are.
    pub fn count(&self) -> (n: usize)
        ensures
            n == self.images@.len(),
    {
        self.images.len()
    }
}

/// The whole pixels a `height` or `width` attribute gives: a whole number, or a number with
/// a fractional part of at least one digit, which is dropped.
pub open spec fn dimension_of(value: Seq<char>) -> Option<u32> {
    let whole = match split_once(value, "."@) {
        Some((integral, fract)) => if fract.len() == 0 || !all_digits(fract) {
            None
        } else {
            Some(integral)
        },
        None => Some(value),
    };
    match whole {
        Some(w) => match parse_decimal(w, u32::MAX as nat) {
            Ok(n) => Some(n as u32),
            Err(_) => None,
        },
        None => None,
    }
}

fn dimension(value: &str, what: &str) -> (r: Result<u32, Assumption>)
    ensures
        match dimension_of(value@) {
            Some(n) => r == Ok::<u32, Assumption>(n),
            None => r is Err,
        },
{
    let cs = chars_of(value);
    let dot = chars_of(".");
    assert(dot@ =~= "."@);
    let mut whole_number = true;
    let whole = match split_once_at(&cs, &dot) {
        Some((integral, fract)) => {
            if fract.len() == 0 {
                return Err(Assumption::new("if there was a float, the fractional component should not be empty: `1.`"));
            }
            if !crate::stdx::text::all_ascii_digits(&fract) {
                return Err(Assumption::new("fractional component of a float should only contain digits"));
            }
            whole_number = false;
            integral
        },
        None => cs,
    };
    match parse_u32(&whole) {
        Ok(n) => Ok(n),
        Err(e) => {
            let mut m = if whole_number {
                "failed to parse whole-number ".to_owned()
            } else {
                "failed to parse integer part `".to_owned()
            };
            if !whole_number {
                m.append(string_from_chars(&whole).as_str());
                m.append("` of float ");
            }
            m.append(what);
            m.append(" `");
            m.append(value);
            m.append("` into a `u32`");
            Err(Assumption::with_cause(m.as_str(), e.text()))
        },
    }
}

/// Whether an image extension is one the platform accepts: JPEG, PNG or GIF.
pub open spec fn known_ext(ext: Seq<char>) -> bool {
    ext == "jpeg"@ || ext == "JPEG"@ || ext == "png"@ || ext == "PNG"@ || ext == "jpg"@ || ext == "JPG"@
        || ext == "gif"@ || ext == "GIF"@
}

/// The panel the `number`-th `img._images` element (from 1) of an episode's page shows:
/// its `data-url` with HTML entities decoded and moved to the image host that needs no
/// `referer`, the extension after the last `.` of that address's path, and its
/// `height` and `width` (at most 800) attributes.
pub open spec fn panel_of(img: ElementView, episode: u16, number: int) -> Option<(Seq<char>, Seq<char>, u32, u32)> {
    match (attr_of(img.attrs, "data-url"@), attr_of(img.attrs, "height"@), attr_of(img.attrs, "width"@)) {
        (Some(raw), Some(h), Some(w)) => {
            let u = html_entities_decoded(raw);
            if !url_parses(u) || number > u16::MAX {
                None
            } else {
                match (url_with_host(u, image_host()), dimension_of(h), dimension_of(w)) {
                    (Some(url), Some(height), Some(width)) => {
                        let ext = split_char(url_path(u), '.').last();
                        if known_ext(ext) && width <= 800 {
                            Some((url, ext, height, width))
                        } else {
                            None
                        }
                    },
                    _ => None,
                }
            }
        },
        _ => None,
    }
}

/// Whether `p` is the panel that [`panel_of`] describes.
pub open spec fn panel_is(img: ElementView, episode: u16, number: int, p: Panel) -> bool {
    panel_of(img, episode, number) matches Some((url, ext, height, width))
        && p.url@ == url && p.ext@ == ext && p.height == height && p.width == width
        && p.episode == episode && p.number == number
}

fn attr_text(img: &Element, name: &str) -> (r: Result<String, Assumption>)
    ensures
        match attr_of(img@.attrs, name@) {
            Some(v) => r matches Ok(s) && s@ == v,
            None => r is Err,
        },
{
    match crate::platform::webtoons::webtoon::homepage::attr_value(&img.attrs, name) {
        Some(v) => Ok(v),
        None => Err(Assumption::new("`img._images` on `webtoons.com` episode page should always have `data-url`, `height` and `width` attributes")),
    }
}

fn known_ext_chars(ext: &Vec<char>) -> (b: bool)
    ensures
        b == known_ext(ext@),
{
    eq_str(ext, "jpeg") || eq_str(ext, "JPEG") || eq_str(ext, "png") || eq_str(ext, "PNG")
        || eq_str(ext, "jpg") || eq_str(ext, "JPG") || eq_str(ext, "gif") || eq_str(ext, "GIF")
}

/// Reads the `number`-th panel (from 1) of episode `episode` from its `img._images`
/// element; see [`panel_of`].
pub fn panel_from(img: &Element, episode: u16, number: usize) -> (r: Result<Panel, Assumption>)
    ensures
        match panel_of(img@, episode, number as int) {
            Some(_) => r matches Ok(p) && panel_is(img@, episode, number as int, p),
            None => r is Err,
        },
{
    let raw = attr_text(img, "data-url")?;
    let h = attr_text(img, "height")?;
    let w = attr_text(img, "width")?;
    let decoded = decode_html_entities(raw.as_str());
    let link = match parse(decoded.as_str()) {
        Some(l) => l,
        None => return Err(Assumption::new("urls found on `webtoons.com` episode page should always be valid urls")),
    };
    if number > 65535 {
        return Err(Assumption::new("`webtoons.com` episodes shouldn't have more than 65,536 panels for an episode"));
    }
    let url = match with_host(&link, "swebtoon-phinf.pstatic.net") {
        Some(u) => u,
        None => return Err(Assumption::new("`swebtoon-phinf.pstatic.net` should be a valid host")),
    };
    let height = dimension(h.as_str(), "height")?;
    let width = dimension(w.as_str(), "width")?;
    let p = path(&link);
    let pieces = split_chars(&chars_of(p.as_str()), '.');
    let ext = &pieces[pieces.len() - 1];
    assert(ext@ == split_char(p@, '.').last());
    if !known_ext_chars(ext) {
        return Err(Assumption::new("`webtoons.com` limits the image formats to just JPEG(`jpeg`, `jpg`), PNG(`png`), and GIF(`gif`, `GIF`)"));
    }
    if width > 800 {
        return Err(Assumption::new("`webtoons.com` enforces strict limits of `800` pixels in width"));
    }
    Ok(Panel { url, episode, number: number as u16, ext: string_from_chars(ext), height, width })
}

/// Whether the episode page `html` can be read for panels: its selectors are valid, and it
/// is an audio reader (which shows no panels), or it shows at least one panel and each can
/// be read.
pub open spec fn panels_ok(html: Seq<char>, episode: u16) -> bool {
    let imgs = selected(html, "img._images"@);
    &&& css_valid("button#soundControl"@)
    &&& (selected(html, "button#soundControl"@).len() == 0 ==> {
        &&& css_valid("img._images"@)
        &&& imgs.len() > 0
        &&& forall|i: int| 0 <= i < imgs.len() ==> #[trigger] panel_of(imgs[i], episode, i + 1) is Some
    })
}

/// Whether `v` are the panels the episode page `html` shows: none on an audio reader, else
/// one per `img._images` element, in order.
pub open spec fn panels_are(html: Seq<char>, episode: u16, v: Seq<Panel>) -> bool {
    let imgs = selected(html, "img._images"@);
    if selected(html, "button#soundControl"@).len() > 0 {
        v.len() == 0
    } else {
        v.len() == imgs.len() && forall|i: int| 0 <= i < imgs.len() ==> panel_is(imgs[i], episode, i + 1, #[trigger] v[i])
    }
}

fn page_selection(doc: &Document, css: &str) -> (r: Result<Vec<Element>, Assumption>)
    ensures
        css_valid(css@) <==> r is Ok,
        r matches Ok(v) ==> elements_view(v@) == selected(doc@, css@),
{
    match parse_css(css) {
        Some(c) => Ok(select(doc, &c)),
        None => Err(Assumption::new("episode page selector should be a valid selector")),
    }
}

/// Reads the panels of episode `episode` from its page `html`; see [`panels_ok`] and
/// [`panels_are`].
pub fn panels(html: &str, episode: u16) -> (r: Result<Vec<Panel>, Assumption>)
    ensures
        panels_ok(html@, episode) <==> r is Ok,
        r matches Ok(v) ==> panels_are(html@, episode, v@),
{
    let doc = parse_document(html);
    let sound = page_selection(&doc, "button#soundControl")?;
    if sound.len() > 0 {
        return Ok(Vec::new());
    }
    let imgs = page_selection(&doc, "img._images")?;
    let ghost iv = elements_view(imgs@);
    let mut out: Vec<Panel> = Vec::new();
    let mut i: usize = 0;
    while i < imgs.len()
        invariant
            i <= imgs@.len(),
            iv == elements_view(imgs@),
            iv == selected(html@, "img._images"@),
            selected(html@, "button#soundControl"@).len() == 0,
            out@.len() == i,
            forall|j: int| 0 <= j < i ==> #[trigger] panel_of(iv[j], episode, j + 1) is Some,
            forall|j: int| 0 <= j < i ==> panel_is(iv[j], episode, j + 1, #[trigger] out@[j]),
        decreases imgs@.len() - i,
    {
        assert(iv[i as int] == imgs@[i as int]@);
        let p = match panel_from(&imgs[i], episode, i + 1) {
            Ok(p) => p,
            Err(e) => {
                assert(panel_of(iv[i as int], episode, i + 1) is None);
                return Err(e);
            },
        };
        out.push(p);
        i += 1;
    }
    if out.len() == 0 {
        return Err(Assumption::new("episodes on `webtoons.com` must have at least one panel on its viewer"));
    }
    Ok(out)
}


/// The title on an episode's page, from its `div.subj_info>.subj_episode` elements: the
/// first one's first text, which must not be empty, with its character references decoded.
pub open spec fn episode_title_of(els: Seq<ElementView>) -> Option<Seq<char>> {
    if els.len() > 0 && els[0].texts.len() > 0 && els[0].texts[0].len() > 0 {
        Some(html_entities_decoded(els[0].texts[0]))
    } else {
        None
    }
}

/// Reads the title from the `div.subj_info>.subj_episode` elements of an episode's page;
/// see [`episode_title_of`].
pub fn episode_title_from(els: &Vec<Element>) -> (r: Result<String, Assumption>)
    ensures
        match episode_title_of(elements_view(els@)) {
            Some(t) => r matches Ok(s) && s@ == t,
            None => r is Err,
        },
{
    if els.len() == 0 {
        return Err(Assumption::new("`.subj_episode`(title) is missing on `webtoons.com` episode page"));
    }
    assert(elements_view(els@)[0] == els@[0]@);
    if els[0].texts.len() == 0 {
        return Err(Assumption::new("`.subj_episode`(title) was found on `webtoons.com` episode page, but no text was present"));
    }
    assert(elements_view(els@)[0].texts[0] == els@[0].texts@[0]@);
    if chars_of(els[0].texts[0].as_str()).len() == 0 {
        return Err(Assumption::new("`webtoons.com` episode title on episode page should never be empty"));
    }
    Ok(decode_html_entities(els[0].texts[0].as_str()))
}

/// The height in whole pixels an `img._images` element gives; see [`dimension_of`].
pub open spec fn height_of(img: ElementView) -> Option<u32> {
    match attr_of(img.attrs, "height"@) {
        Some(h) => dimension_of(h),
        None => None,
    }
}

/// The sum of the heights of `imgs`, if each has one.
pub open spec fn heights_of(imgs: Seq<ElementView>) -> Option<nat>
    decreases imgs.len(),
{
    if imgs.len() == 0 {
        Some(0)
    } else {
        match (heights_of(imgs.drop_last()), height_of(imgs.last())) {
            (Some(a), Some(b)) => Some(a + b as nat),
            _ => None,
        }
    }
}

/// The length of an episode's page in pixels, from its `img._images` elements: the sum of
/// their heights, which must fit in a `u32`.
pub open spec fn length_of(imgs: Seq<ElementView>) -> Option<u32> {
    match heights_of(imgs) {
        Some(n) => if n <= u32::MAX {
            Some(n as u32)
        } else {
            None
        },
        None => None,
    }
}

proof fn lemma_heights_grow(imgs: Seq<ElementView>, i: int)
    requires
        0 <= i <= imgs.len(),
        heights_of(imgs) is Some,
    ensures
        heights_of(imgs.take(i)) matches Some(p) && p <= heights_of(imgs)->Some_0,
    decreases imgs.len() - i,
{
    if i < imgs.len() {
        lemma_heights_grow(imgs, i + 1);
        assert(imgs.take(i + 1).drop_last() =~= imgs.take(i));
    } else {
        assert(imgs.take(i) =~= imgs);
    }
}

/// Reads the length from the `img._images` elements of an episode's page; see
/// [`length_of`].
pub fn length_from(imgs: &Vec<Element>) -> (r: Result<u32, Assumption>)
    ensures
        match length_of(elements_view(imgs@)) {
            Some(n) => r == Ok::<u32, Assumption>(n),
            None => r is Err,
        },
{
    let ghost iv = elements_view(imgs@);
    let mut total: u32 = 0;
    let mut i: usize = 0;
    assert(iv.take(0) =~= Seq::<ElementView>::empty());
    while i < imgs.len()
        invariant
            i <= imgs@.len(),
            iv == elements_view(imgs@),
            heights_of(iv.take(i as int)) == Some(total as nat),
        decreases imgs@.len() - i,
    {
        assert(iv.take(i + 1).drop_last() =~= iv.take(i as int));
        assert(iv.take(i + 1).last() == imgs@[i as int]@);
        let h = match attr_value(&imgs[i].attrs, "height") {
            Some(h) => h,
            None => {
                proof {
                    if heights_of(iv) is Some {
                        lemma_heights_grow(iv, i + 1);
                    }
                }
                return Err(Assumption::new("`height` attribute is missing in `img._images` on `webtoons.com` episode page, and should always have one"));
            },
        };
        let n = match dimension(h.as_str(), "height") {
            Ok(n) => n,
            Err(e) => {
                proof {
                    if heights_of(iv) is Some {
                        lemma_heights_grow(iv, i + 1);
                    }
                }
                return Err(e);
            },
        };
        total = match total.checked_add(n) {
            Some(t) => t,
            None => {
                proof {
                    if heights_of(iv) is Some {
                        lemma_heights_grow(iv, i + 1);
                    }
                }
                return Err(Assumption::new("`webtoons.com` episode length should fit in a `u32`"));
            },
        };
        i += 1;
    }
    assert(iv.take(i as int) =~= iv);
    Ok(total)
}

/// The creator's note on an episode's page, from its `.creator_note>.author_text` elements:
/// none without one; else the first one's first text, which must not be empty, with its
/// character references decoded. `None` when the note is present but unreadable.
pub open spec fn note_of(els: Seq<ElementView>) -> Option<Option<Seq<char>>> {
    if els.len() == 0 {
        Some(None)
    } else if els[0].texts.len() > 0 && els[0].texts[0].len() > 0 {
        Some(Some(html_entities_decoded(els[0].texts[0])))
    } else {
        None
    }
}

/// Reads the creator's note from the `.creator_note>.author_text` elements of an episode's
/// page; see [`note_of`].
pub fn note_from(els: &Vec<Element>) -> (r: Result<Option<String>, Assumption>)
    ensures
        match note_of(elements_view(els@)) {
            Some(Some(n)) => r matches Ok(Some(s)) && s@ == n,
            Some(None) => r matches Ok(None),
            None => r is Err,
        },
{
    if els.len() == 0 {
        return Ok(None);
    }
    assert(elements_view(els@)[0] == els@[0]@);
    if els[0].texts.len() == 0 {
        return Err(Assumption::new("`.author_text` on `webtoons.com` episode page was found, but no text was present"));
    }
    assert(elements_view(els@)[0].texts[0] == els@[0].texts@[0]@);
    if chars_of(els[0].texts[0].as_str()).len() == 0 {
        return Err(Assumption::new("if creator `note` is present on `webtoons.com` episode page, then it must not be empty"));
    }
    Ok(Some(decode_html_entities(els[0].texts[0].as_str())))
}

/// The thumbnail address an entry of the next/previous list gives, from the
/// `a>span.thmb>img._thumbnailImages` elements inside it: the first one's `data-url`, moved
/// to the image host that needs no `referer` header.
pub open spec fn thumb_url_of(imgs: Seq<ElementView>) -> Option<Seq<char>> {
    if imgs.len() == 0 {
        None
    } else {
        match attr_of(imgs[0].attrs, "data-url"@) {
            Some(u) => if url_parses(u) {
                url_with_host(u, image_host())
            } else {
                None
            },
            None => None,
        }
    }
}

/// The thumbnail of episode `episode` on its page, from the entries of the next/previous
/// list (`div.episode_lst>div.episode_cont>ul>li`) and the thumbnail images inside each:
/// every entry up to the episode's own must have a `data-episode-no` that is a `u16`, and
/// the episode's own gives the address.
pub open spec fn thumbnail_of(lis: Seq<ElementView>, thumbs: Seq<Seq<ElementView>>, episode: u16) -> Option<Seq<char>>
    decreases lis.len(),
{
    if lis.len() == 0 || thumbs.len() == 0 {
        None
    } else {
        match list_number_of(lis[0]) {
            Some(n) => if n == episode {
                thumb_url_of(thumbs[0])
            } else {
                thumbnail_of(lis.drop_first(), thumbs.drop_first(), episode)
            },
            None => None,
        }
    }
}

/// Reads the thumbnail of episode `episode` from the next/previous list of its page; see
/// [`thumbnail_of`].
pub fn thumbnail_from(lis: &Vec<Element>, thumbs: &Vec<Vec<Element>>, episode: u16) -> (r: Result<String, Assumption>)
    requires
        thumbs@.len() == lis@.len(),
    ensures
        match thumbnail_of(elements_view(lis@), groups_view(thumbs@), episode) {
            Some(u) => r matches Ok(s) && s@ == u,
            None => r is Err,
        },
{
    let ghost lv = elements_view(lis@);
    let ghost tv = groups_view(thumbs@);
    let mut i: usize = 0;
    assert(lv.skip(0) =~= lv);
    assert(tv.skip(0) =~= tv);
    while i < lis.len()
        invariant
            i <= lis@.len(),
            thumbs@.len() == lis@.len(),
            lv == elements_view(lis@),
            tv == groups_view(thumbs@),
            thumbnail_of(lv, tv, episode) == thumbnail_of(lv.skip(i as int), tv.skip(i as int), episode),
        decreases lis@.len() - i,
    {
        assert(lv.skip(i as int).drop_first() =~= lv.skip(i + 1));
        assert(tv.skip(i as int).drop_first() =~= tv.skip(i + 1));
        assert(lv.skip(i as int)[0] == lis@[i as int]@);
        assert(tv.skip(i as int)[0] == elements_view(thumbs@[i as int]@));
        let n = match attr_value(&lis[i].attrs, "data-episode-no") {
            Some(v) => {
                let vc = chars_of(v.as_str());
                match parse_u16(vc.as_slice()) {
                    Ok(n) => n,
                    Err(e) => return Err(Assumption::with_cause("`data-episode-no` should always be able to parse into a `u16`", e.text())),
                }
            },
            None => return Err(Assumption::new("`data-episode-no`(episodes next/prev list) attribute is missing on `webtoons.com` episode page, `li` should always have one")),
        };
        if n == episode {
            let imgs = &thumbs[i];
            if imgs.len() == 0 {
                return Err(Assumption::new("`img._thumbnailImages`(thumbnail) is missing in `webtoons.com` episode page, should have at least one, even if only for the currently viewed episode"));
            }
            assert(elements_view(imgs@)[0] == imgs@[0]@);
            let url = match attr_value(&imgs[0].attrs, "data-url") {
                Some(u) => u,
                None => return Err(Assumption::new("`data-url` is missing, `img._thumbnailimages` should always have one on `webtoons.com` episode page")),
            };
            let link = match parse(url.as_str()) {
                Some(l) => l,
                None => return Err(Assumption::new("urls found on `webtoons.com` episode page should always be valid urls")),
            };
            return match with_host(&link, "swebtoon-phinf.pstatic.net") {
                Some(u) => Ok(u),
                None => Err(Assumption::new("`swebtoon-phinf.pstatic.net` should be a valid host")),
            };
        }
        i += 1;
    }
    Err(Assumption::new("`webtoons.com` episode page should always have at least one thumbnail url on it, even if just for the currently viewed episode"))
}

/// What an episode's page says of it.
#[derive(Debug)]
pub struct EpisodePage {
    /// Its title.
    pub title: String,
    /// Its thumbnail's address.
    pub thumbnail: String,
    /// Its length in pixels; `None` for an audio reader.
    pub length: Option<u32>,
    /// The creator's note, if any.
    pub note: Option<String>,
    /// Its panels.
    pub panels: Vec<Panel>,
}

/// Why an episode's page could not be read.
#[derive(Debug)]
pub enum EpisodeError {
    /// The episode can only be viewed in the app.
    NotViewable,
    /// The page is not laid out as expected.
    Internal(Assumption),
}

/// The elements of the episode page `html` that the selector `css` matches.
pub open spec fn ep_sel(html: Seq<char>, css: &str) -> Seq<ElementView> {
    selected(html, css@)
}

/// Whether every selector an episode's page is read with is one scraper accepts.
pub open spec fn episode_selectors_valid() -> bool {
    &&& css_valid("div.publishing_wrap>img.qrcode"@)
    &&& css_valid("div.subj_info>.subj_episode"@)
    &&& css_valid("div.episode_lst>div.episode_cont>ul>li"@)
    &&& css_valid("a>span.thmb>img._thumbnailImages"@)
    &&& css_valid("button#soundControl"@)
    &&& css_valid("img._images"@)
    &&& css_valid(".creator_note>.author_text"@)
}

/// Whether the episode page `html` shows an audio reader.
pub open spec fn is_audio(html: Seq<char>) -> bool {
    ep_sel(html, "button#soundControl").len() > 0
}

/// The thumbnail of episode `episode` on its page `html`.
pub open spec fn page_thumbnail(html: Seq<char>, episode: u16) -> Option<Seq<char>> {
    thumbnail_of(
        ep_sel(html, "div.episode_lst>div.episode_cont>ul>li"),
        selected_within(html, "div.episode_lst>div.episode_cont>ul>li"@, "a>span.thmb>img._thumbnailImages"@),
        episode,
    )
}

/// Whether the page `html` of episode `episode`, viewable on the web, can be read.
pub open spec fn episode_page_ok(html: Seq<char>, episode: u16) -> bool {
    &&& episode_title_of(ep_sel(html, "div.subj_info>.subj_episode")) is Some
    &&& page_thumbnail(html, episode) is Some
    &&& (!is_audio(html) ==> length_of(ep_sel(html, "img._images")) is Some)
    &&& note_of(ep_sel(html, ".creator_note>.author_text")) is Some
    &&& panels_ok(html, episode)
}

/// Whether `p` is what the page `html` of episode `episode` says.
pub open spec fn episode_page_is(html: Seq<char>, episode: u16, p: EpisodePage) -> bool {
    &&& episode_title_of(ep_sel(html, "div.subj_info>.subj_episode")) == Some(p.title@)
    &&& page_thumbnail(html, episode) == Some(p.thumbnail@)
    &&& (if is_audio(html) {
        p.length is None
    } else {
        p.length is Some && length_of(ep_sel(html, "img._images")) == p.length
    })
    &&& match note_of(ep_sel(html, ".creator_note>.author_text")) {
        Some(Some(n)) => p.note matches Some(s) && s@ == n,
        _ => p.note is None,
    }
    &&& panels_are(html, episode, p.panels@)
}

fn selection_for_episode(doc: &Document, css: &str) -> (r: Result<Vec<Element>, EpisodeError>)
    ensures
        css_valid(css@) <==> r is Ok,
        r matches Ok(v) ==> elements_view(v@) == selected(doc@, css@),
        r matches Err(e) ==> e is Internal,
{
    match page_selection(doc, css) {
        Ok(v) => Ok(v),
        Err(a) => Err(EpisodeError::Internal(a)),
    }
}

/// Reads the page `html` of episode `episode`: its title, thumbnail, length, creator's note
/// and panels.
///
/// An episode only viewable in the app has nothing to read; otherwise the page is malformed
/// when a part is missing (see [`episode_page_ok`]).
pub fn episode_page(html: &str, episode: u16) -> (r: Result<EpisodePage, EpisodeError>)
    ensures
        !episode_selectors_valid() ==> r matches Err(EpisodeError::Internal(_)),
        episode_selectors_valid() ==> if ep_sel(html@, "div.publishing_wrap>img.qrcode").len() > 0 {
            r matches Err(EpisodeError::NotViewable)
        } else if episode_page_ok(html@, episode) {
            r matches Ok(p) && episode_page_is(html@, episode, p)
        } else {
            r matches Err(EpisodeError::Internal(_))
        },
{
    let doc = parse_document(html);
    let qr = selection_for_episode(&doc, "div.publishing_wrap>img.qrcode")?;
    let subj = selection_for_episode(&doc, "div.subj_info>.subj_episode")?;
    let lis = selection_for_episode(&doc, "div.episode_lst>div.episode_cont>ul>li")?;
    let li_css = match parse_css("div.episode_lst>div.episode_cont>ul>li") {
        Some(c) => c,
        None => return Err(EpisodeError::Internal(Assumption::new("episode page selector should be a valid selector"))),
    };
    let thumb_css = match parse_css("a>span.thmb>img._thumbnailImages") {
        Some(c) => c,
        None => return Err(EpisodeError::Internal(Assumption::new("`a>span.thmb>img._thumbnailImages` should be a valid selector"))),
    };
    let sound = selection_for_episode(&doc, "button#soundControl")?;
    let imgs = selection_for_episode(&doc, "img._images")?;
    let notes = selection_for_episode(&doc, ".creator_note>.author_text")?;
    if qr.len() > 0 {
        return Err(EpisodeError::NotViewable);
    }
    let thumbs = select_within(&doc, &li_css, &thumb_css);
    proof {
        assert(elements_view(lis@).len() == lis@.len());
    }
    let title = match episode_title_from(&subj) {
        Ok(t) => t,
        Err(a) => return Err(EpisodeError::Internal(a)),
    };
    let thumbnail = match thumbnail_from(&lis, &thumbs, episode) {
        Ok(t) => t,
        Err(a) => return Err(EpisodeError::Internal(a)),
    };
    let length = if sound.len() > 0 {
        None
    } else {
        match length_from(&imgs) {
            Ok(n) => Some(n),
            Err(a) => return Err(EpisodeError::Internal(a)),
        }
    };
    let note = match note_from(&notes) {
        Ok(n) => n,
        Err(a) => return Err(EpisodeError::Internal(a)),
    };
    let panels = match panels(html, episode) {
        Ok(p) => p,
        Err(a) => return Err(EpisodeError::Internal(a)),
    };
    Ok(EpisodePage { title, thumbnail, length, note, panels })
}

} // verus!

//! A creator on `webtoons.com`, and what their profile page says of them.
use crate::platform::webtoons::webtoon::homepage::attr_of;
use crate::platform::webtoons::webtoon::homepage::attr_value;
use crate::stdx::entities::{decode_html_entities, html_entities_decoded};
use crate::stdx::error::Assumption;
use crate::stdx::html::{
    css_valid, elements_view, parse_css, parse_document, select, selected, Document, Element,
    ElementView,
};
use crate::stdx::num::{parse_decimal, parse_u32};
use crate::stdx::text::{
    all_ascii_digits, chars_of, eq_str, find, first_match, is_alphanumeric, is_ascii_alnum,
    is_ascii_alphanumeric, matches_at, replace_all, replace_chars, starts_with_at,
    string_from_chars, strip_leading, strip_leading_chars, unicode_alphanumeric,
};
use crate::platform::webtoons::webtoon::all_digits;
use vstd::prelude::*;

verus! {

/// A creator of a Webtoon: their username, and their profile segment
/// (`webtoons.com/*/creator/{profile}`) when they have a `webtoons.com` account.
#[derive(Debug, Clone)]
pub struct Creator {
    /// The creator's username.
    pub username: String,
    /// The creator's profile segment, if they have an account.
    pub profile: Option<String>,
}

impl Creator {
    /// The creator's username.
    pub fn username(&self) -> (s: &str)
        ensures
            s@ == self.username@,
    {
        self.username.as_str()
    }

    /// The creator's profile segment, if they have an account.
    pub fn profile(&self) -> (p: Option<&str>)
        ensures
            match p {
                Some(s) => self.profile matches Some(q) && q@ == s@,
                None => self.profile is None,
            },
    {
        match &self.profile {
            Some(s) => Some(s.as_str()),
            None => None,
        }
    }
}


/// What a creator's profile page says of them.
#[derive(Debug, Clone)]
pub struct CreatorPage {
    /// The username the page is authored under.
    pub username: String,
    /// How many followers the creator has.
    pub followers: u32,
    /// Whether a Patreon is linked to the account.
    pub has_patreon: bool,
    /// The backing profile id, which the creator's webtoons are listed under.
    pub id: String,
}

/// Why a creator's profile page could not be read.
#[derive(Debug)]
pub enum CreatorError {
    /// The page reports `Invalid creator profile.`
    InvalidCreatorProfile,
    /// The page is not laid out as expected.
    Internal(Assumption),
}

/// The elements of the page `html` that the selector `css` matches.
pub open spec fn page_sel(html: Seq<char>, css: &str) -> Seq<ElementView> {
    selected(html, css@)
}

/// Whether `s` starts with `p`.
pub open spec fn starts_with(s: Seq<char>, p: Seq<char>) -> bool {
    matches_at(s, p, 0)
}

/// The username of a profile page, from its `head>meta[name="author"]` elements: the first
/// one's `content`, with its character references decoded.
pub open spec fn username_of(meta: Seq<ElementView>) -> Option<Seq<char>> {
    if meta.len() == 0 {
        None
    } else {
        match attr_of(meta[0].attrs, "content"@) {
            Some(c) => Some(html_entities_decoded(c)),
            None => None,
        }
    }
}

/// Whether a `span` is a metric of the profile's brief: its class starts with
/// `CreatorBriefMetric_count`.
pub open spec fn is_metric(e: ElementView) -> bool {
    attr_of(e.attrs, "class"@) matches Some(c) && starts_with(c, "CreatorBriefMetric_count"@)
}

/// The metric at position `n` (from 0) among `spans`.
pub open spec fn nth_metric(spans: Seq<ElementView>, n: nat) -> Option<ElementView>
    decreases spans.len(),
{
    if spans.len() == 0 {
        None
    } else if is_metric(spans[0]) {
        if n == 0 {
            Some(spans[0])
        } else {
            nth_metric(spans.drop_first(), (n - 1) as nat)
        }
    } else {
        nth_metric(spans.drop_first(), n)
    }
}

/// The follower count of a profile page, from its `span` elements: the first text of the
/// second metric, without its commas, which must be a non-empty run of digits that fits
/// in a `u32`. (The first metric counts the creator's series.)
pub open spec fn followers_of(spans: Seq<ElementView>) -> Option<nat> {
    match nth_metric(spans, 1) {
        Some(e) => if e.texts.len() > 0 {
            let count = replace_all(e.texts[0], ","@, ""@);
            if count.len() > 0 && all_digits(count) {
                match parse_decimal(count, u32::MAX as nat) {
                    Ok(v) => Some(v),
                    Err(_) => None,
                }
            } else {
                None
            }
        } else {
            None
        },
        None => None,
    }
}

/// `s` from its first alphanumeric character on.
pub open spec fn skip_non_alphanumeric(s: Seq<char>) -> Seq<char>
    decreases s.len(),
{
    if s.len() > 0 && !unicode_alphanumeric(s[0]) {
        skip_non_alphanumeric(s.drop_first())
    } else {
        s
    }
}

/// The leading run of ASCII letters and digits of `s`.
pub open spec fn ascii_alphanumeric_prefix(s: Seq<char>) -> Seq<char>
    decreases s.len(),
{
    if s.len() > 0 && is_ascii_alnum(s[0]) {
        seq![s[0]] + ascii_alphanumeric_prefix(s.drop_first())
    } else {
        Seq::empty()
    }
}

/// The creator id a script's text gives, if it mentions `creatorId`: from the first
/// mention, past every repeat of `creatorId` and what is not alphanumeric (`\":\"`), the
/// ASCII letters and digits that follow.
pub open spec fn creator_id_in(text: Seq<char>) -> Option<Seq<char>> {
    match first_match(text, "creatorId"@) {
        Some(i) => Some(
            ascii_alphanumeric_prefix(
                skip_non_alphanumeric(strip_leading(text.skip(i), "creatorId"@)),
            ),
        ),
        None => None,
    }
}

/// The creator id of a profile page, from its `script` elements: that of the first one
/// whose first text mentions `creatorId`.
pub open spec fn id_of(scripts: Seq<ElementView>) -> Option<Seq<char>>
    decreases scripts.len(),
{
    if scripts.len() == 0 {
        None
    } else if scripts[0].texts.len() > 0 && creator_id_in(scripts[0].texts[0]) is Some {
        creator_id_in(scripts[0].texts[0])
    } else {
        id_of(scripts.drop_first())
    }
}

/// Whether a profile page links a Patreon: one of its `img` elements has the `alt`
/// `PATREON`.
pub open spec fn patreon_of(imgs: Seq<ElementView>) -> bool {
    exists|i: int| 0 <= i < imgs.len() && attr_of(#[trigger] imgs[i].attrs, "alt"@) == Some("PATREON"@)
}

/// Whether a `p` element is an error page's text: its class starts with `ErrorPage_text`.
pub open spec fn is_error_text(e: ElementView) -> bool {
    attr_of(e.attrs, "class"@) matches Some(c) && starts_with(c, "ErrorPage_text"@)
}

/// The first error page text among `ps`.
pub open spec fn first_error_text(ps: Seq<ElementView>) -> Option<ElementView>
    decreases ps.len(),
{
    if ps.len() == 0 {
        None
    } else if is_error_text(ps[0]) {
        Some(ps[0])
    } else {
        first_error_text(ps.drop_first())
    }
}

/// Whether a profile page, by its `p` elements, reports an invalid profile: the first
/// error page text has the first text `Invalid creator profile.`
pub open spec fn invalid_of(ps: Seq<ElementView>) -> bool {
    first_error_text(ps) matches Some(e) && e.texts.len() > 0 && e.texts[0] == "Invalid creator profile."@
}

/// The notice on the profile page of an account disabled for a community policy violation.
pub open spec fn disabled_notice() -> Seq<char> {
    "This account has been disabled because it didn\u{2019}t follow our community policy."@
}

/// Whether a profile page, by its `p` elements, belongs to a disabled account: one of them
/// has a first text that starts with [`disabled_notice`].
pub open spec fn disabled_of(ps: Seq<ElementView>) -> bool {
    exists|i: int| 0 <= i < ps.len() && (#[trigger] ps[i]).texts.len() > 0 && starts_with(ps[i].texts[0], disabled_notice())
}

/// Whether every selector a profile page is read with is one scraper accepts.
pub open spec fn page_selectors_valid() -> bool {
    &&& css_valid("p"@)
    &&& css_valid("head>meta[name=\"author\"]"@)
    &&& css_valid("span"@)
    &&& css_valid("script"@)
    &&& css_valid("img"@)
}

/// Whether the profile page `html` of an account in good standing can be read: it has a
/// username, a follower count and a non-empty creator id.
pub open spec fn page_ok(html: Seq<char>) -> bool {
    &&& username_of(page_sel(html, "head>meta[name=\"author\"]")) is Some
    &&& followers_of(page_sel(html, "span")) is Some
    &&& (id_of(page_sel(html, "script")) matches Some(id) && id.len() > 0)
}

/// Whether `p` is what the profile page `html` says.
pub open spec fn page_is(html: Seq<char>, p: CreatorPage) -> bool {
    &&& username_of(page_sel(html, "head>meta[name=\"author\"]")) == Some(p.username@)
    &&& followers_of(page_sel(html, "span")) == Some(p.followers as nat)
    &&& patreon_of(page_sel(html, "img")) == p.has_patreon
    &&& id_of(page_sel(html, "script")) == Some(p.id@)
}

fn page_selection(doc: &Document, css: &str) -> (r: Result<Vec<Element>, CreatorError>)
    ensures
        css_valid(css@) <==> r is Ok,
        r matches Ok(v) ==> elements_view(v@) == selected(doc@, css@),
        r matches Err(e) ==> e is Internal,
{
    match parse_css(css) {
        Some(c) => Ok(select(doc, &c)),
        None => Err(CreatorError::Internal(Assumption::new("creator page selector should be a valid selector"))),
    }
}

fn starts_with_str(s: &Vec<char>, p: &str) -> (b: bool)
    ensures
        b == starts_with(s@, p@),
{
    let pc = chars_of(p);
    starts_with_at(s.as_slice(), pc.as_slice(), 0)
}

fn class_starts_with(e: &Element, p: &str) -> (b: bool)
    ensures
        b == (attr_of(e@.attrs, "class"@) matches Some(c) && starts_with(c, p@)),
{
    match attr_value(&e.attrs, "class") {
        Some(c) => {
            let cs = chars_of(c.as_str());
            starts_with_str(&cs, p)
        },
        None => false,
    }
}

/// Reads the username from the `head>meta[name="author"]` elements of a profile page; see
/// [`username_of`].
pub fn username_from(meta: &Vec<Element>) -> (r: Result<String, Assumption>)
    ensures
        match username_of(elements_view(meta@)) {
            Some(u) => r matches Ok(s) && s@ == u,
            None => r is Err,
        },
{
    if meta.len() == 0 {
        return Err(Assumption::new("`head>meta[name=\"author\"]` should be present on `webtoons.com` creator homepage"));
    }
    assert(elements_view(meta@)[0] == meta@[0]@);
    match attr_value(&meta[0].attrs, "content") {
        Some(name) => Ok(decode_html_entities(name.as_str())),
        None => Err(Assumption::new("`head>meta[name=\"author\"]` should be present on `webtoons.com` creator homepage")),
    }
}

/// Finds the metric at position `n` (from 0) among `spans`; see [`nth_metric`].
fn nth_metric_index(spans: &Vec<Element>, n: usize) -> (r: Option<usize>)
    ensures
        match nth_metric(elements_view(spans@), n as nat) {
            Some(e) => r matches Some(i) && i < spans.len() && spans@[i as int]@ == e,
            None => r is None,
        },
{
    let ghost sv = elements_view(spans@);
    let mut seen: usize = 0;
    let mut i: usize = 0;
    assert(sv.skip(0) =~= sv);
    while i < spans.len()
        invariant
            i <= spans@.len(),
            seen <= n,
            sv == elements_view(spans@),
            nth_metric(sv, n as nat) == nth_metric(sv.skip(i as int), (n - seen) as nat),
        decreases spans@.len() - i,
    {
        assert(sv.skip(i as int).drop_first() =~= sv.skip(i + 1));
        assert(sv.skip(i as int)[0] == spans@[i as int]@);
        if class_starts_with(&spans[i], "CreatorBriefMetric_count") {
            if seen == n {
                return Some(i);
            }
            seen += 1;
        }
        i += 1;
    }
    None
}

/// Reads the follower count from the `span` elements of a profile page; see
/// [`followers_of`].
pub fn followers_from(spans: &Vec<Element>) -> (r: Result<u32, Assumption>)
    ensures
        match followers_of(elements_view(spans@)) {
            Some(v) => r matches Ok(f) && f as nat == v,
            None => r is Err,
        },
{
    let i = match nth_metric_index(spans, 1) {
        Some(i) => i,
        None => return Err(Assumption::new("second `CreatorBriefMetric_count` span should be present on `webtoons.com` creator homepage")),
    };
    let e = &spans[i];
    if e.texts.len() == 0 {
        return Err(Assumption::new("follower count element on `webtoons.com` creator homepage should not be empty"));
    }
    let ghost t = e@.texts[0];
    assert(t == e.texts@[0]@);
    let text = chars_of(e.texts[0].as_str());
    let comma = vec![','];
    let none: Vec<char> = Vec::new();
    let count = replace_chars(text.as_slice(), comma.as_slice(), none.as_slice());
    proof {
        assert(comma@ =~= ","@) by {
            reveal_strlit(",");
        }
        assert(none@ =~= ""@) by {
            reveal_strlit("");
        }
    }
    if count.len() == 0 {
        return Err(Assumption::new("text from creator followers metric on `webtoons.com` Creator homepage should never be empty"));
    }
    if !all_ascii_digits(count.as_slice()) {
        return Err(Assumption::new("text from creator followers metric on `webtoons.com` Creator homepage should only be digits"));
    }
    match parse_u32(count.as_slice()) {
        Ok(v) => Ok(v),
        Err(_) => Err(Assumption::new("follower count in `CreatorBriefMetric_count` element should be plain digits or digits with commas")),
    }
}

/// The creator id in a script's text, if it mentions `creatorId`; see [`creator_id_in`].
fn creator_id_of(text: &Vec<char>) -> (r: Option<Vec<char>>)
    ensures
        match creator_id_in(text@) {
            Some(id) => r matches Some(v) && v@ == id,
            None => r is None,
        },
{
    let key = chars_of("creatorId");
    proof {
        reveal_strlit("creatorId");
    }
    let idx = match find(text.as_slice(), key.as_slice()) {
        Some(idx) => idx,
        None => return None,
    };
    let mut tail: Vec<char> = Vec::new();
    let mut k: usize = idx;
    while k < text.len()
        invariant
            idx <= k <= text@.len(),
            tail@ == text@.subrange(idx as int, k as int),
        decreases text@.len() - k,
    {
        tail.push(text[k]);
        k += 1;
        assert(tail@ =~= text@.subrange(idx as int, k as int));
    }
    assert(tail@ =~= text@.skip(idx as int));
    let rest = strip_leading_chars(tail.as_slice(), key.as_slice());
    let mut i: usize = 0;
    assert(rest@.skip(0) =~= rest@);
    while i < rest.len() && !is_alphanumeric(rest[i])
        invariant
            i <= rest@.len(),
            skip_non_alphanumeric(rest@) == skip_non_alphanumeric(rest@.skip(i as int)),
        decreases rest@.len() - i,
    {
        assert(rest@.skip(i as int).drop_first() =~= rest@.skip(i + 1));
        i += 1;
    }
    let ghost from = rest@.skip(i as int);
    assert(skip_non_alphanumeric(from) == from);
    let mut id: Vec<char> = Vec::new();
    let mut j: usize = i;
    assert(rest@.skip(j as int) == from);
    while j < rest.len() && is_ascii_alphanumeric(rest[j])
        invariant
            i <= j <= rest@.len(),
            from == rest@.skip(i as int),
            id@ + ascii_alphanumeric_prefix(rest@.skip(j as int)) == ascii_alphanumeric_prefix(from),
        decreases rest@.len() - j,
    {
        assert(rest@.skip(j as int).drop_first() =~= rest@.skip(j + 1));
        assert(rest@.skip(j as int)[0] == rest@[j as int]);
        id.push(rest[j]);
        j += 1;
        assert(id@ + ascii_alphanumeric_prefix(rest@.skip(j as int)) =~= ascii_alphanumeric_prefix(from));
    }
    proof {
        if j < rest@.len() {
            assert(rest@.skip(j as int)[0] == rest@[j as int]);
        }
        assert(id@ + Seq::<char>::empty() =~= id@);
    }
    Some(id)
}

/// Reads the creator id from the `script` elements of a profile page; see [`id_of`].
pub fn id_from(scripts: &Vec<Element>) -> (r: Result<String, Assumption>)
    ensures
        match id_of(elements_view(scripts@)) {
            Some(id) => if id.len() > 0 {
                r matches Ok(s) && s@ == id
            } else {
                r is Err
            },
            None => r is Err,
        },
{
    let ghost sv = elements_view(scripts@);
    let mut i: usize = 0;
    assert(sv.skip(0) =~= sv);
    while i < scripts.len()
        invariant
            i <= scripts@.len(),
            sv == elements_view(scripts@),
            id_of(sv) == id_of(sv.skip(i as int)),
        decreases scripts@.len() - i,
    {
        assert(sv.skip(i as int).drop_first() =~= sv.skip(i + 1));
        assert(sv.skip(i as int)[0] == scripts@[i as int]@);
        if scripts[i].texts.len() > 0 {
            assert(sv.skip(i as int)[0].texts[0] == scripts@[i as int].texts@[0]@);
            let text = chars_of(scripts[i].texts[0].as_str());
            match creator_id_of(&text) {
                Some(id) => {
                    if id.len() == 0 {
                        return Err(Assumption::new("`creatorId` on `webtoons.com` creator homepage should never be empty"));
                    }
                    return Ok(string_from_chars(id.as_slice()));
                },
                None => {},
            }
        }
        i += 1;
    }
    Err(Assumption::new("should always find `creatorId` in script tag in `webtoons.com` Creator homepage html"))
}

/// Whether one of the `img` elements of a profile page has the `alt` `PATREON`; see
/// [`patreon_of`].
pub fn has_patreon_from(imgs: &Vec<Element>) -> (b: bool)
    ensures
        b == patreon_of(elements_view(imgs@)),
{
    let ghost iv = elements_view(imgs@);
    let mut i: usize = 0;
    while i < imgs.len()
        invariant
            i <= imgs@.len(),
            iv == elements_view(imgs@),
            forall|j: int| 0 <= j < i ==> attr_of(#[trigger] iv[j].attrs, "alt"@) != Some("PATREON"@),
        decreases imgs@.len() - i,
    {
        assert(iv[i as int] == imgs@[i as int]@);
        match attr_value(&imgs[i].attrs, "alt") {
            Some(alt) => {
                let a = chars_of(alt.as_str());
                if eq_str(&a, "PATREON") {
                    assert(attr_of(iv[i as int].attrs, "alt"@) == Some("PATREON"@));
                    return true;
                }
                assert(a@ != "PATREON"@);
            },
            None => {},
        }
        i += 1;
    }
    false
}

/// Whether the `p` elements of a profile page report an invalid profile; see
/// [`invalid_of`].
pub fn is_invalid_from(ps: &Vec<Element>) -> (b: bool)
    ensures
        b == invalid_of(elements_view(ps@)),
{
    let ghost pv = elements_view(ps@);
    let mut i: usize = 0;
    assert(pv.skip(0) =~= pv);
    while i < ps.len()
        invariant
            i <= ps@.len(),
            pv == elements_view(ps@),
            first_error_text(pv) == first_error_text(pv.skip(i as int)),
        decreases ps@.len() - i,
    {
        assert(pv.skip(i as int).drop_first() =~= pv.skip(i + 1));
        assert(pv.skip(i as int)[0] == ps@[i as int]@);
        if class_starts_with(&ps[i], "ErrorPage_text") {
            if ps[i].texts.len() == 0 {
                return false;
            }
            assert(pv.skip(i as int)[0].texts[0] == ps@[i as int].texts@[0]@);
            let t = chars_of(ps[i].texts[0].as_str());
            return eq_str(&t, "Invalid creator profile.");
        }
        i += 1;
    }
    false
}

/// Whether the `p` elements of a profile page show the notice of a disabled account; see
/// [`disabled_of`].
pub fn is_disabled_from(ps: &Vec<Element>) -> (b: bool)
    ensures
        b == disabled_of(elements_view(ps@)),
{
    let ghost pv = elements_view(ps@);
    let mut i: usize = 0;
    while i < ps.len()
        invariant
            i <= ps@.len(),
            pv == elements_view(ps@),
            forall|j: int| 0 <= j < i ==> !((#[trigger] pv[j]).texts.len() > 0 && starts_with(pv[j].texts[0], disabled_notice())),
        decreases ps@.len() - i,
    {
        assert(pv[i as int] == ps@[i as int]@);
        if ps[i].texts.len() > 0 {
            assert(pv[i as int].texts[0] == ps@[i as int].texts@[0]@);
            let t = chars_of(ps[i].texts[0].as_str());
            if starts_with_str(&t, "This account has been disabled because it didn\u{2019}t follow our community policy.") {
                return true;
            }
        }
        i += 1;
    }
    false
}

/// Reads a creator's profile page `html`.
///
/// An invalid profile is an error; a disabled account has no page to read (`None`);
/// otherwise the username, follower count, Patreon link and creator id are read, and the
/// page is malformed when one is missing (see [`page_ok`]).
pub fn homepage(html: &str) -> (r: Result<Option<CreatorPage>, CreatorError>)
    ensures
        !page_selectors_valid() ==> r matches Err(CreatorError::Internal(_)),
        page_selectors_valid() ==> {
            let ps = page_sel(html@, "p");
            if invalid_of(ps) {
                r matches Err(CreatorError::InvalidCreatorProfile)
            } else if disabled_of(ps) {
                r matches Ok(None)
            } else if page_ok(html@) {
                r matches Ok(Some(p)) && page_is(html@, p)
            } else {
                r matches Err(CreatorError::Internal(_))
            }
        },
{
    let doc = parse_document(html);
    let ps = page_selection(&doc, "p")?;
    let meta = page_selection(&doc, "head>meta[name=\"author\"]")?;
    let spans = page_selection(&doc, "span")?;
    let scripts = page_selection(&doc, "script")?;
    let imgs = page_selection(&doc, "img")?;
    if is_invalid_from(&ps) {
        return Err(CreatorError::InvalidCreatorProfile);
    }
    if is_disabled_from(&ps) {
        return Ok(None);
    }
    let username = match username_from(&meta) {
        Ok(u) => u,
        Err(a) => return Err(CreatorError::Internal(a)),
    };
    let followers = match followers_from(&spans) {
        Ok(f) => f,
        Err(a) => return Err(CreatorError::Internal(a)),
    };
    let has_patreon = has_patreon_from(&imgs);
    let id = match id_from(&scripts) {
        Ok(i) => i,
        Err(a) => return Err(CreatorError::Internal(a)),
    };
    Ok(Some(CreatorPage { username, followers, has_patreon, id }))
}
} // verus!

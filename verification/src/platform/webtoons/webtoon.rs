//! A Webtoon on `webtoons.com`: where it lives, and what is read from its pages.
pub mod episode;
pub mod homepage;
pub mod post;
pub mod rss;

use crate::platform::webtoons::error::{ClientError, InvalidWebtoonUrl};
use crate::platform::webtoons::originals::Schedule;
use crate::platform::webtoons::webtoon::homepage::Homepage;
use crate::platform::webtoons::meta::{
    parse_genre_message, scope_of, scope_slug, Scope, Type,
};
use crate::stdx::link::{
    parse, path_segments, query, serialization, strings_view, url_parses, url_path_segments,
    url_query, url_serialization, Link,
};
use crate::stdx::num::{decimal, decimal_string, parse_decimal, parse_u32};
use crate::stdx::text::{all_ascii_digits, chars_of, eq_str, split_once, split_once_at};
use crate::stdx::error::Assumption;
use crate::stdx::html::{css_valid, elements_view, parse_css, parse_document, select, selected, Element, ElementView};
use crate::platform::webtoons::webtoon::homepage::{attr_of, attr_value};
use vstd::prelude::*;

verus! {

/// A Webtoon on `webtoons.com`, known by its id and the scope and slug of its homepage
/// address (`https://www.webtoons.com/en/{scope}/{slug}/list?title_no={id}`).
#[derive(Debug, Clone)]
pub struct Webtoon {
    /// The id (`title_no`).
    pub id: u32,
    /// Its genre for an Original, `canvas` for a Canvas webtoon.
    pub scope: Scope,
    /// The name in its address, e.g. `tower-of-god`.
    pub slug: String,
}

/// Two webtoons are the same webtoon when they have the same id and the same type: Originals
/// and Canvas webtoons are numbered apart, so one id can name one of each. The genre in an
/// Original's scope and the slug play no part.
impl PartialEq for Webtoon {
    fn eq(&self, other: &Webtoon) -> (b: bool) {
        self.id == other.id && self.is_canvas() == other.is_canvas()
    }
}

impl vstd::std_specs::cmp::PartialEqSpecImpl for Webtoon {
    open spec fn obeys_eq_spec() -> bool {
        true
    }

    open spec fn eq_spec(&self, other: &Webtoon) -> bool {
        self.id == other.id && (self.scope is Canvas) == (other.scope is Canvas)
    }
}

impl Eq for Webtoon {}

/// What went wrong reading a homepage address: `None` for an address that is not on the
/// English site, else the reason the address is malformed.
pub type UrlFault = Option<Seq<char>>;

/// Whether every character is an ASCII digit.
pub open spec fn all_digits(s: Seq<char>) -> bool {
    forall|i: int| 0 <= i < s.len() ==> '0' <= #[trigger] s[i] && s[i] <= '9'
}

/// What a homepage address with these path segments and query names: its scope, slug and
/// id, or why it names none.
pub open spec fn webtoon_url_outcome(
    segments: Option<Seq<Seq<char>>>,
    query: Option<Seq<char>>,
) -> Result<(Scope, Seq<char>, u32), UrlFault> {
    match segments {
        None => Err(Some("a `webtoons.com` Webtoon url should have path segments (`/`); this url did not"@)),
        Some(s) => if s.len() == 0 || s[0] != "en"@ {
            Err(None)
        } else if s.len() < 2 {
            Err(Some("provided url didn't have a second segment representing the scope, e.g. `canvas`, `fantasy`"@))
        } else {
            match scope_of(s[1]) {
                None => Err(Some("found an unexpected scope in provided `webtoons.com` url: "@ + parse_genre_message(s[1]))),
                Some(scope) => if s.len() < 3 {
                    Err(Some("provided url didn't have a third segment representing the slug, e.g. `tower-of-god`"@))
                } else {
                    match query {
                        None => Err(Some("a valid `webtoons.com` Webtoon url should have a `title_no` query, but none was found"@)),
                        Some(q) => match split_once(q, "="@) {
                            None => Err(Some("`title_no` should always have a `=` separator"@)),
                            Some((key, value)) => if key != "title_no"@ {
                                Err(Some("provided url did not have a `title_no` query"@))
                            } else if value.len() == 0 {
                                Err(Some("provided url had a `title_no` query but nothing after the `=`"@))
                            } else if !all_digits(value) {
                                Err(Some("provided url had a `title_no` query but the value was not a valid digit"@))
                            } else {
                                match parse_decimal(value, u32::MAX as nat) {
                                    Ok(n) => Ok((scope, s[2], n as u32)),
                                    Err(_) => Err(Some("the `title_no` value was too large to fit in a `u32`: number too large to fit in target type"@)),
                                }
                            },
                        },
                    }
                },
            }
        },
    }
}

/// The error a fault reading the address `url` is reported as.
pub open spec fn url_error_is(e: InvalidWebtoonUrl, fault: UrlFault, url: Seq<char>) -> bool {
    match fault {
        None => e is UnsupportedLanguage,
        Some(reason) => e matches InvalidWebtoonUrl::Malformed { url: u, reason: r } && u@ == url && r@ == reason,
    }
}

/// What reading the address parsed from `input` gives.
pub open spec fn parse_url_is(input: Seq<char>, r: Result<(Scope, String, u32), InvalidWebtoonUrl>) -> bool {
    match webtoon_url_outcome(url_path_segments(input), url_query(input)) {
        Ok((scope, slug, id)) => r matches Ok((sc, sl, i)) && sc == scope && sl@ == slug && i == id,
        Err(fault) => r matches Err(e) && url_error_is(e, fault, url_serialization(input)),
    }
}

fn malformed(url: &Link, reason: String) -> (e: InvalidWebtoonUrl)
    ensures
        e matches InvalidWebtoonUrl::Malformed { url: u, reason: r } && u@ == url_serialization(url@) && r@ == reason@,
{
    InvalidWebtoonUrl::Malformed { url: serialization(url), reason }
}

/// Reads the scope, slug and id of a Webtoon from its parsed homepage address, e.g.
/// `https://www.webtoons.com/en/fantasy/tower-of-god/list?title_no=95`.
pub fn parse_url(url: &Link) -> (r: Result<(Scope, String, u32), InvalidWebtoonUrl>)
    ensures
        parse_url_is(url@, r),
{
    let segments = match path_segments(url) {
        Some(s) => s,
        None => return Err(malformed(url, "a `webtoons.com` Webtoon url should have path segments (`/`); this url did not".to_owned())),
    };
    let ghost segs = strings_view(segments@);
    assert(segs.len() == segments@.len());
    if segments.len() == 0 {
        return Err(InvalidWebtoonUrl::UnsupportedLanguage);
    }
    assert(segs[0] == segments@[0]@);
    let first = chars_of(segments[0].as_str());
    if !eq_str(&first, "en") {
        return Err(InvalidWebtoonUrl::UnsupportedLanguage);
    }
    if segments.len() < 2 {
        return Err(malformed(url, "provided url didn't have a second segment representing the scope, e.g. `canvas`, `fantasy`".to_owned()));
    }
    assert(segs[1] == segments@[1]@);
    let scope = match Scope::from_str(segments[1].as_str()) {
        Ok(scope) => scope,
        Err(err) => {
            let mut reason = "found an unexpected scope in provided `webtoons.com` url: ".to_owned();
            let message = err.to_string();
            reason.append(message.as_str());
            return Err(malformed(url, reason));
        },
    };
    if segments.len() < 3 {
        return Err(malformed(url, "provided url didn't have a third segment representing the slug, e.g. `tower-of-god`".to_owned()));
    }
    assert(segs[2] == segments@[2]@);
    let slug = segments[2].clone();
    let q = match query(url) {
        Some(q) => q,
        None => return Err(malformed(url, "a valid `webtoons.com` Webtoon url should have a `title_no` query, but none was found".to_owned())),
    };
    let qs = chars_of(q.as_str());
    let mut sep: Vec<char> = Vec::new();
    sep.push('=');
    assert(sep@ =~= "="@) by {
        reveal_strlit("=");
    }
    match split_once_at(&qs, &sep) {
        None => Err(malformed(url, "`title_no` should always have a `=` separator".to_owned())),
        Some((key, value)) => {
            if !eq_str(&key, "title_no") {
                Err(malformed(url, "provided url did not have a `title_no` query".to_owned()))
            } else if value.len() == 0 {
                Err(malformed(url, "provided url had a `title_no` query but nothing after the `=`".to_owned()))
            } else if !all_ascii_digits(&value) {
                Err(malformed(url, "provided url had a `title_no` query but the value was not a valid digit".to_owned()))
            } else {
                match parse_u32(&value) {
                    Ok(id) => Ok((scope, slug, id)),
                    Err(_) => Err(malformed(url, "the `title_no` value was too large to fit in a `u32`: number too large to fit in target type".to_owned())),
                }
            }
        },
    }
}

impl Webtoon {
    /// The Webtoon whose homepage address is `url`, e.g.
    /// `https://www.webtoons.com/en/fantasy/tower-of-god/list?title_no=95`.
    ///
    /// Fails when the text is not an address, when the address is not on the English site,
    /// and when it is malformed.
    pub fn from_url(url: &str) -> (r: Result<Webtoon, InvalidWebtoonUrl>)
        ensures
            !url_parses(url@) ==> (r matches Err(InvalidWebtoonUrl::Malformed { url: u, reason: m })
                && u@ == url@ && m@ == "invalid url schema"@),
            url_parses(url@) ==> match webtoon_url_outcome(url_path_segments(url@), url_query(url@)) {
                Ok((scope, slug, id)) => r matches Ok(w) && w.scope == scope && w.slug@ == slug && w.id == id,
                Err(fault) => r matches Err(e) && url_error_is(e, fault, url_serialization(url@)),
            },
    {
        let link = match parse(url) {
            Some(l) => l,
            None => return Err(InvalidWebtoonUrl::Malformed { url: url.to_owned(), reason: "invalid url schema".to_owned() }),
        };
        match parse_url(&link) {
            Ok((scope, slug, id)) => Ok(Webtoon { id, scope, slug }),
            Err(e) => Err(e),
        }
    }

    /// The id of this Webtoon.
    pub fn id(&self) -> (id: u32)
        ensures
            id == self.id,
    {
        self.id
    }

    /// Whether this is an Original or a Canvas webtoon.
    pub fn webtoon_type(&self) -> (t: Type)
        ensures
            t == (if self.scope is Canvas { Type::Canvas } else { Type::Original }),
    {
        self.scope.webtoon_type()
    }

    /// Whether this is an Original webtoon.
    pub fn is_original(&self) -> (b: bool)
        ensures
            b == (self.scope is Original),
    {
        match self.scope {
            Scope::Original(_) => true,
            Scope::Canvas => false,
        }
    }

    /// Whether this is a Canvas webtoon.
    pub fn is_canvas(&self) -> (b: bool)
        ensures
            b == (self.scope is Canvas),
    {
        match self.scope {
            Scope::Original(_) => false,
            Scope::Canvas => true,
        }
    }
}

/// The homepage address of a Webtoon, at `page` of its episode list when one is given.
pub open spec fn homepage_url_text(w: Webtoon, page: Option<u16>) -> Seq<char> {
    let base = "https://www.webtoons.com/en/"@ + scope_slug(w.scope) + "/"@ + w.slug@
        + "/list?title_no="@ + decimal(w.id as nat);
    match page {
        Some(p) => base + "&page="@ + decimal(p as nat),
        None => base,
    }
}

impl Webtoon {
    /// The homepage address of this Webtoon, at `page` of its episode list when one is
    /// given.
    pub fn homepage_url(&self, page: Option<u16>) -> (url: String)
        ensures
            url@ == homepage_url_text(*self, page),
    {
        let mut url = "https://www.webtoons.com/en/".to_owned();
        url.append(self.scope.as_slug());
        url.append("/");
        url.append(self.slug.as_str());
        url.append("/list?title_no=");
        let id = decimal_string(self.id as u64);
        url.append(id.as_str());
        match page {
            Some(p) => {
                url.append("&page=");
                let ps = decimal_string(p as u64);
                url.append(ps.as_str());
            },
            None => {},
        }
        url
    }
}

/// The webtoon a card's `href` names, if it has one and it is a homepage address.
pub open spec fn card_webtoon(card: ElementView) -> Option<(Scope, Seq<char>, u32)> {
    match attr_of(card.attrs, "href"@) {
        Some(h) => if url_parses(h) {
            match webtoon_url_outcome(url_path_segments(h), url_query(h)) {
                Ok(t) => Some(t),
                Err(_) => None,
            }
        } else {
            None
        },
        None => None,
    }
}

/// Whether `w` is the webtoon a card names.
pub open spec fn is_card_webtoon(card: ElementView, w: Webtoon) -> bool {
    card_webtoon(card) == Some((w.scope, w.slug@, w.id))
}

/// The webtoons that the cards of a listing page link to, in order.
///
/// Fails when a card has no `href` or one that is not a homepage address.
pub fn webtoons_from_cards(cards: &Vec<Element>) -> (r: Result<Vec<Webtoon>, Assumption>)
    ensures
        (forall|i: int| 0 <= i < cards@.len() ==> #[trigger] card_webtoon(cards@[i]@) is Some) <==> r is Ok,
        r matches Ok(v) ==> v@.len() == cards@.len()
            && forall|i: int| 0 <= i < cards@.len() ==> is_card_webtoon(cards@[i]@, #[trigger] v@[i]),
{
    let mut out: Vec<Webtoon> = Vec::new();
    let mut i: usize = 0;
    while i < cards.len()
        invariant
            i <= cards@.len(),
            out@.len() == i,
            forall|j: int| 0 <= j < i ==> #[trigger] card_webtoon(cards@[j]@) is Some,
            forall|j: int| 0 <= j < i ==> is_card_webtoon(cards@[j]@, #[trigger] out@[j]),
        decreases cards@.len() - i,
    {
        let href = match attr_value(&cards[i].attrs, "href") {
            Some(h) => h,
            None => return Err(Assumption::new("webtoon cards on `webtoons.com` listing pages should always have an `href` attribute")),
        };
        let w = match Webtoon::from_url(href.as_str()) {
            Ok(w) => w,
            Err(_) => {
                assert(card_webtoon(cards@[i as int]@) is None);
                return Err(Assumption::new("urls on `webtoons.com` listing pages should be valid urls for making a `Webtoon`"));
            },
        };
        out.push(w);
        i += 1;
    }
    Ok(out)
}

/// The webtoons the cards a selector matches on a listing page link to, in order.
pub fn webtoons_on_page(html: &str, css: &str) -> (r: Result<Vec<Webtoon>, Assumption>)
    ensures
        (css_valid(css@) && forall|i: int| 0 <= i < selected(html@, css@).len() ==> #[trigger] card_webtoon(selected(html@, css@)[i]) is Some) <==> r is Ok,
        r matches Ok(v) ==> v@.len() == selected(html@, css@).len()
            && forall|i: int| 0 <= i < v@.len() ==> is_card_webtoon(selected(html@, css@)[i], #[trigger] v@[i]),
{
    let doc = parse_document(html);
    let c = match parse_css(css) {
        Some(c) => c,
        None => return Err(Assumption::new("listing page selector should be a valid selector")),
    };
    let cards = select(&doc, &c);
    let ghost cv = elements_view(cards@);
    assert forall|i: int| 0 <= i < cards@.len() implies #[trigger] cards@[i]@ == cv[i] by {}
    webtoons_from_cards(&cards)
}

/// The address that redirects to the homepage of the webtoon with the id `id` and the type
/// `t`, whatever its language, genre and slug.
pub open spec fn lookup_url_text(id: u32, t: Type) -> Seq<char> {
    "https://www.webtoons.com/*/"@ + (if t is Original { "*"@ } else { "canvas"@ }) + "/*/list?title_no="@
        + decimal(id as nat)
}

/// The address that redirects to the homepage of the webtoon with the id `id` and the type
/// `t`.
pub fn lookup_url(id: u32, t: Type) -> (url: String)
    ensures
        url@ == lookup_url_text(id, t),
{
    let mut url = "https://www.webtoons.com/*/".to_owned();
    match t {
        Type::Original => url.append("*"),
        Type::Canvas => url.append("canvas"),
    }
    url.append("/*/list?title_no=");
    let digits = decimal_string(id as u64);
    url.append(digits.as_str());
    url
}

impl Webtoon {
    /// The webtoon with the id `id` whose lookup address redirected to `landed`: its scope and
    /// slug are read from the address it landed on.
    ///
    /// Fails as unsupported when it landed on another language's site, and as unexpected
    /// when the address is not a readable homepage address.
    pub fn from_lookup(id: u32, landed: &str) -> (r: Result<Webtoon, ClientError>)
        ensures
            !url_parses(landed@) ==> r matches Err(ClientError::Internal(_)),
            url_parses(landed@) ==> match webtoon_url_outcome(url_path_segments(landed@), url_query(landed@)) {
                Ok((scope, slug, _)) => r matches Ok(w) && w.id == id && w.scope == scope && w.slug@ == slug,
                Err(None) => r matches Err(ClientError::UnsupportedLanguage),
                Err(Some(_)) => r matches Err(ClientError::Internal(_)),
            },
    {
        let link = match parse(landed) {
            Some(l) => l,
            None => return Err(ClientError::Internal(Assumption::new("`webtoons.com` should redirect to a valid url"))),
        };
        match parse_url(&link) {
            Ok((scope, slug, _)) => Ok(Webtoon { id, scope, slug }),
            Err(InvalidWebtoonUrl::UnsupportedLanguage) => Err(ClientError::UnsupportedLanguage),
            Err(InvalidWebtoonUrl::Malformed { .. }) => Err(ClientError::Internal(Assumption::new("`webtoons.com` returned an unexpected url format"))),
        }
    }

    /// Whether this webtoon has completed its run, by its homepage: a Canvas webtoon never
    /// has; an Original has when its schedule says so.
    pub fn is_completed(&self, homepage: &Homepage) -> (b: bool)
        ensures
            b == (self.scope is Original && homepage.schedule matches Some(Schedule::Completed)),
    {
        match self.scope {
            Scope::Canvas => false,
            Scope::Original(_) => match &homepage.schedule {
                Some(Schedule::Completed) => true,
                _ => false,
            },
        }
    }
}

} // verus!

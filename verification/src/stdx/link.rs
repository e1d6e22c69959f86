//! Web addresses, parsed by the `url` crate.
use vstd::prelude::*;

verus! {

/// `url::Url`, the parsed form of a web address.
#[verifier::external_type_specification]
#[verifier::external_body]
pub struct ExUrl(url::Url);

/// Whether `url::Url::parse` accepts `input` as an absolute address.
pub uninterp spec fn url_parses(input: Seq<char>) -> bool;

/// The serialization (`Url::as_str`) of the address parsed from `input`.
pub uninterp spec fn url_serialization(input: Seq<char>) -> Seq<char>;

/// The path segments (`Url::path_segments`) of the address parsed from `input`: `None`
/// when its path does not start with `/`.
pub uninterp spec fn url_path_segments(input: Seq<char>) -> Option<Seq<Seq<char>>>;

/// The query (`Url::query`) of the address parsed from `input`, without the `?`.
pub uninterp spec fn url_query(input: Seq<char>) -> Option<Seq<char>>;

/// The characters of each string.
pub open spec fn strings_view(v: Seq<String>) -> Seq<Seq<char>> {
    v.map_values(|s: String| s@)
}

/// The characters of an optional string.
pub open spec fn opt_string_view(o: Option<String>) -> Option<Seq<char>> {
    match o {
        Some(s) => Some(s@),
        None => None,
    }
}

/// A parsed web address, viewed as the text it was parsed from.
pub struct Link {
    url: url::Url,
    source: Ghost<Seq<char>>,
}

impl View for Link {
    type V = Seq<char>;

    closed spec fn view(&self) -> Seq<char> {
        self.source@
    }
}

/// Calls `url::Url::parse`; `None` when it reports an error.
#[verifier::external_body]
pub(crate) fn parse(input: &str) -> (r: Option<Link>)
    ensures
        r is Some <==> url_parses(input@),
        r matches Some(l) ==> l@ == input@,
{
    match url::Url::parse(input) {
        Ok(url) => Some(Link { url, source: Ghost(input@) }),
        Err(_) => None,
    }
}

/// Calls `url::Url::as_str`: the address as normalized text.
#[verifier::external_body]
pub(crate) fn serialization(link: &Link) -> (r: String)
    ensures
        r@ == url_serialization(link@),
{
    link.url.as_str().to_owned()
}

/// Calls `url::Url::path_segments`, collecting the segments in order.
#[verifier::external_body]
pub(crate) fn path_segments(link: &Link) -> (r: Option<Vec<String>>)
    ensures
        match r {
            Some(v) => url_path_segments(link@) == Some(strings_view(v@)),
            None => url_path_segments(link@) is None,
        },
{
    link.url.path_segments().map(|segments| segments.map(|s| s.to_owned()).collect())
}

/// Calls `url::Url::query`.
#[verifier::external_body]
pub(crate) fn query(link: &Link) -> (r: Option<String>)
    ensures
        opt_string_view(r) == url_query(link@),
{
    link.url.query().map(|q| q.to_owned())
}

/// The serialization of the address parsed from `input` once its host is set to `host`
/// (`Url::set_host`), or `None` when `set_host` refuses.
pub uninterp spec fn url_with_host(input: Seq<char>, host: Seq<char>) -> Option<Seq<char>>;

/// Calls `url::Url::set_host` on a copy of the address and gives the copy's serialization.
#[verifier::external_body]
pub(crate) fn with_host(link: &Link, host: &str) -> (r: Option<String>)
    ensures
        opt_string_view(r) == url_with_host(link@, host@),
{
    let mut url = link.url.clone();
    match url.set_host(Some(host)) {
        Ok(()) => Some(url.as_str().to_owned()),
        Err(_) => None,
    }
}

/// The path (`Url::path`) of the address parsed from `input`.
pub uninterp spec fn url_path(input: Seq<char>) -> Seq<char>;

/// Calls `url::Url::path`.
#[verifier::external_body]
pub(crate) fn path(link: &Link) -> (r: String)
    ensures
        r@ == url_path(link@),
{
    link.url.path().to_owned()
}

/// The name and value pairs (`Url::query_pairs`) of the query of the address parsed from
/// `input`, percent-decoded, in order.
pub uninterp spec fn url_query_pairs(input: Seq<char>) -> Seq<(Seq<char>, Seq<char>)>;

/// The characters of each pair of strings.
pub open spec fn pairs_view(v: Seq<(String, String)>) -> Seq<(Seq<char>, Seq<char>)> {
    v.map_values(|p: (String, String)| (p.0@, p.1@))
}

/// Calls `url::Url::query_pairs`, collecting the pairs in order.
#[verifier::external_body]
pub(crate) fn query_pairs(link: &Link) -> (r: Vec<(String, String)>)
    ensures
        pairs_view(r@) == url_query_pairs(link@),
{
    link.url.query_pairs().map(|(k, v)| (k.into_owned(), v.into_owned())).collect()
}

} // verus!

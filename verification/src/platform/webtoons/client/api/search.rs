//! The `webtoons.com` search API: the shape of its answers, the address of each page, and
//! the items a page holds.
use crate::platform::webtoons::meta::Type;
use crate::platform::webtoons::search::Item;
use crate::stdx::error::Assumption;
use crate::stdx::text::chars_of;
use vstd::prelude::*;

verus! {

/// The body of a search response.
pub struct RawSearch {
    /// What was found.
    pub result: SearchResult,
    /// `"success"` when the search ran.
    pub status: String,
}

/// What a search found, by kind of webtoon.
pub struct SearchResult {
    /// Canvas webtoons, present when Canvas webtoons were searched.
    pub challenge_title_list: Option<Canvas>,
    /// Original webtoons, present when Originals were searched.
    pub webtoon_title_list: Option<Originals>,
}

/// The Originals a search found.
pub struct Originals {
    /// One entry per webtoon on this page.
    pub data: Vec<Data>,
    /// Where the next page starts.
    pub pagination: Pagination,
    /// How many webtoons were found in all.
    pub total_count: i64,
}

/// The Canvas webtoons a search found.
pub struct Canvas {
    /// One entry per webtoon on this page.
    pub data: Vec<Data>,
    /// Where the next page starts.
    pub pagination: Pagination,
    /// How many webtoons were found in all.
    pub total_count: i64,
}

/// One webtoon a search found.
pub struct Data {
    /// The webtoon's id (sent as a string).
    pub content_id: u32,
    /// `"WEBTOON"` or `"CHALLENGE"`.
    pub content_sub_type: String,
    /// Who made it.
    pub extra: Extra,
    /// Its title.
    pub name: String,
    /// The service it belongs to.
    pub service_type: String,
    /// Its thumbnail.
    pub thumbnail: Thumbnail,
}

/// The illustrator of a found webtoon.
pub struct Illustrator {
    /// The illustrator's name.
    pub nickname: String,
}

/// The writer of a found webtoon.
pub struct Writer {
    /// The writer's name.
    pub nickname: String,
}

/// Where a found webtoon's thumbnail lives.
pub struct Thumbnail {
    /// The host.
    pub domain: String,
    /// The path on the image host.
    pub path: String,
}

/// The cursor of the next page of a search.
pub struct Pagination {
    /// `None` on the last page.
    pub next: Option<String>,
}

/// Who made a found webtoon.
pub struct Extra {
    /// Its illustrator.
    pub illustrator: Illustrator,
    /// Whether it is marked unsuitable for children.
    pub unsuitable_for_children: Option<bool>,
    /// Its writer.
    pub writer: Writer,
}

/// The content sub type the search API uses for a kind of webtoon.
pub open spec fn subtype_text(t: Type) -> Seq<char> {
    match t {
        Type::Original => "WEBTOON"@,
        Type::Canvas => "CHALLENGE"@,
    }
}

/// The address of a page of a search for `query` among webtoons of type `t`.
pub open spec fn search_url_text(query: Seq<char>, t: Type, cursor: Option<Seq<char>>) -> Seq<char> {
    let base = "https://www.webtoons.com/p/api/community/v1/content/TITLE/GW/search?criteria=KEYWORD_SEARCH&contentSubType="@
        + subtype_text(t) + "&nextSize=50&language=ENGLISH&query="@ + query;
    match cursor {
        Some(c) => base + "&cursor="@ + c,
        None => base,
    }
}

/// The host that serves search thumbnails.
pub open spec fn thumbnail_host() -> Seq<char> {
    "https://swebtoon-phinf.pstatic.net"@
}

/// The item a found webtoon stands for.
pub open spec fn item_of(d: Data, t: Type, item: Item) -> bool {
    &&& item.id == d.content_id
    &&& item.webtoon_type == t
    &&& item.title@ == d.name@
    &&& item.thumbnail@ == thumbnail_host() + d.thumbnail.path@
    &&& item.creator@ == d.extra.writer.nickname@
}

/// The content sub type the search API uses for a kind of webtoon.
pub fn subtype(t: Type) -> (s: &'static str)
    ensures
        s@ == subtype_text(t),
{
    match t {
        Type::Original => {
            proof {
                reveal_strlit("WEBTOON");
            }
            "WEBTOON"
        },
        Type::Canvas => {
            proof {
                reveal_strlit("CHALLENGE");
            }
            "CHALLENGE"
        },
    }
}

/// The address of a page of a search for `query` among webtoons of type `t`, starting
/// at `cursor` when one is given.
pub fn search_url(query: &str, t: Type, cursor: Option<&str>) -> (url: String)
    ensures
        url@ == search_url_text(query@, t, match cursor {
            Some(c) => Some(c@),
            None => None,
        }),
{
    let mut url = "https://www.webtoons.com/p/api/community/v1/content/TITLE/GW/search?criteria=KEYWORD_SEARCH&contentSubType=".to_owned();
    url.append(subtype(t));
    url.append("&nextSize=50&language=ENGLISH&query=");
    url.append(query);
    match cursor {
        Some(c) => {
            url.append("&cursor=");
            url.append(c);
        },
        None => {},
    }
    url
}

/// The item a found webtoon stands for.
pub fn item(d: &Data, t: Type) -> (i: Item)
    ensures
        item_of(*d, t, i),
{
    let mut thumbnail = "https://swebtoon-phinf.pstatic.net".to_owned();
    thumbnail.append(d.thumbnail.path.as_str());
    Item {
        id: d.content_id,
        webtoon_type: t,
        title: d.name.clone(),
        thumbnail,
        creator: d.extra.writer.nickname.clone(),
    }
}

/// The found webtoons of a page, as items.
fn items(data: &Vec<Data>, t: Type) -> (v: Vec<Item>)
    ensures
        v@.len() == data@.len(),
        forall|i: int| 0 <= i < v@.len() ==> item_of(data@[i], t, #[trigger] v@[i]),
{
    let mut v: Vec<Item> = Vec::new();
    let mut i: usize = 0;
    while i < data.len()
        invariant
            i <= data@.len(),
            v@.len() == i,
            forall|j: int| 0 <= j < i ==> item_of(data@[j], t, #[trigger] v@[j]),
        decreases data@.len() - i,
    {
        let it = item(&data[i], t);
        v.push(it);
        i += 1;
    }
    v
}

/// The list of the searched kind in a search result, as its entries and next cursor.
pub open spec fn listed(search: RawSearch, t: Type) -> Option<(Seq<Data>, Option<String>)> {
    match t {
        Type::Original => match search.result.webtoon_title_list {
            Some(l) => Some((l.data@, l.pagination.next)),
            None => None,
        },
        Type::Canvas => match search.result.challenge_title_list {
            Some(l) => Some((l.data@, l.pagination.next)),
            None => None,
        },
    }
}

/// The items on one page of a search among webtoons of type `t`, and the cursor of the next
/// page (`None` on the last page).
///
/// Fails when the page lacks the list of the searched kind.
pub fn search_page(search: &RawSearch, t: Type) -> (r: core::result::Result<(Vec<Item>, Option<String>), Assumption>)
    ensures
        match listed(*search, t) {
            None => r is Err,
            Some((data, next)) => r matches Ok((v, n)) && n == next && v@.len() == data.len()
                && forall|i: int| 0 <= i < data.len() ==> item_of(data[i], t, #[trigger] v@[i]),
        },
{
    match t {
        Type::Original => match &search.result.webtoon_title_list {
            Some(l) => Ok((items(&l.data, t), l.pagination.next.clone())),
            None => Err(Assumption::new("`webtoonTitleList` field should be present in WEBTOON search result")),
        },
        Type::Canvas => match &search.result.challenge_title_list {
            Some(l) => Ok((items(&l.data, t), l.pagination.next.clone())),
            None => Err(Assumption::new("`challengeTitleList` field should be present in CHALLENGE search result")),
        },
    }
}

/// Where a search stands.
#[derive(Debug, Clone)]
pub enum SearchStage {
    /// Fetching a page of webtoons of this type, from the cursor when there is one.
    Searching(Type, Option<String>),
    /// Both kinds of webtoon have been searched.
    Done,
}

/// The characters of an optional string.
pub open spec fn cursor_view(c: Option<String>) -> Option<Seq<char>> {
    match c {
        Some(s) => Some(s@),
        None => None,
    }
}

/// Where a search goes after a page of webtoons of type `t` whose next cursor is `next`:
/// on to that cursor; past the last page of Originals, to the first page of Canvas; past the
/// last page of Canvas, done.
pub open spec fn stage_after(t: Type, next: Option<String>) -> SearchStage {
    match next {
        Some(c) => SearchStage::Searching(t, Some(c)),
        None => if t is Original {
            SearchStage::Searching(Type::Canvas, None)
        } else {
            SearchStage::Done
        },
    }
}

/// A search for webtoons whose title matches a query: Originals first, then Canvas, each
/// page after page until the answer gives no next cursor. An empty query searches nothing.
#[derive(Debug)]
pub struct Search {
    query: String,
    stage: SearchStage,
    items: Vec<Item>,
}

impl Search {
    /// What is searched for.
    pub closed spec fn spec_query(&self) -> Seq<char> {
        self.query@
    }

    /// Where the search stands.
    pub closed spec fn spec_stage(&self) -> SearchStage {
        self.stage
    }

    /// What has been found so far, in the order found.
    pub closed spec fn spec_items(&self) -> Seq<Item> {
        self.items@
    }

    /// A search for `query`; nothing is fetched yet, and nothing will be for an empty query.
    pub fn new(query: &str) -> (s: Search)
        ensures
            s.spec_query() == query@,
            s.spec_items().len() == 0,
            s.spec_stage() == (if query@.len() == 0 {
                SearchStage::Done
            } else {
                SearchStage::Searching(Type::Original, None)
            }),
    {
        let stage = if chars_of(query).len() == 0 {
            SearchStage::Done
        } else {
            SearchStage::Searching(Type::Original, None)
        };
        Search { query: query.to_owned(), stage, items: Vec::new() }
    }

    /// The address of the next page to fetch; `None` once the search is done.
    pub fn next_url(&self) -> (u: Option<String>)
        ensures
            match self.spec_stage() {
                SearchStage::Searching(t, c) => u matches Some(s) && s@ == search_url_text(self.spec_query(), t, cursor_view(c)),
                SearchStage::Done => u is None,
            },
    {
        match &self.stage {
            SearchStage::Searching(t, c) => {
                let cursor = match c {
                    Some(c) => Some(c.as_str()),
                    None => None,
                };
                Some(search_url(self.query.as_str(), *t, cursor))
            },
            SearchStage::Done => None,
        }
    }

    /// Takes in the page fetched from [`Search::next_url`]: its items are added and the search
    /// moves on (see [`stage_after`]).
    ///
    /// Fails, leaving the search as it was, when the search is done or the page lacks the
    /// list of the searched kind.
    pub fn receive(&mut self, page: &RawSearch) -> (r: core::result::Result<(), Assumption>)
        ensures
            final(self).spec_query() == old(self).spec_query(),
            match old(self).spec_stage() {
                SearchStage::Done => r is Err && final(self).spec_stage() == old(self).spec_stage()
                    && final(self).spec_items() == old(self).spec_items(),
                SearchStage::Searching(t, _) => match listed(*page, t) {
                    None => r is Err && final(self).spec_stage() == old(self).spec_stage()
                        && final(self).spec_items() == old(self).spec_items(),
                    Some((data, next)) => {
                        let before = old(self).spec_items();
                        let after = final(self).spec_items();
                        &&& r is Ok
                        &&& after.len() == before.len() + data.len()
                        &&& after.take(before.len() as int) == before
                        &&& forall|i: int| 0 <= i < data.len() ==> item_of(data[i], t, #[trigger] after[before.len() + i])
                        &&& final(self).spec_stage() == stage_after(t, next)
                    },
                },
            },
    {
        let t = match &self.stage {
            SearchStage::Searching(t, _) => *t,
            SearchStage::Done => return Err(Assumption::new("a finished search should not be given another page")),
        };
        let (mut found, next) = search_page(page, t)?;
        let ghost before = self.items@;
        let ghost got = found@;
        self.items.append(&mut found);
        assert(self.items@.take(before.len() as int) =~= before);
        assert forall|i: int| 0 <= i < got.len() implies self.items@[before.len() + i] == got[i] by {}
        self.stage = match next {
            Some(c) => SearchStage::Searching(t, Some(c)),
            None => match t {
                Type::Original => SearchStage::Searching(Type::Canvas, None),
                Type::Canvas => SearchStage::Done,
            },
        };
        Ok(())
    }

    /// What was found, in the order found.
    pub fn into_items(self) -> (v: Vec<Item>)
        ensures
            v@ == self.spec_items(),
    {
        self.items
    }
}

} // verus!

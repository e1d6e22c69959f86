//! The Canvas story list at `https://www.webtoons.com/en/canvas/list`.
use crate::platform::webtoons::webtoon::{is_card_webtoon, webtoons_on_page, card_webtoon, Webtoon};
use crate::stdx::error::Assumption;
use crate::stdx::html::{css_valid, selected};
use crate::stdx::num::{decimal, decimal_string};
use vstd::prelude::*;

verus! {

/// Sorting options for the `Canvas` story list.
#[derive(Debug, Clone, Copy, PartialEq, Eq, Structural)]
pub enum Sort {
    /// Sort by views.
    Popularity,
    /// Sort by likes.
    Likes,
    /// Sort by newest upload.
    Date,
}

/// The query value `webtoons.com` expects for a sort order.
pub open spec fn sort_text(s: Sort) -> Seq<char> {
    match s {
        Sort::Popularity => "MANA"@,
        Sort::Likes => "LIKEIT"@,
        Sort::Date => "UPDATE"@,
    }
}

impl Sort {
    /// The query value `webtoons.com` expects for this sort order.
    pub fn as_str(&self) -> (r: &'static str)
        ensures
            r@ == sort_text(*self),
    {
        match self {
            Sort::Popularity => "MANA",
            Sort::Likes => "LIKEIT",
            Sort::Date => "UPDATE",
        }
    }

    /// The query value `webtoons.com` expects for this sort order (its `Display`).
    pub fn to_string(&self) -> (r: String)
        ensures
            r@ == sort_text(*self),
    {
        self.as_str().to_owned()
    }
}

/// One end of a range of Canvas list pages (`std::ops::Bound`).
#[derive(Debug, Clone, Copy, PartialEq, Eq, Structural)]
pub enum PageBound {
    /// The page is part of the range.
    Included(u16),
    /// The page is not part of the range.
    Excluded(u16),
    /// No bound on this side.
    Unbounded,
}

/// The first page to scrape: page numbers start at 1, so a bound below 1 starts at page 1.
pub open spec fn first_page(start: PageBound) -> int {
    match start {
        PageBound::Included(n) => if n >= 1 { n as int } else { 1 },
        PageBound::Excluded(n) => if n + 1 >= 1 { n + 1 } else { 1 },
        PageBound::Unbounded => 1,
    }
}

/// One past the last page to scrape; an unbounded end stops after page 100.
pub open spec fn end_page(end: PageBound) -> int {
    match end {
        PageBound::Included(n) => n + 1,
        PageBound::Excluded(n) => n as int,
        PageBound::Unbounded => 101,
    }
}

/// The number of webtoon cards on one page of the Canvas list.
pub const CARDS_PER_PAGE: usize = 20;

/// The pages `start..end` to scrape for the given bounds, and the number of webtoons to
/// reserve room for (20 per page, for one page more than the range holds).
///
/// The bounds must give a first page no later than the end and must not overflow `u16`, as
/// the arithmetic on `u16` pages demands.
pub fn page_range(start: PageBound, end: PageBound) -> (r: (u16, u16, usize))
    requires
        start matches PageBound::Excluded(n) ==> n < u16::MAX,
        end matches PageBound::Included(n) ==> n < u16::MAX,
        first_page(start) <= end_page(end),
        end_page(end) - first_page(start) + 1 <= u16::MAX,
    ensures
        r.0 == first_page(start),
        r.1 == end_page(end),
        r.2 == (end_page(end) - first_page(start) + 1) * 20,
{
    let first: u16 = match start {
        PageBound::Included(n) => if n >= 1 { n } else { 1 },
        PageBound::Excluded(n) => if n + 1 >= 1 { n + 1 } else { 1 },
        PageBound::Unbounded => 1,
    };
    let last: u16 = match end {
        PageBound::Included(n) => n + 1,
        PageBound::Excluded(n) => n,
        PageBound::Unbounded => 101,
    };
    let count: u16 = last - first + 1;
    (first, last, (count as usize) * CARDS_PER_PAGE)
}

/// Whether [`page_range`] can work out the pages for these bounds: neither bound overflows a
/// `u16` when moved to the page it stands for, and the first page is no later than the end.
pub fn page_range_ok(start: PageBound, end: PageBound) -> (b: bool)
    ensures
        b == ((start matches PageBound::Excluded(n) ==> n < u16::MAX)
            && (end matches PageBound::Included(n) ==> n < u16::MAX)
            && first_page(start) <= end_page(end)
            && end_page(end) - first_page(start) + 1 <= u16::MAX),
{
    let first: u32 = match start {
        PageBound::Included(n) => if n >= 1 { n as u32 } else { 1 },
        PageBound::Excluded(n) => if n == u16::MAX { return false; } else if n + 1 >= 1 { (n + 1) as u32 } else { 1 },
        PageBound::Unbounded => 1,
    };
    let last: u32 = match end {
        PageBound::Included(n) => if n == u16::MAX { return false; } else { (n + 1) as u32 },
        PageBound::Excluded(n) => n as u32,
        PageBound::Unbounded => 101,
    };
    first <= last && last - first + 1 <= u16::MAX as u32
}

/// `true` if a scrape of the Canvas list found what the list always holds: at least one
/// webtoon, and a whole number of pages of 20.
pub fn is_complete_scrape(found: usize) -> (b: bool)
    ensures
        b == (found > 0 && found % 20 == 0),
{
    found > 0 && found % CARDS_PER_PAGE == 0
}

/// The address of page `page` of the Canvas list, sorted by `sort`.
pub fn page_url(page: u16, sort: Sort) -> (url: String)
    ensures
        url@ == "https://www.webtoons.com/en/canvas/list?genreTab=ALL&sortOrder="@ + sort_text(sort) + "&page="@
            + decimal(page as nat),
{
    let mut url = "https://www.webtoons.com/en/canvas/list?genreTab=ALL&sortOrder=".to_owned();
    url.append(sort.as_str());
    url.append("&page=");
    url.append(decimal_string(page as u64).as_str());
    url
}

/// The webtoons a page of the Canvas list shows, from its `div.challenge_lst>ul>li>a` cards.
pub fn webtoons_on_list_page(html: &str) -> (r: Result<Vec<Webtoon>, Assumption>)
    ensures
        ({
            let cards = selected(html@, "div.challenge_lst>ul>li>a"@);
            &&& (css_valid("div.challenge_lst>ul>li>a"@) && forall|i: int| 0 <= i < cards.len() ==> #[trigger] card_webtoon(cards[i]) is Some) <==> r is Ok
            &&& r matches Ok(v) ==> v@.len() == cards.len() && forall|i: int| 0 <= i < v@.len() ==> is_card_webtoon(cards[i], #[trigger] v@[i])
        }),
{
    webtoons_on_page(html, "div.challenge_lst>ul>li>a")
}

} // verus!

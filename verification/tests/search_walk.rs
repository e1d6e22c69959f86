use webtoon::platform::webtoons::client::api::search::{
    Canvas, Data, Extra, Illustrator, Originals, Pagination, RawSearch, Search, SearchResult, Thumbnail, Writer,
};
use webtoon::platform::webtoons::meta::Type;

fn s(t: &str) -> String {
    t.to_owned()
}

fn data(id: u32, name: &str) -> Data {
    Data {
        content_id: id,
        content_sub_type: s("WEBTOON"),
        extra: Extra {
            illustrator: Illustrator { nickname: s("ill") },
            unsuitable_for_children: None,
            writer: Writer { nickname: s("writer") },
        },
        name: s(name),
        service_type: s("GW"),
        thumbnail: Thumbnail { domain: s("d"), path: s("/t.jpg") },
    }
}

fn originals(items: Vec<Data>, next: Option<&str>) -> RawSearch {
    RawSearch {
        result: SearchResult {
            challenge_title_list: None,
            webtoon_title_list: Some(Originals { data: items, pagination: Pagination { next: next.map(s) }, total_count: 0 }),
        },
        status: s("success"),
    }
}

fn canvas(items: Vec<Data>, next: Option<&str>) -> RawSearch {
    RawSearch {
        result: SearchResult {
            challenge_title_list: Some(Canvas { data: items, pagination: Pagination { next: next.map(s) }, total_count: 0 }),
            webtoon_title_list: None,
        },
        status: s("success"),
    }
}

const BASE: &str = "https://www.webtoons.com/p/api/community/v1/content/TITLE/GW/search?criteria=KEYWORD_SEARCH";

#[test]
fn search_walks_originals_then_canvas() {
    let mut search = Search::new("tower");
    assert_eq!(
        search.next_url().unwrap(),
        format!("{BASE}&contentSubType=WEBTOON&nextSize=50&language=ENGLISH&query=tower")
    );
    search.receive(&originals(vec![data(95, "Tower of God")], Some("c1"))).unwrap();
    assert_eq!(
        search.next_url().unwrap(),
        format!("{BASE}&contentSubType=WEBTOON&nextSize=50&language=ENGLISH&query=tower&cursor=c1")
    );
    search.receive(&originals(vec![data(96, "Tower Two")], None)).unwrap();
    assert_eq!(
        search.next_url().unwrap(),
        format!("{BASE}&contentSubType=CHALLENGE&nextSize=50&language=ENGLISH&query=tower")
    );
    search.receive(&canvas(vec![data(1000, "Canvas Tower")], None)).unwrap();
    assert!(search.next_url().is_none());
    assert!(search.receive(&canvas(vec![], None)).is_err());
    let items = search.into_items();
    let found: Vec<(u32, Type)> = items.iter().map(|i| (i.id(), i.webtoon_type())).collect();
    assert_eq!(found, vec![(95, Type::Original), (96, Type::Original), (1000, Type::Canvas)]);
    assert_eq!(items[2].thumbnail(), "https://swebtoon-phinf.pstatic.net/t.jpg");
}

#[test]
fn empty_search_fetches_nothing() {
    let search = Search::new("");
    assert!(search.next_url().is_none());
    assert!(search.into_items().is_empty());
}

#[test]
fn search_page_of_the_wrong_kind_is_an_error() {
    let mut search = Search::new("x");
    assert!(search.receive(&canvas(vec![data(1, "c")], None)).is_err());
    // The search is left as it was.
    assert_eq!(search.next_url().unwrap(), format!("{BASE}&contentSubType=WEBTOON&nextSize=50&language=ENGLISH&query=x"));
}

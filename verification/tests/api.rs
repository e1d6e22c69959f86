use webtoon::platform::webtoons::client::api::creator_webtoons::{listed_webtoons, Authors, CreatorWebtoons, Result as Listing, Titles};
use webtoon::platform::webtoons::client::api::likes::{episode_likes, Contents, Count, RawLikesResponse, Reaction};
use webtoon::platform::webtoons::client::api::posts::{
    BodyFormat, ContentInfo, ContentMetaData, CreatedBy, Emotions, Extra, GiphyData, ProfileImage, RawPost, Reactions,
    Restriction, Section, SectionGroup, Settings, StickerData, SuperLikeData,
};
use webtoon::platform::webtoons::client::api::search::{
    search_page, search_url, Canvas, Data, Extra as SearchExtra, Illustrator, Originals, Pagination, RawSearch,
    SearchResult, Thumbnail, Writer,
};
use webtoon::platform::webtoons::client::api::user_info::{user_info_from_raw, UserInfoRaw};
use webtoon::platform::webtoons::client::api::webtoon_user_info::WebtoonUserInfo;
use webtoon::platform::webtoons::meta::{Genre, Scope, Type};
use webtoon::platform::webtoons::webtoon::post::id::Id;
use webtoon::platform::webtoons::webtoon::post::{Flare, Post, Reaction as Vote};

fn s(t: &str) -> String {
    t.to_owned()
}

fn raw_post(emotions: Vec<Emotions>, sections: Vec<Section>, status: &str, spoiler: &str) -> RawPost {
    let id = Id::from_str("GW-epicom:0-w_95_1-1d").unwrap();
    RawPost {
        active_child_post_count: 0,
        active_page_owner_child_post_count: 0,
        body: s("hello"),
        body_format: BodyFormat { format_type: s("PLAIN"), version: s("1") },
        child_post_count: 3,
        comment_depth: 0,
        created_at: 1_700_000_000_000,
        created_by: CreatedBy {
            cuid: s("cuid"),
            enc_user_id: s("enc"),
            id: s("id"),
            is_creator: true,
            is_page_owner: false,
            masked_user_id: s("mask"),
            name: s("someone"),
            profile_image: ProfileImage {},
            profile_url: s("abc12"),
            publisher_type: s("PAGE"),
            restriction: Restriction { is_blind_post_restricted: false, is_write_post_restricted: true },
            status: s("OK"),
        },
        creation_type: s("BY_USER"),
        depth: 1,
        id,
        is_owner: false,
        is_pinned: true,
        page_id: s("page"),
        page_owner_child_post_count: 0,
        page_url: s("url"),
        reactions: vec![Reactions { content_id: id, emotions, reaction_id: s("r") }],
        root_id: id,
        section_group: SectionGroup { total_count: sections.len() as u64, sections },
        service_ticket_id: s("epicom"),
        settings: Settings { reaction: s("ON"), reply: s("ON"), spoiler_filter: s(spoiler) },
        status: s(status),
        updated_at: 0,
    }
}

fn emotion(kind: &str, count: u32, reacted: bool) -> Emotions {
    Emotions { count, emotion_id: s(kind), reacted }
}

fn meta(path: &str) -> Section {
    Section::ContentMeta {
        section_id: s("m"),
        data: ContentMetaData {
            content_type: s("TITLE"),
            content_sub_type: s("WEBTOON"),
            content_id: s("95"),
            info: ContentInfo { name: s("Tower of God"), extra: Extra { episode_list_path: s(path) } },
        },
    }
}

fn super_like(count: u32) -> Section {
    Section::SuperLike {
        section_id: s("s"),
        data: SuperLikeData { super_like_count: count, super_like_price: 1, super_like_received_at: 0 },
    }
}

#[test]
fn raw_post_becomes_a_post() {
    let raw = raw_post(vec![emotion("dislike", 2, true), emotion("like", 7, false)], vec![], "SERVICE", "ON");
    let post = Post::try_from(4, raw).unwrap();
    assert_eq!(post.upvotes(), 7);
    assert_eq!(post.downvotes(), 2);
    assert_eq!(post.reply_count(), 3);
    assert!(post.is_top());
    assert!(!post.is_deleted());
    assert!(post.body().is_spoiler());
    assert_eq!(post.body().contents(), "hello");
    assert!(post.body().flare().is_none());
    assert_eq!(post.posted(), 1_700_000_000_000);
    assert_eq!(post.episode(), 4);
    assert_eq!(post.poster().username(), "someone");
    assert_eq!(post.poster().profile(), "abc12");
    assert!(post.poster().is_creator());
    assert!(post.poster().reacted());
    assert_eq!(post.poster().reaction, Vote::Downvote);
    assert!(post.poster().is_blocked);
}

#[test]
fn raw_post_flare_and_super_likes() {
    let raw = raw_post(
        vec![emotion("like", 1, true)],
        vec![meta("/en/fantasy/tower-of-god/list?title_no=95"), super_like(3), meta("/en/canvas/animals/list?title_no=7")],
        "DELETE",
        "OFF",
    );
    let post = Post::try_from(1, raw).unwrap();
    assert!(post.is_deleted());
    assert_eq!(post.poster().super_like(), Some(3));
    assert_eq!(post.poster().reaction, Vote::Upvote);
    match post.body().flare() {
        Some(Flare::Webtoons(ws)) => {
            assert_eq!(ws.len(), 2);
            assert_eq!(ws[0].scope, Scope::Original(Genre::Fantasy));
            assert_eq!(ws[0].id, 95);
            assert_eq!(ws[1].scope, Scope::Canvas);
            assert_eq!(ws[1].id, 7);
        },
        other => panic!("expected webtoons, got {other:?}"),
    }
}

#[test]
fn raw_post_single_flare() {
    let sticker = Section::Sticker {
        section_id: s("st"),
        data: StickerData { sticker_id: s("wt_001-v2-1"), sticker_pack_id: s("wt_001"), domain: s("d"), path: s("p"), height: 1 },
    };
    let post = Post::try_from(1, raw_post(vec![], vec![sticker], "SERVICE", "OFF")).unwrap();
    match post.body().flare() {
        Some(Flare::Sticker(st)) => assert_eq!(st.id(), "wt_001-v2-1"),
        other => panic!("expected a sticker, got {other:?}"),
    }
    assert_eq!(post.poster().reaction, Vote::Nothing);
    assert_eq!(post.upvotes_and_downvotes(), (0, 0));

    let gif = Section::Giphy { section_id: s("g"), data: GiphyData { giphy_id: s("xyz"), title: s("t") } };
    let post = Post::try_from(1, raw_post(vec![], vec![gif], "SERVICE", "OFF")).unwrap();
    match post.body().flare() {
        Some(Flare::Giphy(g)) => assert_eq!(g.id(), "xyz"),
        other => panic!("expected a gif, got {other:?}"),
    }

    let post = Post::try_from(1, raw_post(vec![], vec![super_like(9)], "SERVICE", "OFF")).unwrap();
    assert!(post.body().flare().is_none());
    assert_eq!(post.poster().super_like(), Some(9));
}

#[test]
fn raw_post_errors() {
    let mut no_reactions = raw_post(vec![], vec![], "SERVICE", "OFF");
    no_reactions.reactions.clear();
    assert!(Post::try_from(1, no_reactions).is_err());

    let gif = Section::Giphy { section_id: s("g"), data: GiphyData { giphy_id: s("xyz"), title: s("t") } };
    let two_gifs = raw_post(vec![], vec![gif, super_like(1)], "SERVICE", "OFF");
    assert!(Post::try_from(1, two_gifs).is_err());

    let bad_path = raw_post(vec![], vec![meta("/fr/fantasy/x/list?title_no=1")], "SERVICE", "OFF");
    assert!(Post::try_from(1, bad_path).is_err());

    let mut far_future = raw_post(vec![], vec![], "SERVICE", "OFF");
    far_future.created_at = i64::MAX;
    assert!(Post::try_from(1, far_future).is_err());
}

fn data(id: u32, name: &str, path: &str, writer: &str) -> Data {
    Data {
        content_id: id,
        content_sub_type: s("WEBTOON"),
        extra: SearchExtra {
            illustrator: Illustrator { nickname: s("ill") },
            unsuitable_for_children: None,
            writer: Writer { nickname: s(writer) },
        },
        name: s(name),
        service_type: s("GW"),
        thumbnail: Thumbnail { domain: s("d"), path: s(path) },
    }
}

#[test]
fn search_page_lists_items_and_cursor() {
    let search = RawSearch {
        result: SearchResult {
            challenge_title_list: None,
            webtoon_title_list: Some(Originals {
                data: vec![data(95, "Tower of God", "/a.jpg", "SIU")],
                pagination: Pagination { next: Some(s("cur")) },
                total_count: 1,
            }),
        },
        status: s("success"),
    };
    let (items, next) = search_page(&search, Type::Original).unwrap();
    assert_eq!(next.as_deref(), Some("cur"));
    assert_eq!(items.len(), 1);
    assert_eq!(items[0].id(), 95);
    assert_eq!(items[0].title(), "Tower of God");
    assert_eq!(items[0].thumbnail(), "https://swebtoon-phinf.pstatic.net/a.jpg");
    assert_eq!(items[0].creator(), "SIU");
    assert!(search_page(&search, Type::Canvas).is_err());

    let canvas = RawSearch {
        result: SearchResult {
            challenge_title_list: Some(Canvas { data: vec![], pagination: Pagination { next: None }, total_count: 0 }),
            webtoon_title_list: None,
        },
        status: s("success"),
    };
    let (items, next) = search_page(&canvas, Type::Canvas).unwrap();
    assert!(items.is_empty() && next.is_none());
}

#[test]
fn search_urls() {
    assert_eq!(
        search_url("tower", Type::Original, None),
        "https://www.webtoons.com/p/api/community/v1/content/TITLE/GW/search?criteria=KEYWORD_SEARCH&contentSubType=WEBTOON&nextSize=50&language=ENGLISH&query=tower"
    );
    assert_eq!(
        search_url("tower", Type::Canvas, Some("abc")),
        "https://www.webtoons.com/p/api/community/v1/content/TITLE/GW/search?criteria=KEYWORD_SEARCH&contentSubType=CHALLENGE&nextSize=50&language=ENGLISH&query=tower&cursor=abc"
    );
}

#[test]
fn likes_come_from_the_first_entry() {
    let resp = RawLikesResponse {
        result: Contents { contents: vec![Reaction { reactions: vec![Count { count: 12 }, Count { count: 3 }] }] },
    };
    assert_eq!(episode_likes(&resp).unwrap(), 12);
    let none_yet = RawLikesResponse { result: Contents { contents: vec![Reaction { reactions: vec![] }] } };
    assert_eq!(episode_likes(&none_yet).unwrap(), 0);
    let empty = RawLikesResponse { result: Contents { contents: vec![] } };
    assert!(episode_likes(&empty).is_err());
}

#[test]
fn user_info_answers() {
    let logged_out = UserInfoRaw { is_canvas_creator: false, is_logged_in: false, username: None, profile: None };
    assert!(user_info_from_raw(logged_out).unwrap().is_none());
    let creator = UserInfoRaw { is_canvas_creator: true, is_logged_in: true, username: Some(s("me")), profile: Some(s("p1")) };
    let info = user_info_from_raw(creator).unwrap().unwrap();
    assert!(info.is_canvas_creator());
    assert_eq!(info.username(), "me");
    assert_eq!(info.profile(), Some("p1"));
    let reader = UserInfoRaw { is_canvas_creator: false, is_logged_in: true, username: Some(s("me")), profile: None };
    assert_eq!(user_info_from_raw(reader).unwrap().unwrap().profile(), None);
    let missing_profile = UserInfoRaw { is_canvas_creator: true, is_logged_in: true, username: Some(s("me")), profile: None };
    assert!(user_info_from_raw(missing_profile).is_err());
    let missing_name = UserInfoRaw { is_canvas_creator: false, is_logged_in: true, username: None, profile: None };
    assert!(user_info_from_raw(missing_name).is_err());
}

#[test]
fn webtoon_user_info_flags() {
    let info = WebtoonUserInfo::new(true, false);
    assert!(info.is_webtoon_creator());
    assert!(!info.did_rate());
}

#[test]
fn creator_listing_ids() {
    let listing = CreatorWebtoons {
        result: Listing {
            titles: vec![Titles {
                id: 95,
                title: s("Tower of God"),
                authors: vec![Authors { nickname: s("SIU") }],
                genres: vec![s("FANTASY")],
                webtoon_type: Type::Original,
                thumbnail_url: s("t"),
                recent_episode_registered_at: 0,
                title_registered_at: 0,
            }],
            total_count: 1,
        },
    };
    assert_eq!(listed_webtoons(&listing), vec![(95, Type::Original)]);
}

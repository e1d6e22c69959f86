use webtoon::platform::webtoons::client::api::posts::{
    BodyFormat, CreatedBy, Emotions, Pagination, ProfileImage, RawPost, RawPostResponse, RawResult, Reactions,
    Restriction, Section, SectionGroup, Settings,
};
use webtoon::platform::webtoons::webtoon::post::comments::{Comments, Step};
use webtoon::platform::webtoons::webtoon::post::id::Id;
use webtoon::platform::webtoons::webtoon::post::replies::{gather_replies, Replies};
use webtoon::platform::webtoons::webtoon::post::Post;

fn s(t: &str) -> String {
    t.to_owned()
}

fn raw_reply(id: &str, text: &str) -> RawPost {
    let id = Id::from_str(id).unwrap();
    let emotions = vec![Emotions { count: 0, emotion_id: s("like"), reacted: false }];
    let sections: Vec<Section> = Vec::new();
    let status = "SERVICE";
    let spoiler = "OFF";
    RawPost {
        active_child_post_count: 0,
        active_page_owner_child_post_count: 0,
        body: s(text),
        body_format: BodyFormat { format_type: s("PLAIN"), version: s("1") },
        child_post_count: 3,
        comment_depth: 0,
        created_at: 1_700_000_000_000,
        created_by: CreatedBy {
            cuid: s("cuid"),
            enc_user_id: s("enc"),
            id: s("id"),
            is_creator: true,
            is_page_owner: false,
            masked_user_id: s("mask"),
            name: s("someone"),
            profile_image: ProfileImage {},
            profile_url: s("abc12"),
            publisher_type: s("PAGE"),
            restriction: Restriction { is_blind_post_restricted: false, is_write_post_restricted: true },
            status: s("OK"),
        },
        creation_type: s("BY_USER"),
        depth: 1,
        id,
        is_owner: false,
        is_pinned: true,
        page_id: s("page"),
        page_owner_child_post_count: 0,
        page_url: s("url"),
        reactions: vec![Reactions { content_id: id, emotions, reaction_id: s("r") }],
        root_id: id,
        section_group: SectionGroup { total_count: sections.len() as u64, sections },
        service_ticket_id: s("epicom"),
        settings: Settings { reaction: s("ON"), reply: s("ON"), spoiler_filter: s(spoiler) },
        status: s(status),
        updated_at: 0,
    }
}

fn reply(id: &str, text: &str) -> Post {
    Post::try_from(1, raw_reply(id, text)).unwrap()
}

fn summary(posts: &[Post]) -> Vec<(String, String)> {
    posts.iter().map(|p| (p.id().to_string(), p.body().contents().to_owned())).collect()
}

#[test]
fn replies_come_once_each_in_posted_order() {
    let first = vec![
        reply("GW-epicom:0-w_95_1-1d-3", "third"),
        reply("GW-epicom:0-w_95_1-1d-1", "first"),
        reply("GW-epicom:0-w_95_1-1d-1", "first again"),
    ];
    let later = vec![
        vec![reply("GW-epicom:0-w_95_1-1d-2", "second")],
        vec![reply("GW-epicom:0-w_95_1-1d-3", "third edited"), reply("GW-epicom:0-w_95_1-1d-a", "tenth")],
    ];
    let gathered = gather_replies(first, later);
    assert_eq!(
        summary(&gathered),
        vec![
            (s("GW-epicom:0-w_95_1-1d-1"), s("first")),
            (s("GW-epicom:0-w_95_1-1d-2"), s("second")),
            (s("GW-epicom:0-w_95_1-1d-3"), s("third edited")),
            (s("GW-epicom:0-w_95_1-1d-a"), s("tenth")),
        ]
    );
}

#[test]
fn no_replies_gather_to_nothing() {
    assert!(gather_replies(Vec::new(), Vec::new()).is_empty());
    assert!(gather_replies(Vec::new(), vec![Vec::new(), Vec::new()]).is_empty());
}

#[test]
fn a_later_version_replaces_the_first() {
    let first = vec![reply("GW-epicom:0-w_95_1-1d-1", "old")];
    let later = vec![vec![reply("GW-epicom:0-w_95_1-1d-1", "new")], vec![reply("GW-epicom:0-w_95_1-1d-1", "newest")]];
    let gathered = gather_replies(first, later);
    assert_eq!(summary(&gathered), vec![(s("GW-epicom:0-w_95_1-1d-1"), s("newest"))]);
}

fn page(raws: Vec<RawPost>, next: Option<&str>) -> RawPostResponse {
    RawPostResponse {
        result: RawResult {
            active_post_count: 0,
            active_root_post_count: 0,
            is_page_owner: false,
            pagination: Pagination { next: next.map(|n| Id::from_str(n).unwrap()), prev: None },
            post_count: 0,
            posts: raws,
            root_post_count: 0,
            tops: Vec::new(),
        },
        status: s("success"),
    }
}

#[test]
fn replies_walk_follows_the_cursors() {
    // `raw_reply` makes posts with three replies.
    let parent = reply("GW-epicom:0-w_95_1-1d", "parent");
    let mut walk = Replies::new(&parent);
    assert_eq!(
        walk.next_url().unwrap(),
        "https://www.webtoons.com/p/api/community/v2/post/GW-epicom:0-w_95_1-1d/child-posts?sort=oldest&displayBlindCommentAsService=false&prevSize=0&nextSize=100&cursor=&withCursor=false"
    );
    walk.receive(page(vec![raw_reply("GW-epicom:0-w_95_1-1d-2", "second")], Some("GW-epicom:0-w_95_1-1d-2")))
        .unwrap();
    assert!(walk.next_url().unwrap().contains("&cursor=GW-epicom:0-w_95_1-1d-2&"));
    walk.receive(page(vec![raw_reply("GW-epicom:0-w_95_1-1d-1", "first")], None)).unwrap();
    assert!(walk.next_url().is_none());
    assert!(walk.receive(page(vec![], None)).is_err());
    let gathered = walk.finish();
    assert_eq!(
        summary(&gathered),
        vec![(s("GW-epicom:0-w_95_1-1d-1"), s("first")), (s("GW-epicom:0-w_95_1-1d-2"), s("second"))]
    );
}

#[test]
fn a_post_without_replies_fetches_nothing() {
    let mut raw = raw_reply("GW-epicom:0-w_95_1-1d", "quiet");
    raw.child_post_count = 0;
    let quiet = Post::try_from(1, raw).unwrap();
    let walk = Replies::new(&quiet);
    assert!(walk.next_url().is_none());
    assert!(walk.finish().is_empty());
}

#[test]
fn an_unreadable_reply_leaves_the_walk_as_it_was() {
    let parent = reply("GW-epicom:0-w_95_1-1d", "parent");
    let mut walk = Replies::new(&parent);
    let mut bad = raw_reply("GW-epicom:0-w_95_1-1d-1", "bad");
    bad.reactions.clear();
    assert!(walk.receive(page(vec![bad], None)).is_err());
    assert!(walk.next_url().unwrap().contains("&cursor=&"));
}

#[test]
fn a_finished_comment_walk_stays_finished() {
    let mut walk = Comments::new(1);
    assert!(matches!(walk.step(), Step::Fetch(_)));
    walk.receive(page(Vec::new(), None)).unwrap();
    assert!(matches!(walk.step(), Step::Fetch(_)));
    walk.receive(page(Vec::new(), None)).unwrap();
    assert!(matches!(walk.step(), Step::Finished));
    assert!(matches!(walk.step(), Step::Finished));
    assert!(matches!(walk.step(), Step::Finished));
}

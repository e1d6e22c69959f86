//! The answer of the posts endpoint, and the [`Post`] each raw post stands for.
use crate::platform::webtoons::meta::Scope;
use crate::platform::webtoons::webtoon::post::id::Id;
use crate::platform::webtoons::webtoon::post::{
    sticker_of, Body, Flare, Giphy, Post, Poster, Reaction, Sticker,
};
use crate::platform::webtoons::webtoon::{webtoon_url_outcome, Webtoon};
use crate::stdx::error::Assumption;
use crate::stdx::link::{url_parses, url_path_segments, url_query};
use crate::stdx::text::{chars_of, eq_str};
use crate::stdx::num::{decimal, decimal_string};
use crate::platform::webtoons::webtoon::post::id::id_text;
use crate::platform::webtoons::webtoon::post::comments::{PinRepresentation, PostsRequest};
use crate::stdx::time::{millis_in_range, utc_from_millis};
use vstd::prelude::*;

verus! {

/// The body of a posts response.
pub struct RawPostResponse {
    /// The page of posts.
    pub result: RawResult,
    /// `"success"` when the request succeeded.
    pub status: String,
}

/// A page of posts.
pub struct RawResult {
    /// How many posts are active.
    pub active_post_count: u32,
    /// How many top-level posts are active.
    pub active_root_post_count: u32,
    /// Whether the session owns the page.
    pub is_page_owner: bool,
    /// Where the neighbouring pages start.
    pub pagination: Pagination,
    /// How many posts there are.
    pub post_count: u32,
    /// The posts of this page.
    pub posts: Vec<RawPost>,
    /// How many top-level posts there are.
    pub root_post_count: u32,
    /// The pinned posts.
    pub tops: Vec<RawPost>,
}

/// The cursors of the neighbouring pages of posts.
pub struct Pagination {
    /// Where the next page starts.
    pub next: Option<Id>,
    /// Where the previous page starts.
    pub prev: Option<Id>,
}

/// A post as the endpoint sends it.
pub struct RawPost {
    /// How many active replies it has.
    pub active_child_post_count: i32,
    /// How many active replies by the page owner it has.
    pub active_page_owner_child_post_count: i32,
    /// Its text.
    pub body: String,
    /// How its text is formatted.
    pub body_format: BodyFormat,
    /// How many replies it has.
    pub child_post_count: u32,
    /// How deep its comment is nested.
    pub comment_depth: u8,
    /// When it was posted, in milliseconds since the epoch.
    pub created_at: i64,
    /// Its author.
    pub created_by: CreatedBy,
    /// `"BY_USER"`.
    pub creation_type: String,
    /// How deep it is nested.
    pub depth: u8,
    /// Its id.
    pub id: Id,
    /// Whether the session wrote it.
    pub is_owner: bool,
    /// Whether it is pinned.
    pub is_pinned: bool,
    /// The page it is on.
    pub page_id: String,
    /// How many replies by the page owner it has.
    pub page_owner_child_post_count: i32,
    /// The address of the page it is on.
    pub page_url: String,
    /// The reactions to it; the first holds the votes.
    pub reactions: Vec<Reactions>,
    /// The id of the comment it belongs to.
    pub root_id: Id,
    /// What is attached to it.
    pub section_group: SectionGroup,
    /// `"epicom"`.
    pub service_ticket_id: String,
    /// Its settings.
    pub settings: Settings,
    /// `"SERVICE"`, `"DELETE"` or `"END"`.
    pub status: String,
    /// When it was last changed, in milliseconds since the epoch.
    pub updated_at: i64,
}

/// The author of a raw post.
pub struct CreatedBy {
    /// The author's account id.
    pub cuid: String,
    /// The author's encrypted user id.
    pub enc_user_id: String,
    /// The author's id.
    pub id: String,
    /// Whether the author is a creator.
    pub is_creator: bool,
    /// Whether the author owns the page.
    pub is_page_owner: bool,
    /// The author's masked user id.
    pub masked_user_id: String,
    /// The author's username.
    pub name: String,
    /// The author's profile image.
    pub profile_image: ProfileImage,
    /// The author's profile segment.
    pub profile_url: String,
    /// `"PAGE"`.
    pub publisher_type: String,
    /// What the author may not do.
    pub restriction: Restriction,
    /// The author's status.
    pub status: String,
}

/// The reactions to a post.
pub struct Reactions {
    /// The post reacted to.
    pub content_id: Id,
    /// One entry per kind of reaction.
    pub emotions: Vec<Emotions>,
    /// The reaction's id.
    pub reaction_id: String,
}

/// One kind of reaction to a post.
#[derive(Debug)]
pub struct Emotions {
    /// How many reacted so.
    pub count: u32,
    /// `"like"` or `"dislike"`.
    pub emotion_id: String,
    /// Whether the session reacted so.
    pub reacted: bool,
}

/// How the text of a post is formatted.
pub struct BodyFormat {
    /// `"PLAIN"`.
    pub format_type: String,
    /// The format's version.
    pub version: String,
}

/// The profile image of a post's author (its contents are not read).
pub struct ProfileImage {}

/// What a post's author may not do.
pub struct Restriction {
    /// Whether the author's posts are hidden.
    pub is_blind_post_restricted: bool,
    /// Whether the author is blocked from writing posts.
    pub is_write_post_restricted: bool,
}

/// What is attached to a post.
pub struct SectionGroup {
    /// The attachments.
    pub sections: Vec<Section>,
    /// How many there are.
    pub total_count: u64,
}

/// The settings of a post.
pub struct Settings {
    /// `"ON"` or `"OFF"`.
    pub reaction: String,
    /// `"ON"` or `"OFF"`.
    pub reply: String,
    /// `"ON"` when the post is marked as a spoiler.
    pub spoiler_filter: String,
}

/// An attachment of a post.
#[derive(Debug)]
pub enum Section {
    /// A GIF.
    Giphy {
        /// The attachment's id.
        section_id: String,
        /// The GIF.
        data: GiphyData,
    },
    /// A sticker.
    Sticker {
        /// The attachment's id.
        section_id: String,
        /// The sticker.
        data: StickerData,
    },
    /// A webtoon.
    ContentMeta {
        /// The attachment's id.
        section_id: String,
        /// The webtoon.
        data: ContentMetaData,
    },
    /// Super likes the author gave the episode.
    SuperLike {
        /// The attachment's id.
        section_id: String,
        /// The super likes.
        data: SuperLikeData,
    },
}

/// An attached GIF.
#[derive(Debug)]
pub struct GiphyData {
    /// Its GIPHY id.
    pub giphy_id: String,
    /// Its title.
    pub title: String,
}

/// An attached sticker.
#[derive(Debug)]
pub struct StickerData {
    /// Its sticker id, e.g. `wt_001-v2-1`.
    pub sticker_id: String,
    /// Its pack's id.
    pub sticker_pack_id: String,
    /// The host of its image.
    pub domain: String,
    /// The path of its image.
    pub path: String,
    /// The height of its image.
    pub height: u16,
}

/// An attached webtoon.
#[derive(Debug)]
pub struct ContentMetaData {
    /// The kind of content.
    pub content_type: String,
    /// The sub kind of content.
    pub content_sub_type: String,
    /// The content's id.
    pub content_id: String,
    /// What the content is.
    pub info: ContentInfo,
}

/// What an attached webtoon is.
#[derive(Debug)]
pub struct ContentInfo {
    /// Its name.
    pub name: String,
    /// Where it lives.
    pub extra: Extra,
}

/// Where an attached webtoon lives.
#[derive(Debug)]
pub struct Extra {
    /// The path of its episode list, e.g. `/en/fantasy/tower-of-god/list?title_no=95`.
    pub episode_list_path: String,
}

/// Super likes attached to a post.
#[derive(Debug)]
pub struct SuperLikeData {
    /// How many super likes were given.
    pub super_like_count: u32,
    /// What they cost.
    pub super_like_price: u32,
    /// When they were given, in milliseconds since the epoch.
    pub super_like_received_at: i64,
}

/// The body of a reaction-count response.
#[derive(Debug)]
pub struct Count {
    /// `"success"` when the request succeeded.
    pub status: String,
    /// The counts.
    pub result: CountResult,
}

/// The reaction counts of a post.
#[derive(Debug)]
pub struct CountResult {
    /// The post counted.
    pub content_id: Id,
    /// One entry per kind of reaction.
    pub emotions: Vec<Emotions>,
}

// ---------------------------------------------------------------------------
// From a raw post to a post.

/// The first reaction of kind `kind` among `emotions`.
pub open spec fn find_emotion(emotions: Seq<Emotions>, kind: Seq<char>) -> Option<Emotions>
    decreases emotions.len(),
{
    if emotions.len() == 0 {
        None
    } else if emotions[0].emotion_id@ == kind {
        Some(emotions[0])
    } else {
        find_emotion(emotions.drop_first(), kind)
    }
}

/// How many reacted with `kind`, and whether the session did; none and no when absent.
pub open spec fn tally(emotions: Seq<Emotions>, kind: Seq<char>) -> (u32, bool) {
    match find_emotion(emotions, kind) {
        Some(e) => (e.count, e.reacted),
        None => (0, false),
    }
}

/// The session's reaction, from whether it liked and whether it disliked.
pub open spec fn reaction_of(liked: bool, disliked: bool) -> Reaction {
    if liked {
        Reaction::Upvote
    } else if disliked {
        Reaction::Downvote
    } else {
        Reaction::Nothing
    }
}

/// The address an attached webtoon's episode-list path stands for.
pub open spec fn attached_url(path: Seq<char>) -> Seq<char> {
    "https://www.webtoons.com"@ + path
}

/// The webtoon an episode-list path names, if it names one.
pub open spec fn attached_webtoon(path: Seq<char>) -> Option<(Scope, Seq<char>, u32)> {
    let url = attached_url(path);
    if url_parses(url) {
        match webtoon_url_outcome(url_path_segments(url), url_query(url)) {
            Ok(t) => Some(t),
            Err(_) => None,
        }
    } else {
        None
    }
}

/// Whether `w` is the webtoon the episode-list path names.
pub open spec fn is_attached(path: Seq<char>, w: Webtoon) -> bool {
    attached_webtoon(path) == Some((w.scope, w.slug@, w.id))
}

/// Whether a post with several attachments is well formed: each is a webtoon that resolves
/// or super likes.
pub open spec fn attachments_ok(sections: Seq<Section>) -> bool {
    forall|i: int| 0 <= i < sections.len() ==> match #[trigger] sections[i] {
        Section::ContentMeta { data, .. } => attached_webtoon(data.info.extra.episode_list_path@) is Some,
        Section::SuperLike { .. } => true,
        _ => false,
    }
}

/// The episode-list paths of the attached webtoons, in order.
pub open spec fn attached_paths(sections: Seq<Section>) -> Seq<Seq<char>>
    decreases sections.len(),
{
    if sections.len() == 0 {
        Seq::empty()
    } else {
        let rest = attached_paths(sections.drop_last());
        match sections.last() {
            Section::ContentMeta { data, .. } => rest.push(data.info.extra.episode_list_path@),
            _ => rest,
        }
    }
}

/// The super likes named by the last super-like attachment, if any.
pub open spec fn last_super_like(sections: Seq<Section>) -> Option<u32>
    decreases sections.len(),
{
    if sections.len() == 0 {
        None
    } else {
        match sections.last() {
            Section::SuperLike { data, .. } => Some(data.super_like_count),
            _ => last_super_like(sections.drop_last()),
        }
    }
}

/// Whether `flare` lists exactly the webtoons the episode-list paths name.
pub open spec fn lists_webtoons(flare: Option<Flare>, paths: Seq<Seq<char>>) -> bool {
    flare matches Some(Flare::Webtoons(ws)) && ws@.len() == paths.len()
        && forall|i: int| 0 <= i < paths.len() ==> is_attached(paths[i], #[trigger] ws@[i])
}

/// Whether the attachments of a raw post can be read.
pub open spec fn flare_ok(sections: Seq<Section>) -> bool {
    if sections.len() > 1 {
        attachments_ok(sections)
    } else if sections.len() == 1 {
        match sections[0] {
            Section::Sticker { data, .. } => sticker_of(data.sticker_id@) is Some,
            Section::ContentMeta { data, .. } => attached_webtoon(data.info.extra.episode_list_path@) is Some,
            _ => true,
        }
    } else {
        true
    }
}

/// Whether `flare` and `super_like` are what readable attachments stand for.
pub open spec fn flare_is(sections: Seq<Section>, flare: Option<Flare>, super_like: Option<u32>) -> bool {
    if sections.len() > 1 {
        lists_webtoons(flare, attached_paths(sections)) && super_like == last_super_like(sections)
    } else if sections.len() == 1 {
        match sections[0] {
            Section::Giphy { data, .. } => flare matches Some(Flare::Giphy(g)) && g@ == data.giphy_id@
                && super_like is None,
            Section::Sticker { data, .. } => flare matches Some(Flare::Sticker(s))
                && sticker_of(data.sticker_id@) == Some(s@) && super_like is None,
            Section::ContentMeta { data, .. } => lists_webtoons(flare, seq![data.info.extra.episode_list_path@])
                && super_like is None,
            Section::SuperLike { data, .. } => flare is None && super_like == Some(data.super_like_count),
        }
    } else {
        flare is None && super_like is None
    }
}

/// Whether a raw post can be read as a post: it has a first reaction entry, readable
/// attachments, and a posting time chrono accepts.
pub open spec fn raw_post_ok(post: RawPost) -> bool {
    &&& post.reactions@.len() > 0
    &&& flare_ok(post.section_group.sections@)
    &&& millis_in_range(post.created_at)
}

/// Whether `p` is the post on episode `episode` that the raw post stands for.
pub open spec fn post_is(episode: u16, post: RawPost, p: Post) -> bool {
    let emotions = post.reactions@[0].emotions@;
    let (upvotes, liked) = tally(emotions, "like"@);
    let (downvotes, disliked) = tally(emotions, "dislike"@);
    &&& p.episode == episode
    &&& p.id == post.id
    &&& p.parent_id == post.root_id
    &&& p.body.contents@ == post.body@
    &&& p.body.is_spoiler == (post.settings.spoiler_filter@ == "ON"@)
    &&& flare_is(post.section_group.sections@, p.body.flare, p.poster.super_like)
    &&& p.upvotes == upvotes
    &&& p.downvotes == downvotes
    &&& p.replies == post.child_post_count
    &&& p.is_top == post.is_pinned
    &&& p.is_deleted == (post.status@ == "DELETE"@)
    &&& p.posted == post.created_at
    &&& p.poster.episode == episode
    &&& p.poster.post_id == post.id
    &&& p.poster.cuid@ == post.created_by.cuid@
    &&& p.poster.profile@ == post.created_by.profile_url@
    &&& p.poster.username@ == post.created_by.name@
    &&& p.poster.is_current_session_user == post.created_by.is_page_owner
    &&& p.poster.is_current_webtoon_creator == post.created_by.is_page_owner
    &&& p.poster.is_creator == post.created_by.is_creator
    &&& p.poster.is_blocked == post.created_by.restriction.is_write_post_restricted
    &&& p.poster.reaction == reaction_of(liked, disliked)
}

fn string_is(s: &String, lit: &str) -> (b: bool)
    ensures
        b == (s@ == lit@),
{
    let cs = chars_of(s.as_str());
    eq_str(&cs, lit)
}

fn find_tally(emotions: &Vec<Emotions>, kind: &str) -> (t: (u32, bool))
    ensures
        t == tally(emotions@, kind@),
{
    let mut i: usize = 0;
    assert(emotions@.skip(0) =~= emotions@);
    while i < emotions.len()
        invariant
            i <= emotions@.len(),
            find_emotion(emotions@, kind@) == find_emotion(emotions@.skip(i as int), kind@),
        decreases emotions@.len() - i,
    {
        assert(emotions@.skip(i as int).drop_first() =~= emotions@.skip(i + 1));
        if string_is(&emotions[i].emotion_id, kind) {
            return (emotions[i].count, emotions[i].reacted);
        }
        i += 1;
    }
    (0, false)
}

/// The webtoon attached by its episode-list path.
fn attached(path: &String) -> (r: Result<Webtoon, Assumption>)
    ensures
        match attached_webtoon(path@) {
            Some(t) => r matches Ok(w) && is_attached(path@, w),
            None => r is Err,
        },
{
    let mut url = "https://www.webtoons.com".to_owned();
    url.append(path.as_str());
    match Webtoon::from_url(url.as_str()) {
        Ok(w) => Ok(w),
        Err(e) => Err(Assumption::from(e.to_string())),
    }
}

/// The flare and super likes that several attachments stand for.
fn many_attachments(sections: &Vec<Section>) -> (r: Result<(Option<Flare>, Option<u32>), Assumption>)
    requires
        sections@.len() > 1,
    ensures
        match r {
            Ok((flare, super_like)) => attachments_ok(sections@) && flare_is(sections@, flare, super_like),
            Err(_) => !attachments_ok(sections@),
        },
{
    let mut webtoons: Vec<Webtoon> = Vec::new();
    let mut super_like: Option<u32> = None;
    let mut i: usize = 0;
    while i < sections.len()
        invariant
            i <= sections@.len(),
            attachments_ok(sections@.take(i as int)),
            webtoons@.len() == attached_paths(sections@.take(i as int)).len(),
            forall|j: int| 0 <= j < webtoons@.len() ==> is_attached(attached_paths(sections@.take(i as int))[j], #[trigger] webtoons@[j]),
            super_like == last_super_like(sections@.take(i as int)),
        decreases sections@.len() - i,
    {
        let ghost before = sections@.take(i as int);
        let ghost after = sections@.take(i + 1);
        assert(after.drop_last() =~= before);
        assert(after.last() == sections@[i as int]);
        match &sections[i] {
            Section::ContentMeta { data, .. } => {
                let w = match attached(&data.info.extra.episode_list_path) {
                    Ok(w) => w,
                    Err(e) => {
                        assert(!attachments_ok(sections@)) by {
                            assert(match sections@[i as int] {
                                Section::ContentMeta { data, .. } => attached_webtoon(data.info.extra.episode_list_path@) is Some,
                                Section::SuperLike { .. } => true,
                                _ => false,
                            } == false);
                        }
                        return Err(e);
                    },
                };
                webtoons.push(w);
            },
            Section::SuperLike { data, .. } => {
                super_like = Some(data.super_like_count);
            },
            _ => {
                assert(!attachments_ok(sections@)) by {
                    assert(match sections@[i as int] {
                        Section::ContentMeta { data, .. } => attached_webtoon(data.info.extra.episode_list_path@) is Some,
                        Section::SuperLike { .. } => true,
                        _ => false,
                    } == false);
                }
                return Err(Assumption::new(
                    "Only the Webtoon meta flare can have more than one in the section group, yet encountered a case where there was more than one of another flare type",
                ));
            },
        }
        i += 1;
        assert(attachments_ok(sections@.take(i as int))) by {
            assert forall|j: int| 0 <= j < after.len() implies match #[trigger] after[j] {
                Section::ContentMeta { data, .. } => attached_webtoon(data.info.extra.episode_list_path@) is Some,
                Section::SuperLike { .. } => true,
                _ => false,
            } by {
                if j < before.len() {
                    assert(after[j] == before[j]);
                }
            }
        }
    }
    assert(sections@.take(sections@.len() as int) =~= sections@);
    Ok((Some(Flare::Webtoons(webtoons)), super_like))
}

/// The flare and super likes that the attachments of a raw post stand for.
fn read_flare(sections: &Vec<Section>) -> (r: Result<(Option<Flare>, Option<u32>), Assumption>)
    ensures
        match r {
            Ok((flare, super_like)) => flare_ok(sections@) && flare_is(sections@, flare, super_like),
            Err(_) => !flare_ok(sections@),
        },
{
    if sections.len() > 1 {
        return many_attachments(sections);
    }
    if sections.len() == 0 {
        return Ok((None, None));
    }
    match &sections[0] {
        Section::Giphy { data, .. } => Ok((Some(Flare::Giphy(Giphy::new(data.giphy_id.clone()))), None)),
        Section::Sticker { data, .. } => match Sticker::from_str(data.sticker_id.as_str()) {
            Ok(s) => Ok((Some(Flare::Sticker(s)), None)),
            Err(e) => Err(e),
        },
        Section::ContentMeta { data, .. } => match attached(&data.info.extra.episode_list_path) {
            Ok(w) => {
                let mut ws: Vec<Webtoon> = Vec::new();
                ws.push(w);
                Ok((Some(Flare::Webtoons(ws)), None))
            },
            Err(e) => Err(e),
        },
        Section::SuperLike { data, .. } => Ok((None, Some(data.super_like_count))),
    }
}

impl Post {
    /// The post on episode `episode` that a raw post stands for (`TryFrom<(&Episode, RawPost)>`).
    ///
    /// Its votes come from the first reaction entry: the first `like` and the first
    /// `dislike` emotion, zero when absent, and the session's reaction is an upvote if it
    /// liked, else a downvote if it disliked. Several attachments must all be webtoons or
    /// super likes; one is read as a GIF, a sticker, a webtoon or super likes.
    ///
    /// Fails when there is no reaction entry, when an attachment cannot be read, and when
    /// chrono does not accept the posting time.
    pub fn try_from(episode: u16, post: RawPost) -> (r: Result<Post, Assumption>)
        ensures
            raw_post_ok(post) <==> r is Ok,
            r matches Ok(p) ==> post_is(episode, post, p),
    {
        if post.reactions.len() == 0 {
            return Err(Assumption::new("`reactions` field didn't have a 0th element and it should always have one"));
        }
        let (upvotes, did_like) = find_tally(&post.reactions[0].emotions, "like");
        let (downvotes, did_dislike) = find_tally(&post.reactions[0].emotions, "dislike");
        let reaction = if did_like {
            Reaction::Upvote
        } else if did_dislike {
            Reaction::Downvote
        } else {
            Reaction::Nothing
        };
        let is_deleted = string_is(&post.status, "DELETE");
        let is_spoiler = string_is(&post.settings.spoiler_filter, "ON");
        let (flare, super_like) = match read_flare(&post.section_group.sections) {
            Ok(f) => f,
            Err(e) => return Err(e),
        };
        if utc_from_millis(post.created_at).is_none() {
            return Err(Assumption::new("`created_at` is not a valid unix millisecond timestamp"));
        }
        let poster = Poster {
            episode,
            post_id: post.id,
            cuid: post.created_by.cuid,
            profile: post.created_by.profile_url,
            username: post.created_by.name,
            is_creator: post.created_by.is_creator,
            is_blocked: post.created_by.restriction.is_write_post_restricted,
            is_current_session_user: post.created_by.is_page_owner,
            is_current_webtoon_creator: post.created_by.is_page_owner,
            reaction,
            super_like,
        };
        Ok(Post {
            episode,
            id: post.id,
            parent_id: post.root_id,
            body: Body { contents: post.body, is_spoiler, flare },
            upvotes,
            downvotes,
            replies: post.child_post_count,
            is_top: post.is_pinned,
            is_deleted,
            posted: post.created_at,
            poster,
        })
    }
}

/// The letter and numbers by which the posts endpoint names an episode:
/// `{w|c}_{webtoon}_{episode}`.
pub open spec fn page_id_text(w: Webtoon, episode: u16) -> Seq<char> {
    (if w.scope is Canvas { "c"@ } else { "w"@ }) + "_"@ + decimal(w.id as nat) + "_"@ + decimal(episode as nat)
}

/// The text a cursor is sent as: the id, or nothing.
pub open spec fn cursor_text(cursor: Option<Id>) -> Seq<char> {
    match cursor {
        Some(id) => id_text(id@),
        None => Seq::empty(),
    }
}

/// The address of a request for posts on episode `episode` of `w`.
pub open spec fn posts_url_text(w: Webtoon, episode: u16, request: PostsRequest) -> Seq<char> {
    match request.pins {
        PinRepresentation::Mixed => "https://www.webtoons.com/p/api/community/v2/posts?pageId="@ + page_id_text(w, episode)
            + "&pinRepresentation=none&prevSize=0&nextSize="@ + decimal(request.stride as nat) + "&cursor="@
            + cursor_text(request.cursor) + "&withCursor=true"@,
        PinRepresentation::Distinct => "https://www.webtoons.com/p/api/community/v1/page/"@ + page_id_text(w, episode)
            + "/posts/search?pinRepresentation=distinct&prevSize=0&nextSize=1"@,
    }
}

fn page_id(w: &Webtoon, episode: u16) -> (s: String)
    ensures
        s@ == page_id_text(*w, episode),
{
    let mut s = if w.is_canvas() { "c".to_owned() } else { "w".to_owned() };
    s.append("_");
    s.append(decimal_string(w.id as u64).as_str());
    s.append("_");
    s.append(decimal_string(episode as u64).as_str());
    s
}

/// The address of a request for posts on episode `episode` of `w`.
pub fn posts_url(w: &Webtoon, episode: u16, request: &PostsRequest) -> (url: String)
    ensures
        url@ == posts_url_text(*w, episode, *request),
{
    let id = page_id(w, episode);
    match request.pins {
        PinRepresentation::Mixed => {
            let mut url = "https://www.webtoons.com/p/api/community/v2/posts?pageId=".to_owned();
            url.append(id.as_str());
            url.append("&pinRepresentation=none&prevSize=0&nextSize=");
            url.append(decimal_string(request.stride as u64).as_str());
            url.append("&cursor=");
            match request.cursor {
                Some(c) => url.append(c.to_string().as_str()),
                None => {},
            }
            url.append("&withCursor=true");
            url
        },
        PinRepresentation::Distinct => {
            let mut url = "https://www.webtoons.com/p/api/community/v1/page/".to_owned();
            url.append(id.as_str());
            url.append("/posts/search?pinRepresentation=distinct&prevSize=0&nextSize=1");
            url
        },
    }
}

/// The address of a request for the replies to the post `id`, oldest first, `stride` at a
/// time, from `cursor`.
pub open spec fn replies_url_text(id: Id, cursor: Option<Id>, stride: u8) -> Seq<char> {
    "https://www.webtoons.com/p/api/community/v2/post/"@ + id_text(id@)
        + "/child-posts?sort=oldest&displayBlindCommentAsService=false&prevSize=0&nextSize="@
        + decimal(stride as nat) + "&cursor="@ + cursor_text(cursor) + "&withCursor=false"@
}

/// The address of a request for the replies to the post `id`, oldest first, `stride` at a
/// time, from `cursor`.
pub fn replies_url(id: &Id, cursor: Option<Id>, stride: u8) -> (url: String)
    ensures
        url@ == replies_url_text(*id, cursor, stride),
{
    let mut url = "https://www.webtoons.com/p/api/community/v2/post/".to_owned();
    url.append(id.to_string().as_str());
    url.append("/child-posts?sort=oldest&displayBlindCommentAsService=false&prevSize=0&nextSize=");
    url.append(decimal_string(stride as u64).as_str());
    url.append("&cursor=");
    match cursor {
        Some(c) => url.append(c.to_string().as_str()),
        None => {},
    }
    url.append("&withCursor=false");
    url
}

} // verus!

//! Walking the comments of an episode, newest first, page by page.
//!
//! The walk is a state machine: [`Comments::step`] says what to fetch next or which
//! comment comes next, and [`Comments::receive`] takes the page that was fetched.
use crate::platform::webtoons::client::api::posts::{post_is, raw_post_ok, RawPost, RawPostResponse};
use crate::platform::webtoons::webtoon::post::id::Id;
use crate::platform::webtoons::webtoon::post::Post;
use crate::stdx::error::Assumption;
use vstd::prelude::*;

verus! {

/// Whether the posts endpoint lists pinned comments apart (`tops`) or among the others.
#[derive(Debug, Clone, Copy, PartialEq, Eq, Structural)]
pub enum PinRepresentation {
    /// Pinned comments are listed among the others.
    Mixed,
    /// Pinned comments are listed apart, with their pinned flag.
    Distinct,
}

/// A request to the posts endpoint for an episode.
#[derive(Debug, Clone, Copy, PartialEq, Eq)]
pub struct PostsRequest {
    /// Where the page starts; `None` for the first page.
    pub cursor: Option<Id>,
    /// How many posts to ask for.
    pub stride: u8,
    /// How pinned comments are listed.
    pub pins: PinRepresentation,
}

/// What the walk does next.
#[derive(Debug)]
pub enum Step {
    /// Fetch this page and hand it to [`Comments::receive`].
    Fetch(PostsRequest),
    /// This comment is next.
    Comment(Post),
    /// There are no more comments.
    Finished,
}

/// Where the walk stands.
#[derive(Debug, Clone, Copy, PartialEq, Eq, Structural)]
pub enum State {
    /// Nothing fetched yet.
    Start,
    /// Waiting for the pinned comments.
    AwaitingTops,
    /// The pinned comments are known; the first page is next.
    NeedFirstPage,
    /// Waiting for a page of comments.
    AwaitingPage,
    /// A page was just received.
    Fetched,
    /// Handing out the comments of the pages received.
    Streaming,
    /// All comments were handed out.
    Finished,
}

/// The request for the pinned comments: ten posts with pins listed apart.
pub open spec fn tops_request() -> PostsRequest {
    PostsRequest { cursor: None, stride: 10, pins: PinRepresentation::Distinct }
}

/// The request for a page of comments from `cursor`: a hundred posts with pins among them.
pub open spec fn page_request(cursor: Option<Id>) -> PostsRequest {
    PostsRequest { cursor, stride: 100, pins: PinRepresentation::Mixed }
}

/// Whether `posts` are the posts of episode `episode` that the raw posts stand for, in order.
pub open spec fn posts_are(episode: u16, raw: Seq<RawPost>, posts: Seq<Post>) -> bool {
    posts.len() == raw.len() && forall|i: int| 0 <= i < raw.len() ==> post_is(episode, raw[i], #[trigger] posts[i])
}

/// Whether every raw post can be read.
pub open spec fn all_ok(raw: Seq<RawPost>) -> bool {
    forall|i: int| 0 <= i < raw.len() ==> raw_post_ok(#[trigger] raw[i])
}

/// The comments of an episode, walked newest first.
#[derive(Debug)]
pub struct Comments {
    episode: u16,
    state: State,
    queue: Vec<Post>,
    cursor: Option<Id>,
    tops: Option<Vec<Id>>,
}

/// Whether taking one step from the walk `before` gives `s` and leaves the walk `after`;
/// see [`Comments::step`].
pub open spec fn step_taken(before: Comments, after: Comments, s: Step) -> bool {
    &&& after.spec_episode() == before.spec_episode()
    &&& after.spec_cursor() == before.spec_cursor()
    &&& after.spec_tops() == before.spec_tops()
    &&& match before.spec_state() {
        State::Start => s == Step::Fetch(tops_request()) && after.spec_state() == State::AwaitingTops
            && after.spec_queue() == before.spec_queue(),
        State::NeedFirstPage => s == Step::Fetch(page_request(None)) && after.spec_state() == State::AwaitingPage
            && after.spec_queue() == before.spec_queue(),
        State::Fetched | State::Streaming => if before.spec_queue().len() > 0 {
            s == Step::Comment(before.spec_queue()[0]) && after.spec_state() == State::Streaming
                && after.spec_queue() == before.spec_queue().drop_first()
        } else if before.spec_state() == State::Streaming && before.spec_cursor() is Some {
            s == Step::Fetch(page_request(before.spec_cursor())) && after.spec_state() == State::AwaitingPage
                && after.spec_queue() == before.spec_queue()
        } else {
            s is Finished && after.spec_state() == State::Finished && after.spec_queue() == before.spec_queue()
        },
        State::Finished => s is Finished && after.spec_state() == State::Finished
            && after.spec_queue() == before.spec_queue(),
        State::AwaitingTops | State::AwaitingPage => s == Step::Fetch(
            if before.spec_state() == State::AwaitingTops { tops_request() } else { page_request(before.spec_cursor()) },
        ) && after.spec_state() == before.spec_state() && after.spec_queue() == before.spec_queue(),
    }
}

/// A finished walk stays finished: once a step has answered that there are no more
/// comments, the next step answers the same, asks for no page, and stays finished.
pub proof fn lemma_finished_stays_finished(a: Comments, b: Comments, s: Step, c: Comments, t: Step)
    requires
        step_taken(a, b, s),
        s is Finished,
        step_taken(b, c, t),
    ensures
        b.spec_state() == State::Finished,
        t is Finished,
        c.spec_state() == State::Finished,
        c.spec_queue() == b.spec_queue(),
{
}

impl Comments {
    /// The episode walked.
    pub closed spec fn spec_episode(&self) -> u16 {
        self.episode
    }

    /// Where the walk stands.
    pub closed spec fn spec_state(&self) -> State {
        self.state
    }

    /// The comments received and not yet handed out, next first.
    pub closed spec fn spec_queue(&self) -> Seq<Post> {
        self.queue@
    }

    /// Where the next page starts, if there is one.
    pub closed spec fn spec_cursor(&self) -> Option<Id> {
        self.cursor
    }

    /// The ids of the pinned comments, once received.
    pub closed spec fn spec_tops(&self) -> Option<Seq<Id>> {
        match self.tops {
            Some(v) => Some(v@),
            None => None,
        }
    }

    /// A walk of the comments of episode `episode`; nothing is fetched yet.
    pub fn new(episode: u16) -> (c: Comments)
        ensures
            c.spec_episode() == episode,
            c.spec_state() == State::Start,
            c.spec_queue().len() == 0,
            c.spec_cursor() is None,
            c.spec_tops() is None,
    {
        Comments { episode, state: State::Start, queue: Vec::new(), cursor: None, tops: None }
    }

    /// The ids of the pinned comments, once received.
    pub fn top_comments(&self) -> (t: Option<&Vec<Id>>)
        ensures
            match t {
                Some(v) => self.spec_tops() == Some(v@),
                None => self.spec_tops() is None,
            },
    {
        match &self.tops {
            Some(v) => Some(v),
            None => None,
        }
    }

    /// What the walk does next: fetch the pinned comments, then the first page; hand out
    /// the comments received in order; when they run out, fetch the next page if there is
    /// one, and finish once a page is used up with no page after it, or a fetched page is
    /// empty.
    pub fn step(&mut self) -> (s: Step)
        ensures
            step_taken(*old(self), *final(self), s),
    {
        match self.state {
            State::Start => {
                self.state = State::AwaitingTops;
                Step::Fetch(PostsRequest { cursor: None, stride: 10, pins: PinRepresentation::Distinct })
            },
            State::AwaitingTops => Step::Fetch(PostsRequest { cursor: None, stride: 10, pins: PinRepresentation::Distinct }),
            State::NeedFirstPage => {
                self.state = State::AwaitingPage;
                Step::Fetch(PostsRequest { cursor: None, stride: 100, pins: PinRepresentation::Mixed })
            },
            State::AwaitingPage => Step::Fetch(PostsRequest { cursor: self.cursor, stride: 100, pins: PinRepresentation::Mixed }),
            State::Fetched | State::Streaming => {
                if self.queue.len() > 0 {
                    let p = self.queue.remove(0);
                    self.state = State::Streaming;
                    Step::Comment(p)
                } else if self.state == State::Streaming && self.cursor.is_some() {
                    self.state = State::AwaitingPage;
                    Step::Fetch(PostsRequest { cursor: self.cursor, stride: 100, pins: PinRepresentation::Mixed })
                } else {
                    self.state = State::Finished;
                    Step::Finished
                }
            },
            State::Finished => Step::Finished,
        }
    }

    /// Takes the answer to the last fetch: the pinned comments (at most three), whose ids are
    /// kept, or a page of comments, which are queued after those not yet handed out, its
    /// `next` cursor becoming where the following page starts.
    ///
    /// Fails when nothing was asked for, when there are more than three pinned comments,
    /// and when a post cannot be read; the walk is then left as it was.
    pub fn receive(&mut self, response: RawPostResponse) -> (r: Result<(), Assumption>)
        ensures
            final(self).spec_episode() == old(self).spec_episode(),
            match old(self).spec_state() {
                State::AwaitingTops => {
                    let tops = response.result.tops@;
                    if tops.len() < 4 && all_ok(tops) {
                        &&& r is Ok
                        &&& final(self).spec_state() == State::NeedFirstPage
                        &&& final(self).spec_queue() == old(self).spec_queue()
                        &&& final(self).spec_cursor() == old(self).spec_cursor()
                        &&& final(self).spec_tops() matches Some(ids) && ids.len() == tops.len()
                            && forall|i: int| 0 <= i < tops.len() ==> #[trigger] ids[i] == tops[i].id
                    } else {
                        r is Err && *final(self) == *old(self)
                    }
                },
                State::AwaitingPage => {
                    let posts = response.result.posts@;
                    if all_ok(posts) {
                        &&& r is Ok
                        &&& final(self).spec_state() == State::Fetched
                        &&& final(self).spec_cursor() == response.result.pagination.next
                        &&& final(self).spec_tops() == old(self).spec_tops()
                        &&& final(self).spec_queue().len() == old(self).spec_queue().len() + posts.len()
                        &&& final(self).spec_queue().take(old(self).spec_queue().len() as int) == old(self).spec_queue()
                        &&& posts_are(old(self).spec_episode(), posts, final(self).spec_queue().skip(old(self).spec_queue().len() as int))
                    } else {
                        r is Err && *final(self) == *old(self)
                    }
                },
                _ => r is Err && *final(self) == *old(self),
            },
    {
        match self.state {
            State::AwaitingTops => {
                let tops = response.result.tops;
                if tops.len() >= 4 {
                    return Err(Assumption::new("there should only be at most 3 top comments on `webtoons.com` episode"));
                }
                let mut ids: Vec<Id> = Vec::new();
                let ghost raw = tops@;
                let mut rest = tops;
                assert(raw.skip(0) =~= raw);
                let mut i: usize = 0;
                while rest.len() > 0
                    invariant
                        *self == *old(self),
                        rest@ == raw.skip(i as int),
                        i <= raw.len(),
                        raw.len() <= usize::MAX,
                        raw.len() < 4,
                        raw == response.result.tops@,
                        self.state == State::AwaitingTops,
                        ids@.len() == i,
                        forall|j: int| 0 <= j < i ==> #[trigger] ids@[j] == raw[j].id,
                        forall|j: int| 0 <= j < i ==> raw_post_ok(#[trigger] raw[j]),
                    decreases rest@.len(),
                {
                    let raw_post = rest.remove(0);
                    assert(raw_post == raw[i as int]);
                    assert(raw.skip(i as int).drop_first() =~= raw.skip(i + 1));
                    let post = match Post::try_from(self.episode, raw_post) {
                        Ok(p) => p,
                        Err(e) => {
                            assert(!raw_post_ok(raw[i as int]));
                            assert(!all_ok(raw));
                            return Err(e);
                        },
                    };
                    ids.push(post.id());
                    i += 1;
                }
                self.tops = Some(ids);
                self.state = State::NeedFirstPage;
                Ok(())
            },
            State::AwaitingPage => {
                let ghost raw = response.result.posts@;
                let mut converted: Vec<Post> = Vec::new();
                let mut rest = response.result.posts;
                let n = rest.len();
                assert(raw.skip(0) =~= raw);
                let mut i: usize = 0;
                while rest.len() > 0
                    invariant
                        *self == *old(self),
                        rest@ == raw.skip(i as int),
                        i <= raw.len(),
                        raw.len() <= usize::MAX,
                        self.state == State::AwaitingPage,
                        raw == response.result.posts@,
                        converted@.len() == i,
                        forall|j: int| 0 <= j < i ==> post_is(self.episode, raw[j], #[trigger] converted@[j]),
                        forall|j: int| 0 <= j < i ==> raw_post_ok(#[trigger] raw[j]),
                    decreases rest@.len(),
                {
                    let raw_post = rest.remove(0);
                    assert(raw_post == raw[i as int]);
                    assert(raw.skip(i as int).drop_first() =~= raw.skip(i + 1));
                    let post = match Post::try_from(self.episode, raw_post) {
                        Ok(p) => p,
                        Err(e) => {
                            assert(!raw_post_ok(raw[i as int]));
                            assert(!all_ok(raw));
                            return Err(e);
                        },
                    };
                    converted.push(post);
                    i += 1;
                }
                let ghost before = self.queue@;
                assert(i == raw.len());
                let ghost conv = converted@;
                self.queue.append(&mut converted);
                proof {
                    let fin = self.queue@;
                    assert(fin == before + conv);
                    assert(fin.take(before.len() as int) =~= before);
                    assert(fin.skip(before.len() as int) =~= conv);
                }
                self.cursor = response.result.pagination.next;
                self.state = State::Fetched;
                Ok(())
            },
            _ => Err(Assumption::new("a page of posts was received without being asked for")),
        }
    }
}

} // verus!

//! The replies to a comment, gathered from the pages the replies endpoint answers with.
//!
//! Replies are kept once per id and returned in the order they were posted. The first page
//! is read as it comes (a repeated id keeps its first version); a reply seen again on a
//! later page is replaced by its newer version.
use crate::platform::webtoons::webtoon::post::id::{id_order, Id, IdView};
use crate::platform::webtoons::client::api::posts::{
    post_is, raw_post_ok, replies_url, replies_url_text, RawPost, RawPostResponse,
};
use crate::platform::webtoons::webtoon::post::Post;
use crate::stdx::error::Assumption;
use std::cmp::Ordering;
use vstd::prelude::*;

verus! {

/// Whether the post with the id `a` was posted after the one with the id `b`.
pub open spec fn posted_after(a: IdView, b: IdView) -> bool {
    id_order(a, b) == Ordering::Greater
}

/// Whether ids in this order are posted in this order: `a` is not after `b`.
pub open spec fn not_after(a: IdView, b: IdView) -> bool {
    !posted_after(a, b)
}

/// Whether `s` is in the order its posts were posted.
pub open spec fn in_posted_order(s: Seq<Post>) -> bool {
    forall|i: int, j: int| 0 <= i < j < s.len() ==> not_after(#[trigger] s[i].id@, #[trigger] s[j].id@)
}

/// Whether no two posts of `s` share an id.
pub open spec fn distinct_ids(s: Seq<Post>) -> bool {
    forall|i: int, j: int| 0 <= i < j < s.len() ==> #[trigger] s[i].id != #[trigger] s[j].id
}

/// Whether a post of `s` has the id `x`.
pub open spec fn has_id(s: Seq<Post>, x: Id) -> bool {
    exists|i: int| 0 <= i < s.len() && #[trigger] s[i].id == x
}

/// Whether `p` is the first post of `s` with its id.
pub open spec fn first_of_its_id(s: Seq<Post>, p: Post) -> bool {
    exists|k: int| 0 <= k < s.len() && s[k] == p && forall|j: int| 0 <= j < k ==> #[trigger] s[j].id != p.id
}

/// Whether `p` is the last post of `s` with its id.
pub open spec fn last_of_its_id(s: Seq<Post>, p: Post) -> bool {
    exists|k: int| 0 <= k < s.len() && s[k] == p && forall|j: int| k < j < s.len() ==> #[trigger] s[j].id != p.id
}

/// Whether `p` is the version of its reply that is kept, given the first page `first` and
/// the later pages `later` (flattened): the last one on the later pages, else the first one
/// on the first page.
pub open spec fn kept_version(first: Seq<Post>, later: Seq<Post>, p: Post) -> bool {
    ||| last_of_its_id(later, p)
    ||| (!has_id(later, p.id) && first_of_its_id(first, p))
}

/// The posts of the later pages, in order.
pub open spec fn later_posts(pages: Seq<Vec<Post>>) -> Seq<Post> {
    pages.map_values(|p: Vec<Post>| p@).flatten()
}

/// Whether `r` gathers the replies of the first page `first` and the later pages `later`:
/// one post per id that occurs, each the version that is kept, in the order they were
/// posted.
pub open spec fn gathered_replies(first: Seq<Post>, later: Seq<Post>, r: Seq<Post>) -> bool {
    &&& in_posted_order(r)
    &&& distinct_ids(r)
    &&& forall|k: int| 0 <= k < first.len() ==> has_id(r, #[trigger] first[k].id)
    &&& forall|k: int| 0 <= k < later.len() ==> has_id(r, #[trigger] later[k].id)
    &&& forall|i: int| 0 <= i < r.len() ==> kept_version(first, later, #[trigger] r[i])
}

/// The position of the post with the id `x` in `out`, if any.
fn position_of(out: &Vec<Post>, x: Id) -> (r: Option<usize>)
    ensures
        match r {
            Some(i) => i < out@.len() && out@[i as int].id == x,
            None => !has_id(out@, x),
        },
{
    let mut i: usize = 0;
    while i < out.len()
        invariant
            i <= out@.len(),
            forall|j: int| 0 <= j < i ==> #[trigger] out@[j].id != x,
        decreases out@.len() - i,
    {
        if out[i].id == x {
            return Some(i);
        }
        i += 1;
    }
    None
}

/// Whether the post with the id `a` was posted after the one with the id `b`.
fn is_posted_after(a: Id, b: Id) -> (r: bool)
    ensures
        r == posted_after(a@, b@),
{
    match a.cmp(&b) {
        Ordering::Greater => true,
        _ => false,
    }
}

/// Where a post with the id `x` goes in `out`, which is in posted order: before the first
/// post posted after it.
fn insertion_point(out: &Vec<Post>, x: Id) -> (r: usize)
    requires
        in_posted_order(out@),
    ensures
        r <= out@.len(),
        forall|j: int| 0 <= j < r ==> not_after(#[trigger] out@[j].id@, x@),
        forall|j: int| r <= j < out@.len() ==> posted_after(#[trigger] out@[j].id@, x@),
{
    let mut i: usize = 0;
    while i < out.len()
        invariant
            i <= out@.len(),
            in_posted_order(out@),
            forall|j: int| 0 <= j < i ==> not_after(#[trigger] out@[j].id@, x@),
        decreases out@.len() - i,
    {
        if is_posted_after(out[i].id, x) {
            assert forall|j: int| i <= j < out@.len() implies posted_after(#[trigger] out@[j].id@, x@) by {
                if j > i {
                    assert(not_after(out@[i as int].id@, out@[j].id@));
                }
            }
            return i;
        }
        i += 1;
    }
    i
}

/// Puts `p` into `out` at the place its id is posted, keeping `out` in posted order.
fn insert_in_order(out: &mut Vec<Post>, p: Post)
    requires
        in_posted_order(old(out)@),
        distinct_ids(old(out)@),
        !has_id(old(out)@, p.id),
    ensures
        in_posted_order(final(out)@),
        distinct_ids(final(out)@),
        final(out)@.len() == old(out)@.len() + 1,
        has_id(final(out)@, p.id),
        forall|x: Id| has_id(old(out)@, x) ==> has_id(final(out)@, x),
        forall|q: Post| final(out)@.contains(q) ==> q == p || old(out)@.contains(q),
{
    let ghost before = out@;
    let at = insertion_point(out, p.id);
    out.insert(at, p);
    let ghost after = out@;
    assert(after[at as int] == p);
    assert forall|i: int, j: int| 0 <= i < j < after.len() implies not_after(#[trigger] after[i].id@, #[trigger] after[j].id@) by {
        if j < at {
            assert(after[i] == before[i] && after[j] == before[j]);
        } else if j == at {
            assert(after[i] == before[i]);
        } else if i == at {
            assert(after[j] == before[j - 1]);
        } else if i < at {
            assert(after[i] == before[i] && after[j] == before[j - 1]);
        } else {
            assert(after[i] == before[i - 1] && after[j] == before[j - 1]);
        }
    }
    assert forall|i: int, j: int| 0 <= i < j < after.len() implies #[trigger] after[i].id != #[trigger] after[j].id by {
        if j < at {
            assert(after[i] == before[i] && after[j] == before[j]);
        } else if j == at {
            assert(after[i] == before[i]);
        } else if i == at {
            assert(after[j] == before[j - 1]);
        } else if i < at {
            assert(after[i] == before[i] && after[j] == before[j - 1]);
        } else {
            assert(after[i] == before[i - 1] && after[j] == before[j - 1]);
        }
    }
    assert forall|x: Id| has_id(before, x) implies has_id(after, x) by {
        let i = choose|i: int| 0 <= i < before.len() && #[trigger] before[i].id == x;
        if i < at {
            assert(after[i] == before[i]);
        } else {
            assert(after[i + 1] == before[i]);
        }
    }
    assert forall|q: Post| after.contains(q) implies q == p || before.contains(q) by {
        let i = choose|i: int| 0 <= i < after.len() && after[i] == q;
        if i < at {
            assert(after[i] == before[i]);
        } else if i > at {
            assert(after[i] == before[i - 1]);
        }
    }
}

/// What has been gathered after reading `s` from the first page.
pub open spec fn first_state(out: Seq<Post>, s: Seq<Post>) -> bool {
    &&& in_posted_order(out)
    &&& distinct_ids(out)
    &&& forall|k: int| 0 <= k < s.len() ==> has_id(out, #[trigger] s[k].id)
    &&& forall|q: Post| #[trigger] out.contains(q) ==> first_of_its_id(s, q)
}

/// What has been gathered after reading the first page `f` and `s` from the later pages.
pub open spec fn later_state(out: Seq<Post>, f: Seq<Post>, s: Seq<Post>) -> bool {
    &&& in_posted_order(out)
    &&& distinct_ids(out)
    &&& forall|k: int| 0 <= k < f.len() ==> has_id(out, #[trigger] f[k].id)
    &&& forall|k: int| 0 <= k < s.len() ==> has_id(out, #[trigger] s[k].id)
    &&& forall|q: Post| #[trigger] out.contains(q) ==> kept_version(f, s, q)
}

proof fn lemma_first_extends(s: Seq<Post>, p: Post, q: Post)
    requires
        first_of_its_id(s, q),
    ensures
        first_of_its_id(s.push(p), q),
{
    let t = s.push(p);
    let k = choose|k: int| 0 <= k < s.len() && s[k] == q && forall|j: int| 0 <= j < k ==> #[trigger] s[j].id != q.id;
    assert(t[k] == q);
    assert forall|j: int| 0 <= j < k implies #[trigger] t[j].id != q.id by {
        assert(t[j] == s[j]);
    }
}

/// Reads `p`, the next post of the first page, after `s`: a new id is put in place, a
/// repeated one is left as first read.
fn add_first(out: &mut Vec<Post>, p: Post, Ghost(s): Ghost<Seq<Post>>)
    requires
        first_state(old(out)@, s),
    ensures
        first_state(final(out)@, s.push(p)),
{
    let ghost t = s.push(p);
    assert(t[s.len() as int] == p);
    match position_of(out, p.id) {
        Some(_) => {
            assert forall|q: Post| #[trigger] out@.contains(q) implies first_of_its_id(t, q) by {
                lemma_first_extends(s, p, q);
            }
            assert forall|k: int| 0 <= k < t.len() implies has_id(out@, #[trigger] t[k].id) by {
                if k < s.len() {
                    assert(t[k] == s[k]);
                }
            }
        },
        None => {
            let ghost before = out@;
            assert forall|j: int| 0 <= j < s.len() implies #[trigger] s[j].id != p.id by {
                if s[j].id == p.id {
                    assert(has_id(before, s[j].id));
                }
            }
            insert_in_order(out, p);
            assert forall|q: Post| #[trigger] out@.contains(q) implies first_of_its_id(t, q) by {
                if q == p {
                    assert forall|j: int| 0 <= j < s.len() implies #[trigger] t[j].id != p.id by {
                        assert(t[j] == s[j]);
                    }
                } else {
                    assert(before.contains(q));
                    lemma_first_extends(s, p, q);
                }
            }
            assert forall|k: int| 0 <= k < t.len() implies has_id(out@, #[trigger] t[k].id) by {
                if k < s.len() {
                    assert(t[k] == s[k]);
                    assert(has_id(before, s[k].id));
                }
            }
        },
    }
}

proof fn lemma_kept_extends(f: Seq<Post>, s: Seq<Post>, p: Post, q: Post)
    requires
        kept_version(f, s, q),
        q.id != p.id,
    ensures
        kept_version(f, s.push(p), q),
{
    let t = s.push(p);
    if last_of_its_id(s, q) {
        let m = choose|m: int| 0 <= m < s.len() && s[m] == q && forall|n: int| m < n < s.len() ==> #[trigger] s[n].id != q.id;
        assert(t[m] == q);
        assert forall|n: int| m < n < t.len() implies #[trigger] t[n].id != q.id by {
            if n < s.len() {
                assert(t[n] == s[n]);
            }
        }
    } else {
        assert forall|n: int| 0 <= n < t.len() implies #[trigger] t[n].id != q.id by {
            if n < s.len() {
                assert(t[n] == s[n]);
                assert(!has_id(s, q.id));
            }
        }
    }
}

/// Reads `p`, the next post of the later pages, after `s`: a new id is put in place, a
/// repeated one is replaced by `p`.
fn add_later(out: &mut Vec<Post>, p: Post, Ghost(f): Ghost<Seq<Post>>, Ghost(s): Ghost<Seq<Post>>)
    requires
        later_state(old(out)@, f, s),
    ensures
        later_state(final(out)@, f, s.push(p)),
{
    let ghost t = s.push(p);
    let ghost before = out@;
    assert(t[s.len() as int] == p);
    assert(last_of_its_id(t, p));
    match position_of(out, p.id) {
        Some(at) => {
            out.set(at, p);
            assert(out@ == before.update(at as int, p));
            assert forall|a: int, b: int| 0 <= a < b < out@.len() implies not_after(#[trigger] out@[a].id@, #[trigger] out@[b].id@) by {
                assert(not_after(before[a].id@, before[b].id@));
            }
            assert forall|a: int, b: int| 0 <= a < b < out@.len() implies #[trigger] out@[a].id != #[trigger] out@[b].id by {
                assert(before[a].id != before[b].id);
            }
            assert forall|x: Id| has_id(before, x) implies has_id(out@, x) by {
                let k = choose|k: int| 0 <= k < before.len() && #[trigger] before[k].id == x;
                assert(out@[k].id == before[k].id);
            }
            assert forall|q: Post| #[trigger] out@.contains(q) implies kept_version(f, t, q) by {
                let k = choose|k: int| 0 <= k < out@.len() && out@[k] == q;
                if k != at {
                    assert(before[k] == q);
                    assert(before.contains(q));
                    assert(q.id != before[at as int].id);
                    lemma_kept_extends(f, s, p, q);
                }
            }
            assert forall|k: int| 0 <= k < t.len() implies has_id(out@, #[trigger] t[k].id) by {
                if k < s.len() {
                    assert(t[k] == s[k]);
                    assert(has_id(before, s[k].id));
                } else {
                    assert(out@[at as int].id == p.id);
                }
            }
        },
        None => {
            insert_in_order(out, p);
            assert forall|q: Post| #[trigger] out@.contains(q) implies kept_version(f, t, q) by {
                if q != p {
                    assert(before.contains(q));
                    let m = choose|m: int| 0 <= m < before.len() && before[m] == q;
                    assert(has_id(before, q.id));
                    lemma_kept_extends(f, s, p, q);
                }
            }
            assert forall|k: int| 0 <= k < t.len() implies has_id(out@, #[trigger] t[k].id) by {
                if k < s.len() {
                    assert(t[k] == s[k]);
                    assert(has_id(before, s[k].id));
                }
            }
            assert forall|k: int| 0 <= k < f.len() implies has_id(out@, #[trigger] f[k].id) by {
                assert(has_id(before, f[k].id));
            }
        },
    }
}

/// Moves from the first page's reading to the later pages': every post read so far is the
/// first of its id on the first page, and nothing has been read from the later pages.
proof fn lemma_first_to_later(out: Seq<Post>, f: Seq<Post>)
    requires
        first_state(out, f),
    ensures
        later_state(out, f, Seq::empty()),
{
    assert forall|q: Post| #[trigger] out.contains(q) implies kept_version(f, Seq::empty(), q) by {
        assert(first_of_its_id(f, q));
    }
}

/// Gathers the replies to a comment from the first page of replies and the later pages,
/// in the order they were fetched: one post per id, the newest version seen on a later
/// page or else the first on the first page, in the order the replies were posted.
pub fn gather_replies(first: Vec<Post>, later: Vec<Vec<Post>>) -> (r: Vec<Post>)
    ensures
        gathered_replies(first@, later_posts(later@), r@),
{
    let ghost f = first@;
    let ghost l = later_posts(later@);
    let mut out: Vec<Post> = Vec::new();
    let mut firsts = first;
    let ghost mut read: Seq<Post> = Seq::empty();
    assert(f =~= read + firsts@);
    while firsts.len() > 0
        invariant
            f == read + firsts@,
            first_state(out@, read),
        decreases firsts@.len(),
    {
        let ghost before = firsts@;
        let p = firsts.remove(0);
        add_first(&mut out, p, Ghost(read));
        proof {
            assert(before[0] == p);
            assert(read.push(p) + firsts@ =~= read + before);
            read = read.push(p);
        }
    }
    assert(read =~= f);
    proof {
        lemma_first_to_later(out@, f);
    }
    let mut rest = later;
    let mut posts: Vec<Post> = Vec::new();
    while rest.len() > 0
        invariant
            posts@ + later_posts(rest@) == l,
        decreases rest@.len(),
    {
        let ghost before = rest@;
        let mut page = rest.remove(0);
        assert(before.map_values(|p: Vec<Post>| p@).drop_first() =~= rest@.map_values(|p: Vec<Post>| p@));
        assert(before.map_values(|p: Vec<Post>| p@).first() == page@);
        let ghost old_posts = posts@;
        posts.append(&mut page);
        assert(posts@ + later_posts(rest@) =~= old_posts + later_posts(before));
    }
    assert(rest@.map_values(|p: Vec<Post>| p@) =~= Seq::<Seq<Post>>::empty());
    assert(posts@ =~= l);
    let ghost mut seen: Seq<Post> = Seq::empty();
    assert(l =~= seen + posts@);
    while posts.len() > 0
        invariant
            l == seen + posts@,
            later_state(out@, f, seen),
        decreases posts@.len(),
    {
        let ghost before = posts@;
        let p = posts.remove(0);
        add_later(&mut out, p, Ghost(f), Ghost(seen));
        proof {
            assert(before[0] == p);
            assert(seen.push(p) + posts@ =~= seen + before);
            seen = seen.push(p);
        }
    }
    assert(seen =~= l);
    assert forall|i: int| 0 <= i < out@.len() implies kept_version(f, l, #[trigger] out@[i]) by {
        assert(out@.contains(out@[i]));
    }
    out
}

/// How many replies are asked for per page.
pub const REPLIES_PER_PAGE: u8 = 100;

/// Whether `posts` are the posts on episode `episode` that `raws` stand for, in order.
pub open spec fn converted(episode: u16, raws: Seq<RawPost>, posts: Seq<Post>) -> bool {
    &&& posts.len() == raws.len()
    &&& forall|i: int| 0 <= i < raws.len() ==> post_is(episode, raws[i], #[trigger] posts[i])
}

/// Whether every raw post of `raws` can be read.
pub open spec fn all_readable(raws: Seq<RawPost>) -> bool {
    forall|i: int| 0 <= i < raws.len() ==> raw_post_ok(#[trigger] raws[i])
}

/// Reads the raw posts of a page as posts on episode `episode`, in order.
fn posts_of(episode: u16, raws: Vec<RawPost>) -> (r: Result<Vec<Post>, Assumption>)
    ensures
        all_readable(raws@) <==> r is Ok,
        r matches Ok(v) ==> converted(episode, raws@, v@),
{
    let ghost all = raws@;
    let mut rest = raws;
    let mut out: Vec<Post> = Vec::new();
    let ghost mut done: int = 0;
    while rest.len() > 0
        invariant
            0 <= done <= all.len(),
            all == raws@,
            rest@ == all.skip(done),
            out@.len() == done,
            forall|i: int| 0 <= i < done ==> raw_post_ok(#[trigger] all[i]),
            forall|i: int| 0 <= i < done ==> post_is(episode, all[i], #[trigger] out@[i]),
        decreases rest@.len(),
    {
        let ghost before = rest@;
        let raw = rest.remove(0);
        assert(before[0] == all[done]);
        assert(before.drop_first() =~= all.skip(done + 1));
        match Post::try_from(episode, raw) {
            Ok(p) => out.push(p),
            Err(e) => {
                assert(!raw_post_ok(all[done]));
                return Err(e);
            },
        }
        proof {
            done = done + 1;
        }
    }
    assert(all.skip(done).len() == 0);
    Ok(out)
}

/// Where a walk over the replies to a comment stands: the cursor of the next page to fetch
/// (`None` for the first page), or done.
#[derive(Debug, Clone, Copy)]
pub enum RepliesStage {
    /// Fetch the page that starts at this cursor.
    Fetch(Option<Id>),
    /// Every page has been read.
    Done,
}

/// A walk over the pages of replies to a comment. A comment without replies needs no
/// request; otherwise pages are fetched until one gives no next cursor, and the replies
/// are then gathered (see [`gather_replies`]).
#[derive(Debug)]
pub struct Replies {
    episode: u16,
    parent: Id,
    stage: RepliesStage,
    first: Option<Vec<Post>>,
    later: Vec<Vec<Post>>,
}

impl Replies {
    /// The episode of the comment.
    pub closed spec fn spec_episode(&self) -> u16 {
        self.episode
    }

    /// The comment whose replies these are.
    pub closed spec fn spec_parent(&self) -> Id {
        self.parent
    }

    /// Where the walk stands.
    pub closed spec fn spec_stage(&self) -> RepliesStage {
        self.stage
    }

    /// The replies on the first page, once read.
    pub closed spec fn spec_first(&self) -> Option<Seq<Post>> {
        match self.first {
            Some(v) => Some(v@),
            None => None,
        }
    }

    /// The replies on each later page read, in order.
    pub closed spec fn spec_later(&self) -> Seq<Vec<Post>> {
        self.later@
    }

    /// A walk over the replies to `post`; nothing is fetched yet, and nothing will be for a
    /// post without replies.
    pub fn new(post: &Post) -> (r: Replies)
        ensures
            r.spec_episode() == post.episode,
            r.spec_parent() == post.id,
            r.spec_first() is None,
            r.spec_later().len() == 0,
            r.spec_stage() == (if post.replies == 0 {
                RepliesStage::Done
            } else {
                RepliesStage::Fetch(None)
            }),
    {
        let stage = if post.replies == 0 {
            RepliesStage::Done
        } else {
            RepliesStage::Fetch(None)
        };
        Replies { episode: post.episode, parent: post.id, stage, first: None, later: Vec::new() }
    }

    /// The address of the next page to fetch; `None` once every page has been read.
    pub fn next_url(&self) -> (u: Option<String>)
        ensures
            match self.spec_stage() {
                RepliesStage::Fetch(c) => u matches Some(s) && s@ == replies_url_text(self.spec_parent(), c, REPLIES_PER_PAGE),
                RepliesStage::Done => u is None,
            },
    {
        match self.stage {
            RepliesStage::Fetch(c) => Some(replies_url(&self.parent, c, REPLIES_PER_PAGE)),
            RepliesStage::Done => None,
        }
    }

    /// Takes in the page fetched from [`Replies::next_url`]: its replies are read and kept,
    /// and the walk moves on to the page's next cursor, or is done without one.
    ///
    /// Fails, leaving the walk as it was, when every page has been read or a reply cannot
    /// be read.
    pub fn receive(&mut self, page: RawPostResponse) -> (r: Result<(), Assumption>)
        ensures
            final(self).spec_episode() == old(self).spec_episode(),
            final(self).spec_parent() == old(self).spec_parent(),
            old(self).spec_stage() is Done || !all_readable(page.result.posts@) ==> {
                &&& r is Err
                &&& final(self).spec_stage() == old(self).spec_stage()
                &&& final(self).spec_first() == old(self).spec_first()
                &&& final(self).spec_later() == old(self).spec_later()
            },
            old(self).spec_stage() is Fetch && all_readable(page.result.posts@) ==> {
                let episode = old(self).spec_episode();
                let raws = page.result.posts@;
                &&& r is Ok
                &&& final(self).spec_stage() == (match page.result.pagination.next {
                    Some(c) => RepliesStage::Fetch(Some(c)),
                    None => RepliesStage::Done,
                })
                &&& old(self).spec_first() is None ==> (final(self).spec_first() matches Some(f)
                    && converted(episode, raws, f) && final(self).spec_later() == old(self).spec_later())
                &&& old(self).spec_first() is Some ==> {
                    let before = old(self).spec_later();
                    let after = final(self).spec_later();
                    &&& final(self).spec_first() == old(self).spec_first()
                    &&& after.len() == before.len() + 1
                    &&& after.drop_last() == before
                    &&& converted(episode, raws, after.last()@)
                }
            },
    {
        if let RepliesStage::Done = self.stage {
            return Err(Assumption::new("a finished walk over replies should not be given another page"));
        }
        let next = page.result.pagination.next;
        let posts = posts_of(self.episode, page.result.posts)?;
        if self.first.is_none() {
            self.first = Some(posts);
        } else {
            let ghost before = self.later@;
            self.later.push(posts);
            assert(self.later@.drop_last() =~= before);
        }
        self.stage = match next {
            Some(c) => RepliesStage::Fetch(Some(c)),
            None => RepliesStage::Done,
        };
        Ok(())
    }

    /// The replies read, gathered: once per id, the newest version, in the order they were
    /// posted (see [`gathered_replies`]).
    pub fn finish(self) -> (v: Vec<Post>)
        ensures
            gathered_replies(
                match self.spec_first() {
                    Some(f) => f,
                    None => Seq::empty(),
                },
                later_posts(self.spec_later()),
                v@,
            ),
    {
        let first = match self.first {
            Some(f) => f,
            None => Vec::new(),
        };
        gather_replies(first, self.later)
    }
}

} // verus!

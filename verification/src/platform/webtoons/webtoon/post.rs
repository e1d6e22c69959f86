//! Posts (comments and replies) on an episode, and what they can carry.
pub mod comments;
pub mod id;
pub mod replies;

use crate::platform::webtoons::webtoon::Webtoon;
use crate::stdx::error::Assumption;
use crate::stdx::num::{
    decimal, lemma_decimal_digits, lemma_parse_radix_digits, lemma_parse_zero_padded,
    parse_decimal, parse_u16, radix_chars, zero_padded, zero_padded_chars,
};
use crate::stdx::text::{
    chars_of, extend_chars, has_char, lemma_first_match_is, lemma_split_char_concat,
    lemma_split_char_none, lemma_strip_leading_one, matches_at, split_char, split_chars,
    split_once, split_once_at, starts_with_char, strip_leading, strip_leading_chars,
    string_from_chars,
};
use id::Id;
use vstd::prelude::*;

verus! {

/// The session user's reaction to a post.
#[derive(Debug, Clone, Copy, PartialEq, Eq, Structural)]
pub enum Reaction {
    /// The post was upvoted.
    Upvote,
    /// The post was downvoted.
    Downvote,
    /// No reaction, or no session to react with.
    Nothing,
}

impl Reaction {
    /// The reaction when none is known (`Default`).
    pub fn default() -> (r: Reaction)
        ensures
            r == Reaction::Nothing,
    {
        Reaction::Nothing
    }
}

/// The parts of a sticker id.
pub struct StickerView {
    /// The pack's name, e.g. `wt`.
    pub pack: Seq<char>,
    /// The pack's number, e.g. `1` in `wt_001`.
    pub pack_number: u16,
    /// The pack's version, if the id names one.
    pub version: Option<u16>,
    /// The sticker's number within the pack.
    pub id: u16,
}

/// A sticker attached to a post, e.g. `wt_001-v2-1`.
#[derive(Debug, Clone)]
pub struct Sticker {
    pack: String,
    pack_number: u16,
    version: Option<u16>,
    id: u16,
}

impl View for Sticker {
    type V = StickerView;

    closed spec fn view(&self) -> StickerView {
        StickerView { pack: self.pack@, pack_number: self.pack_number, version: self.version, id: self.id }
    }
}

/// The pack id of a sticker: its pack, `_`, and its pack number in at least three digits.
pub open spec fn pack_id_text(s: StickerView) -> Seq<char> {
    s.pack + "_"@ + zero_padded(s.pack_number as nat, 3)
}

/// The full id of a sticker: its pack id, then `-v{version}` when versioned, then `-{id}`.
pub open spec fn sticker_id_text(s: StickerView) -> Seq<char> {
    match s.version {
        Some(v) => pack_id_text(s) + "-v"@ + decimal(v as nat) + "-"@ + decimal(s.id as nat),
        None => pack_id_text(s) + "-"@ + decimal(s.id as nat),
    }
}

/// `parse::<u16>`, as an option.
pub open spec fn u16_of(s: Seq<char>) -> Option<u16> {
    match parse_decimal(s, u16::MAX as nat) {
        Ok(n) => Some(n as u16),
        Err(_) => None,
    }
}

/// The sticker a sticker id names: `{pack}_{number}-{id}` or `{pack}_{number}-v{version}-{id}`,
/// the pack ending at the first `_`.
pub open spec fn sticker_of(text: Seq<char>) -> Option<StickerView> {
    match split_once(text, "_"@) {
        None => None,
        Some((pack, rest)) => {
            let parts = split_char(rest, '-');
            match u16_of(parts[0]) {
                None => None,
                Some(pack_number) => if parts.len() < 2 {
                    None
                } else if parts[1].len() > 0 && parts[1][0] == 'v' {
                    match (u16_of(strip_leading(parts[1], "v"@)), parts.len() >= 3) {
                        (Some(version), true) => match u16_of(parts[2]) {
                            Some(id) => if parts.len() == 3 {
                                Some(StickerView { pack, pack_number, version: Some(version), id })
                            } else {
                                None
                            },
                            None => None,
                        },
                        _ => None,
                    }
                } else {
                    match u16_of(parts[1]) {
                        Some(id) => if parts.len() == 2 {
                            Some(StickerView { pack, pack_number, version: None, id })
                        } else {
                            None
                        },
                        None => None,
                    }
                },
            }
        },
    }
}

impl Sticker {
    /// The pack id of this sticker, e.g. `wt_001`.
    pub fn pack_id(&self) -> (s: String)
        ensures
            s@ == pack_id_text(self@),
    {
        let mut v = chars_of(self.pack.as_str());
        v.push('_');
        let n = zero_padded_chars(self.pack_number as u64, 3);
        extend_chars(&mut v, &n);
        proof {
            reveal_strlit("_");
            assert(v@ =~= pack_id_text(self@));
        }
        string_from_chars(&v)
    }

    /// The full id of this sticker, e.g. `wt_001-v2-1`, or `wt_001-1` if unversioned.
    pub fn id(&self) -> (s: String)
        ensures
            s@ == sticker_id_text(self@),
    {
        let mut s = self.pack_id();
        match self.version {
            Some(v) => {
                s.append("-v");
                let vs = string_from_chars(&radix_chars(v as u64, 10));
                s.append(vs.as_str());
            },
            None => {},
        }
        s.append("-");
        let is = string_from_chars(&radix_chars(self.id as u64, 10));
        s.append(is.as_str());
        proof {
            reveal_strlit("-v");
            reveal_strlit("-");
        }
        assert(s@ =~= sticker_id_text(self@));
        s
    }

    /// Reads a sticker id, e.g. `wt_001-v2-1` (`FromStr`); see [`sticker_of`].
    pub fn from_str(text: &str) -> (r: Result<Sticker, Assumption>)
        ensures
            match sticker_of(text@) {
                Some(v) => r matches Ok(s) && s@ == v,
                None => r is Err,
            },
    {
        let cs = chars_of(text);
        let mut under: Vec<char> = Vec::new();
        under.push('_');
        assert(under@ =~= "_"@) by {
            reveal_strlit("_");
        }
        let (pack, rest) = match split_once_at(&cs, &under) {
            Some(p) => p,
            None => return Err(Assumption::new("sticker id should contain `_` separating pack name from the rest")),
        };
        let parts = split_chars(&rest, '-');
        let ghost ps = split_char(rest@, '-');
        assert(ps[0] == parts@[0]@);
        let pack_number = match parse_u16(&parts[0]) {
            Ok(n) => n,
            Err(e) => return Err(Assumption::with_cause("sticker pack number should be a valid `u16`", e.text())),
        };
        if parts.len() < 2 {
            return Err(Assumption::new("sticker id should have at least one more part after the pack number"));
        }
        assert(ps[1] == parts@[1]@);
        let (version, id) = if starts_with_char(&parts[1], 'v') {
            let mut v: Vec<char> = Vec::new();
            v.push('v');
            assert(v@ =~= "v"@) by {
                reveal_strlit("v");
            }
            let digits = strip_leading_chars(&parts[1], &v);
            let version = match parse_u16(&digits) {
                Ok(n) => n,
                Err(e) => return Err(Assumption::with_cause("sticker version should be a valid `u16`", e.text())),
            };
            if parts.len() < 3 {
                return Err(Assumption::new("sticker id should have an id part after the version"));
            }
            assert(ps[2] == parts@[2]@);
            let id = match parse_u16(&parts[2]) {
                Ok(n) => n,
                Err(e) => return Err(Assumption::with_cause("sticker id should be a valid `u16`", e.text())),
            };
            if parts.len() != 3 {
                return Err(Assumption::new("all parts of sticker id should have been consumed"));
            }
            (Some(version), id)
        } else {
            let id = match parse_u16(&parts[1]) {
                Ok(n) => n,
                Err(e) => return Err(Assumption::with_cause("sticker id should be a valid `u16`", e.text())),
            };
            if parts.len() != 2 {
                return Err(Assumption::new("all parts of sticker id should have been consumed"));
            }
            (None, id)
        };
        Ok(Sticker { pack: string_from_chars(&pack), pack_number, version, id })
    }
}

proof fn lemma_digits_lack(t: Seq<char>, c: char)
    requires
        forall|i: int| 0 <= i < t.len() ==> '0' <= #[trigger] t[i] && t[i] <= '9',
        !('0' <= c && c <= '9'),
    ensures
        !has_char(t, c),
{
    if has_char(t, c) {
        let i = choose|i: int| 0 <= i < t.len() && t[i] == c;
        assert('0' <= t[i] && t[i] <= '9');
    }
}

/// A sticker's full id reads back as the same sticker, for a pack name without `_` (the
/// pack name ends at the first `_`).
pub proof fn lemma_sticker_roundtrip(s: StickerView)
    requires
        !has_char(s.pack, '_'),
    ensures
        sticker_of(sticker_id_text(s)) == Some(s),
{
    reveal_strlit("_");
    reveal_strlit("-v");
    reveal_strlit("-");
    reveal_strlit("v");
    let max = u16::MAX as nat;
    let p = zero_padded(s.pack_number as nat, 3);
    lemma_parse_zero_padded(s.pack_number as nat, 3, max);
    lemma_digits_lack(p, '-');
    let di = decimal(s.id as nat);
    lemma_decimal_digits(s.id as nat);
    lemma_parse_radix_digits(s.id as nat, 10, max);
    lemma_digits_lack(di, '-');
    lemma_split_char_none(di, '-');
    let text = sticker_id_text(s);
    let rest = match s.version {
        Some(v) => p + seq!['-'] + (seq!['v'] + decimal(v as nat)) + seq!['-'] + di,
        None => p + seq!['-'] + di,
    };
    assert(text =~= s.pack + seq!['_'] + rest);
    let k = s.pack.len() as int;
    assert("_"@ =~= seq!['_']);
    assert(matches_at(text, "_"@, k)) by {
        assert(text.subrange(k, k + 1) =~= seq!['_']);
    }
    assert forall|j: int| 0 <= j < k implies !matches_at(text, "_"@, j) by {
        assert(text[j] == s.pack[j]);
        if matches_at(text, "_"@, j) {
            assert(text.subrange(j, j + 1)[0] == text[j]);
        }
    }
    lemma_first_match_is(text, "_"@, k);
    assert(text.take(k) =~= s.pack);
    assert(text.skip(k + 1) =~= rest);
    assert(split_once(text, "_"@) == Some((s.pack, rest)));
    match s.version {
        Some(v) => {
            let dv = decimal(v as nat);
            lemma_decimal_digits(v as nat);
            lemma_parse_radix_digits(v as nat, 10, max);
            lemma_digits_lack(dv, '-');
            let vdv = seq!['v'] + dv;
            assert(!has_char(vdv, '-')) by {
                if has_char(vdv, '-') {
                    let i = choose|i: int| 0 <= i < vdv.len() && vdv[i] == '-';
                    if i > 0 {
                        assert(vdv[i] == dv[i - 1]);
                    }
                }
            }
            lemma_split_char_concat(vdv, '-', di);
            assert(rest =~= p + seq!['-'] + (vdv + seq!['-'] + di));
            lemma_split_char_concat(p, '-', vdv + seq!['-'] + di);
            let parts = split_char(rest, '-');
            assert(parts =~= seq![p, vdv, di]);
            assert(dv[0] != 'v');
            lemma_strip_leading_one('v', dv);
            assert(strip_leading(vdv, "v"@) == dv) by {
                assert("v"@ =~= seq!['v']);
            }
        },
        None => {
            lemma_split_char_concat(p, '-', di);
            let parts = split_char(rest, '-');
            assert(parts =~= seq![p, di]);
            assert(di[0] != 'v');
        },
    }
}

/// A GIPHY GIF attached to a post.
#[derive(Debug, Clone)]
pub struct Giphy {
    id: String,
}

impl View for Giphy {
    type V = Seq<char>;

    closed spec fn view(&self) -> Seq<char> {
        self.id@
    }
}

impl Giphy {
    /// A GIF with the GIPHY id `id`.
    pub fn new(id: String) -> (g: Giphy)
        ensures
            g@ == id@,
    {
        Giphy { id }
    }

    /// The GIPHY id.
    pub fn id(&self) -> (s: &str)
        ensures
            s@ == self@,
    {
        self.id.as_str()
    }

    /// A thumbnail-quality address of this GIF.
    pub fn thumbnail(&self) -> (s: String)
        ensures
            s@ == "https://media2.giphy.com/media/"@ + self@ + "/giphy_s.gif"@,
    {
        let mut s = "https://media2.giphy.com/media/".to_owned();
        s.append(self.id.as_str());
        s.append("/giphy_s.gif");
        s
    }

    /// A full-quality address of this GIF.
    pub fn render(&self) -> (s: String)
        ensures
            s@ == "https://media1.giphy.com/media/"@ + self@ + "/giphy.gif"@,
    {
        let mut s = "https://media1.giphy.com/media/".to_owned();
        s.append(self.id.as_str());
        s.append("/giphy.gif");
        s
    }
}

/// Extra media attached to a post: a GIF, a sticker, or a list of webtoons.
#[derive(Debug, Clone)]
pub enum Flare {
    /// A GIF.
    Giphy(Giphy),
    /// A list of webtoons.
    Webtoons(Vec<Webtoon>),
    /// A sticker.
    Sticker(Sticker),
}

/// The text of a post, its spoiler flag, and its optional flare.
#[derive(Debug, Clone)]
pub struct Body {
    /// The text.
    pub contents: String,
    /// Whether it is marked as a spoiler.
    pub is_spoiler: bool,
    /// What is attached to it.
    pub flare: Option<Flare>,
}

impl Body {
    /// The text of the post.
    pub fn contents(&self) -> (s: &str)
        ensures
            s@ == self.contents@,
    {
        self.contents.as_str()
    }

    /// What is attached to the post: webtoons, a sticker, or a GIF.
    pub fn flare(&self) -> (f: Option<&Flare>)
        ensures
            match f {
                Some(x) => self.flare == Some(*x),
                None => self.flare is None,
            },
    {
        match &self.flare {
            Some(x) => Some(x),
            None => None,
        }
    }

    /// Whether the post is marked as a spoiler.
    pub fn is_spoiler(&self) -> (b: bool)
        ensures
            b == self.is_spoiler,
    {
        self.is_spoiler
    }
}

/// The author of a post, as the post shows them.
#[derive(Debug, Clone)]
pub struct Poster {
    /// The episode the post is on.
    pub episode: u16,
    /// The post this is the author of.
    pub post_id: Id,
    /// The author's account id.
    pub cuid: String,
    /// The author's profile segment.
    pub profile: String,
    /// The author's username.
    pub username: String,
    /// Whether the author is a creator on the platform.
    pub is_creator: bool,
    /// Whether the author is blocked from writing posts.
    pub is_blocked: bool,
    /// Whether the author is the session's user.
    pub is_current_session_user: bool,
    /// Whether the author created the webtoon the post is on.
    pub is_current_webtoon_creator: bool,
    /// The session user's reaction to the post.
    pub reaction: Reaction,
    /// The super likes the author gave the episode, if any.
    pub super_like: Option<u32>,
}

impl Poster {
    /// The author's account id.
    pub fn cuid(&self) -> (s: &str)
        ensures
            s@ == self.cuid@,
    {
        self.cuid.as_str()
    }

    /// The author's profile segment.
    pub fn profile(&self) -> (s: &str)
        ensures
            s@ == self.profile@,
    {
        self.profile.as_str()
    }

    /// The author's username.
    pub fn username(&self) -> (s: &str)
        ensures
            s@ == self.username@,
    {
        self.username.as_str()
    }

    /// Whether the session's user reacted to the post.
    pub fn reacted(&self) -> (b: bool)
        ensures
            b == (self.reaction is Upvote || self.reaction is Downvote),
    {
        match self.reaction {
            Reaction::Upvote | Reaction::Downvote => true,
            Reaction::Nothing => false,
        }
    }

    /// Whether the author is the session's user.
    pub fn is_current_session_user(&self) -> (b: bool)
        ensures
            b == self.is_current_session_user,
    {
        self.is_current_session_user
    }

    /// Whether the author is a creator on the platform.
    pub fn is_creator(&self) -> (b: bool)
        ensures
            b == self.is_creator,
    {
        self.is_creator
    }

    /// Whether the author created the webtoon the post is on.
    pub fn is_current_webtoon_creator(&self) -> (b: bool)
        ensures
            b == self.is_current_webtoon_creator,
    {
        self.is_current_webtoon_creator
    }

    /// Whether the author super liked the episode.
    pub fn did_super_like_episode(&self) -> (b: bool)
        ensures
            b == self.super_like is Some,
    {
        self.super_like.is_some()
    }

    /// The super likes the author gave the episode, if any.
    pub fn super_like(&self) -> (n: Option<u32>)
        ensures
            n == self.super_like,
    {
        self.super_like
    }
}

/// A post on an episode: a top-level comment or a reply.
#[derive(Debug, Clone)]
pub struct Post {
    /// The episode it is on.
    pub episode: u16,
    /// Its id.
    pub id: Id,
    /// The id of the comment it replies to; its own id for a comment.
    pub parent_id: Id,
    /// Its text and flare.
    pub body: Body,
    /// How many upvoted it.
    pub upvotes: u32,
    /// How many downvoted it.
    pub downvotes: u32,
    /// How many replies it has.
    pub replies: u32,
    /// Whether it is pinned to the top.
    pub is_top: bool,
    /// Whether it was deleted.
    pub is_deleted: bool,
    /// When it was posted, in milliseconds since the epoch.
    pub posted: i64,
    /// Its author.
    pub poster: Poster,
}

impl Post {
    /// The author.
    pub fn poster(&self) -> (p: &Poster)
        ensures
            *p == self.poster,
    {
        &self.poster
    }

    /// The id.
    pub fn id(&self) -> (i: Id)
        ensures
            i == self.id,
    {
        self.id
    }

    /// The id of the comment it replies to.
    pub fn parent_id(&self) -> (i: Id)
        ensures
            i == self.parent_id,
    {
        self.parent_id
    }

    /// The text and flare.
    pub fn body(&self) -> (b: &Body)
        ensures
            *b == self.body,
    {
        &self.body
    }

    /// How many upvoted it.
    pub fn upvotes(&self) -> (n: u32)
        ensures
            n == self.upvotes,
    {
        self.upvotes
    }

    /// How many downvoted it.
    pub fn downvotes(&self) -> (n: u32)
        ensures
            n == self.downvotes,
    {
        self.downvotes
    }

    /// The upvotes and downvotes together.
    pub fn upvotes_and_downvotes(&self) -> (n: (u32, u32))
        ensures
            n == (self.upvotes, self.downvotes),
    {
        (self.upvotes, self.downvotes)
    }

    /// How many replies it has.
    pub fn reply_count(&self) -> (n: u32)
        ensures
            n == self.replies,
    {
        self.replies
    }

    /// Whether it is pinned to the top.
    pub fn is_top(&self) -> (b: bool)
        ensures
            b == self.is_top,
    {
        self.is_top
    }

    /// Whether it was deleted.
    pub fn is_deleted(&self) -> (b: bool)
        ensures
            b == self.is_deleted,
    {
        self.is_deleted
    }

    /// The number of the episode it is on.
    pub fn episode(&self) -> (n: u16)
        ensures
            n == self.episode,
    {
        self.episode
    }

    /// When it was posted, in milliseconds since the epoch.
    pub fn posted(&self) -> (t: i64)
        ensures
            t == self.posted,
    {
        self.posted
    }
}

} // verus!

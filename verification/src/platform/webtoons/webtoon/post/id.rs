//! The post id format on `webtoons.com`: `GW-epicom:0-w_95_1-1d-z`.
//!
//! `GW-epicom` is a namespace, `0` an unknown tag, `w`/`c` marks an Original or a Canvas
//! webtoon, `95` is the webtoon id, `1` the episode, `1d` the post's position in base 36,
//! and an optional trailing part the reply's position in base 36.
use crate::stdx::base36::Base36;
use crate::stdx::error::Assumption;
use crate::stdx::num::{
    decimal, is_alnum_lower, lemma_parse_radix_digits, lemma_radix_digits_alnum, parse_decimal,
    parse_u16, parse_u32, parse_uint, radix_chars, radix_digits,
};
use crate::stdx::text::{
    chars_of, extend_chars, has_char, lemma_first_match_at_start, lemma_split_char_concat,
    lemma_split_char_none, lemma_strip_leading_one, split_char, split_chars, split_once,
    split_once_at, strip_leading, strip_leading_chars, string_from_chars,
};
use std::cmp::Ordering;
use vstd::prelude::*;

verus! {

/// Whether a post is on an Original (`w`) or a Canvas (`c`) webtoon.
#[derive(Debug, Clone, Copy, PartialEq, Eq, Structural, Hash)]
pub enum Scope {
    /// An Original webtoon.
    W,
    /// A Canvas webtoon.
    C,
}

/// The letter a scope is written as.
pub open spec fn scope_letter(s: Scope) -> char {
    match s {
        Scope::W => 'w',
        Scope::C => 'c',
    }
}

/// The parts of a post id as numbers.
pub struct IdView {
    /// The unknown leading tag.
    pub tag: nat,
    /// Original or Canvas.
    pub scope: Scope,
    /// The webtoon id.
    pub webtoon: nat,
    /// The episode number.
    pub episode: nat,
    /// The post's position.
    pub post: nat,
    /// The reply's position, for a reply.
    pub reply: Option<nat>,
}

/// A unique identifier for a post or reply on a webtoon episode.
///
/// Ids with lower post/reply values were posted earlier.
#[derive(Debug, Clone, Copy, PartialEq, Eq, Structural, Hash)]
pub struct Id {
    tag: u32,
    scope: Scope,
    webtoon: u32,
    episode: u16,
    post: Base36,
    reply: Option<Base36>,
}

impl View for Id {
    type V = IdView;

    closed spec fn view(&self) -> IdView {
        IdView {
            tag: self.tag as nat,
            scope: self.scope,
            webtoon: self.webtoon as nat,
            episode: self.episode as nat,
            post: self.post@,
            reply: match self.reply {
                Some(r) => Some(r@),
                None => None,
            },
        }
    }
}

/// `true` if every part of `v` fits the type an [`Id`] stores it in.
pub open spec fn fits(v: IdView) -> bool {
    &&& v.tag <= u32::MAX
    &&& v.webtoon <= u32::MAX
    &&& v.episode <= u16::MAX
    &&& v.post <= u32::MAX
    &&& v.reply matches Some(r) ==> r <= u32::MAX
}

/// The page part of a post id: `w_95_1`.
pub open spec fn page_text(v: IdView) -> Seq<char> {
    seq![scope_letter(v.scope), '_'] + decimal(v.webtoon) + seq!['_'] + decimal(v.episode)
}

/// The positions part of a post id: the post, then `-` and the reply for a reply.
pub open spec fn tail_text(v: IdView) -> Seq<char> {
    match v.reply {
        Some(r) => radix_digits(v.post, 36) + seq!['-'] + radix_digits(r, 36),
        None => radix_digits(v.post, 36),
    }
}

/// A post id without its namespace: `0-w_95_1-1d-z`.
pub open spec fn body_text(v: IdView) -> Seq<char> {
    decimal(v.tag) + seq!['-'] + page_text(v) + seq!['-'] + tail_text(v)
}

/// The text of a post id, as `webtoons.com` writes it: `GW-epicom:0-w_95_1-1d-z`.
pub open spec fn id_text(v: IdView) -> Seq<char> {
    "GW-epicom"@ + seq![':'] + body_text(v)
}

/// The scope a page-id letter names.
pub open spec fn scope_of_letter(s: Seq<char>) -> Option<Scope> {
    if s == seq!['w'] {
        Some(Scope::W)
    } else if s == seq!['c'] {
        Some(Scope::C)
    } else {
        None
    }
}

/// The id that the part after `GW-epicom` and its colons spells: `tag-page-post[-reply...]`,
/// where the page is `scope_webtoon_episode`; a reply is the last part after the post, and
/// every part after the post must be base 36.
pub open spec fn parse_id_body(id: Seq<char>) -> Option<IdView> {
    let parts = split_char(id, '-');
    if parts.len() < 3 {
        None
    } else {
        let page = split_char(parts[1], '_');
        if page.len() == 3 && scope_of_letter(page[0]) is Some && parse_decimal(
            parts[0],
            u32::MAX as nat,
        ) is Ok && parse_decimal(page[1], u32::MAX as nat) is Ok && parse_decimal(
            page[2],
            u16::MAX as nat,
        ) is Ok && parse_uint(parts[2], 36, u32::MAX as nat) is Ok && (forall|k: int|
            3 <= k < parts.len() ==> #[trigger] parse_uint(parts[k], 36, u32::MAX as nat) is Ok) {
            Some(
                IdView {
                    tag: parse_decimal(parts[0], u32::MAX as nat)->Ok_0,
                    scope: scope_of_letter(page[0])->0,
                    webtoon: parse_decimal(page[1], u32::MAX as nat)->Ok_0,
                    episode: parse_decimal(page[2], u16::MAX as nat)->Ok_0,
                    post: parse_uint(parts[2], 36, u32::MAX as nat)->Ok_0,
                    reply: if parts.len() > 3 {
                        Some(parse_uint(parts.last(), 36, u32::MAX as nat)->Ok_0)
                    } else {
                        None
                    },
                },
            )
        } else {
            None
        }
    }
}

/// The id a text spells: anything up to the first `GW-epicom` is skipped, then leading
/// colons, then the id body follows.
pub open spec fn parse_id(s: Seq<char>) -> Option<IdView> {
    match split_once(s, "GW-epicom"@) {
        None => None,
        Some((_, rest)) => if rest.len() == 0 {
            None
        } else {
            parse_id_body(strip_leading(rest, seq![':']))
        },
    }
}

/// `true` if two ids are on the same webtoon's same episode, the only ones that compare.
pub open spec fn same_episode(a: IdView, b: IdView) -> bool {
    a.scope == b.scope && a.webtoon == b.webtoon && a.episode == b.episode
}

/// How two ids on the same episode order: by post, then a post before its replies, then
/// replies by their position.
pub open spec fn id_order(a: IdView, b: IdView) -> Ordering {
    if a.post < b.post {
        Ordering::Less
    } else if a.post > b.post {
        Ordering::Greater
    } else {
        match (a.reply, b.reply) {
            (Some(x), Some(y)) => if x < y {
                Ordering::Less
            } else if x > y {
                Ordering::Greater
            } else {
                Ordering::Equal
            },
            (None, Some(_)) => Ordering::Less,
            (Some(_), None) => Ordering::Greater,
            (None, None) => Ordering::Equal,
        }
    }
}

impl PartialOrd for Id {
    fn partial_cmp(&self, other: &Id) -> (o: Option<Ordering>) {
        self.order_on_episode(other)
    }
}

impl vstd::std_specs::cmp::PartialOrdSpecImpl for Id {
    open spec fn obeys_partial_cmp_spec() -> bool {
        true
    }

    open spec fn partial_cmp_spec(&self, other: &Id) -> Option<Ordering> {
        if same_episode(self@, other@) {
            Some(id_order(self@, other@))
        } else {
            None
        }
    }
}

impl<'a> PartialEq<&'a str> for Id {
    fn eq(&self, other: &&'a str) -> (b: bool) {
        self.eq_str(other)
    }
}

impl<'a> vstd::std_specs::cmp::PartialEqSpecImpl<&'a str> for Id {
    open spec fn obeys_eq_spec() -> bool {
        true
    }

    open spec fn eq_spec(&self, other: &&'a str) -> bool {
        parse_id(other@) == Some(self@)
    }
}

impl<'a> PartialOrd<&'a str> for Id {
    fn partial_cmp(&self, other: &&'a str) -> (o: Option<Ordering>) {
        self.partial_cmp_str(other)
    }
}

impl<'a> vstd::std_specs::cmp::PartialOrdSpecImpl<&'a str> for Id {
    open spec fn obeys_partial_cmp_spec() -> bool {
        true
    }

    open spec fn partial_cmp_spec(&self, other: &&'a str) -> Option<Ordering> {
        match parse_id(other@) {
            Some(v) => if same_episode(self@, v) {
                Some(id_order(self@, v))
            } else {
                None
            },
            None => None,
        }
    }
}

fn internal(msg: &str) -> (a: Assumption)
    ensures
        a.spec_message() == msg@,
{
    Assumption::new(msg)
}

impl Id {
    /// Builds an id from its parts.
    pub fn new(tag: u32, scope: Scope, webtoon: u32, episode: u16, post: Base36, reply: Option<Base36>) -> (id: Id)
        ensures
            id@ == (IdView {
                tag: tag as nat,
                scope,
                webtoon: webtoon as nat,
                episode: episode as nat,
                post: post@,
                reply: match reply {
                    Some(r) => Some(r@),
                    None => None,
                },
            }),
    {
        Id { tag, scope, webtoon, episode, post, reply }
    }

    /// Every id's parts fit their types.
    pub proof fn lemma_fits(&self)
        ensures
            fits(self@),
    {
        self.post.lemma_fits();
        if let Some(r) = self.reply {
            r.lemma_fits();
        }
    }

    /// The unknown leading tag.
    pub fn tag(&self) -> (t: u32)
        ensures
            t as nat == self@.tag,
    {
        self.tag
    }

    /// Original (`w`) or Canvas (`c`).
    pub fn scope(&self) -> (s: Scope)
        ensures
            s == self@.scope,
    {
        self.scope
    }

    /// The webtoon id.
    pub fn webtoon(&self) -> (w: u32)
        ensures
            w as nat == self@.webtoon,
    {
        self.webtoon
    }

    /// The episode number.
    pub fn episode(&self) -> (e: u16)
        ensures
            e as nat == self@.episode,
    {
        self.episode
    }

    /// The post's position.
    pub fn post(&self) -> (p: Base36)
        ensures
            p@ == self@.post,
    {
        self.post
    }

    /// The reply's position, for a reply.
    pub fn reply(&self) -> (r: Option<Base36>)
        ensures
            r is None <==> self@.reply is None,
            r matches Some(x) ==> self@.reply == Some(x@),
    {
        self.reply
    }

    /// Parses a post id; text before `GW-epicom` is skipped.
    pub fn from_str(s: &str) -> (r: Result<Id, Assumption>)
        ensures
            match parse_id(s@) {
                Some(v) => r matches Ok(id) && id@ == v,
                None => r is Err,
            },
    {
        let cs = chars_of(s);
        let pat = chars_of("GW-epicom");
        let rest = match split_once_at(&cs, &pat) {
            Some((_, rest)) => rest,
            None => return Err(internal("`GW-epicom` should always be part of a posts' id")),
        };
        if rest.len() == 0 {
            return Err(internal("splitting on `GW-epicom` should yield a suffix that is never empty"));
        }
        let mut colon: Vec<char> = Vec::new();
        colon.push(':');
        assert(colon@ =~= seq![':']);
        let body = strip_leading_chars(&rest, &colon);
        Self::from_body(&body)
    }

    /// `TryFrom<String>`: parses a post id.
    pub fn try_from_string(value: String) -> (r: Result<Id, Assumption>)
        ensures
            match parse_id(value@) {
                Some(v) => r matches Ok(id) && id@ == v,
                None => r is Err,
            },
    {
        Self::from_str(value.as_str())
    }

    fn from_body(id: &[char]) -> (r: Result<Id, Assumption>)
        ensures
            match parse_id_body(id@) {
                Some(v) => r matches Ok(x) && x@ == v,
                None => r is Err,
            },
    {
        let parts = split_chars(id, '-');
        let ghost ps = split_char(id@, '-');
        assert(forall|i: int| 0 <= i < parts.len() ==> #[trigger] parts@[i]@ == ps[i]);
        if parts.len() < 3 {
            return Err(internal("post id should have a tag, page id and post part"));
        }
        let tag = match parse_u32(&parts[0]) {
            Ok(t) => t,
            Err(_) => return Err(internal("post id tag should be a `u32`")),
        };
        let page = split_chars(&parts[1], '_');
        let ghost pg = split_char(parts@[1]@, '_');
        assert(forall|i: int| 0 <= i < page.len() ==> #[trigger] page@[i]@ == pg[i]);
        if page.len() != 3 {
            return Err(internal("page id should consist of 3 parts"));
        }
        let scope = if page[0].len() == 1 && page[0][0] == 'w' {
            assert(page@[0]@ =~= seq!['w']);
            Scope::W
        } else if page[0].len() == 1 && page[0][0] == 'c' {
            assert(page@[0]@ =~= seq!['c']);
            Scope::C
        } else {
            assert(scope_of_letter(pg[0]) is None) by {
                if pg[0] == seq!['w'] {
                    assert(pg[0][0] == 'w');
                }
                if pg[0] == seq!['c'] {
                    assert(pg[0][0] == 'c');
                }
            }
            return Err(internal("page id scope should be `w` or `c`"));
        };
        let webtoon = match parse_u32(&page[1]) {
            Ok(w) => w,
            Err(_) => return Err(internal("page id webtoon should be a `u32`")),
        };
        let episode = match parse_u16(&page[2]) {
            Ok(e) => e,
            Err(_) => return Err(internal("page id episode should be a `u16`")),
        };
        let post = match Base36::from_chars(&parts[2]) {
            Ok(p) => p,
            Err(_) => return Err(internal("Id post number should be in base36")),
        };
        let mut reply: Option<Base36> = None;
        let mut k: usize = 3;
        while k < parts.len()
            invariant
                3 <= k <= parts.len(),
                ps == split_char(id@, '-'),
                parts.len() == ps.len(),
                forall|i: int| 0 <= i < parts.len() ==> #[trigger] parts@[i]@ == ps[i],
                forall|j: int| 3 <= j < k ==> #[trigger] parse_uint(ps[j], 36, u32::MAX as nat) is Ok,
                k == 3 ==> reply is None,
                k > 3 ==> (reply matches Some(x) && parse_uint(ps[k - 1], 36, u32::MAX as nat) == Ok::<nat, crate::stdx::num::IntErrorKind>(x@)),
            decreases parts.len() - k,
        {
            match Base36::from_chars(&parts[k]) {
                Ok(x) => {
                    reply = Some(x);
                },
                Err(_) => {
                    assert(!(parse_uint(ps[k as int], 36, u32::MAX as nat) is Ok));
                    return Err(internal("Id reply number should be in base36"));
                },
            }
            k += 1;
        }
        Ok(Id { tag, scope, webtoon, episode, post, reply })
    }

    /// The characters of this id as `webtoons.com` writes it.
    pub fn to_chars(&self) -> (v: Vec<char>)
        ensures
            v@ == id_text(self@),
    {
        let mut v = chars_of("GW-epicom");
        v.push(':');
        let t = radix_chars(self.tag as u64, 10);
        extend_chars(&mut v, &t);
        v.push('-');
        v.push(
            match self.scope {
                Scope::W => 'w',
                Scope::C => 'c',
            },
        );
        v.push('_');
        let w = radix_chars(self.webtoon as u64, 10);
        extend_chars(&mut v, &w);
        v.push('_');
        let e = radix_chars(self.episode as u64, 10);
        extend_chars(&mut v, &e);
        v.push('-');
        let p = self.post.to_chars();
        extend_chars(&mut v, &p);
        let ghost base = v@;
        let ghost head = "GW-epicom"@ + seq![':'] + decimal(self@.tag) + seq!['-'] + page_text(self@) + seq!['-'];
        assert(base =~= head + radix_digits(self@.post, 36));
        match self.reply {
            Some(r) => {
                v.push('-');
                let rc = r.to_chars();
                extend_chars(&mut v, &rc);
                assert(v@ =~= head + tail_text(self@));
            },
            None => {
                assert(v@ =~= head + tail_text(self@));
            },
        }
        assert(id_text(self@) =~= head + tail_text(self@));
        v
    }

    /// This id as `webtoons.com` writes it (its `Display`).
    pub fn to_string(&self) -> (s: String)
        ensures
            s@ == id_text(self@),
    {
        let v = self.to_chars();
        string_from_chars(&v)
    }

    /// The order of two posts on the same episode.
    pub fn cmp(&self, other: &Id) -> (o: Ordering)
        ensures
            o == id_order(self@, other@),
    {
        if self.post.value() < other.post.value() {
            Ordering::Less
        } else if self.post.value() > other.post.value() {
            Ordering::Greater
        } else {
            match (self.reply, other.reply) {
                (Some(x), Some(y)) => if x.value() < y.value() {
                    Ordering::Less
                } else if x.value() > y.value() {
                    Ordering::Greater
                } else {
                    Ordering::Equal
                },
                (None, Some(_)) => Ordering::Less,
                (Some(_), None) => Ordering::Greater,
                (None, None) => Ordering::Equal,
            }
        }
    }

    /// The order of two posts, or `None` if they are not on the same webtoon's same episode.
    pub fn order_on_episode(&self, other: &Id) -> (o: Option<Ordering>)
        ensures
            o == if same_episode(self@, other@) {
                Some(id_order(self@, other@))
            } else {
                None
            },
    {
        if self.scope != other.scope || self.webtoon != other.webtoon || self.episode != other.episode {
            return None;
        }
        Some(self.cmp(other))
    }

    /// Compares with the id a text spells; `None` if it spells none or one on another episode.
    pub fn partial_cmp_str(&self, other: &str) -> (o: Option<Ordering>)
        ensures
            o == match parse_id(other@) {
                Some(v) => if same_episode(self@, v) {
                    Some(id_order(self@, v))
                } else {
                    None
                },
                None => None,
            },
    {
        match Id::from_str(other) {
            Ok(id) => self.order_on_episode(&id),
            Err(_) => None,
        }
    }

    /// `true` if `other` spells this very id.
    pub fn eq_str(&self, other: &str) -> (b: bool)
        ensures
            b == (parse_id(other@) == Some(self@)),
    {
        match Id::from_str(other) {
            Ok(id) => {
                proof {
                    if id@ == self@ {
                        lemma_view_injective(id, *self);
                    }
                }
                id == *self
            },
            Err(_) => false,
        }
    }
}

proof fn lemma_view_injective(a: Id, b: Id)
    requires
        a@ == b@,
    ensures
        a == b,
{
    a.post.lemma_fits();
    b.post.lemma_fits();
    assert(a.post == b.post) by {
        crate::stdx::base36::lemma_base36_view_injective(a.post, b.post);
    }
    match (a.reply, b.reply) {
        (Some(x), Some(y)) => crate::stdx::base36::lemma_base36_view_injective(x, y),
        _ => {},
    }
}

proof fn lemma_digits_lack(n: nat, radix: nat, c: char)
    requires
        2 <= radix <= 36,
        !is_alnum_lower(c),
    ensures
        !has_char(radix_digits(n, radix), c),
        radix_digits(n, radix).len() >= 1,
        radix_digits(n, radix)[0] != c,
{
    lemma_radix_digits_alnum(n, radix);
}

proof fn lemma_lack_concat(a: Seq<char>, b: Seq<char>, c: char)
    requires
        !has_char(a, c),
        !has_char(b, c),
    ensures
        !has_char(a + b, c),
{
    if has_char(a + b, c) {
        let i = choose|i: int| 0 <= i < (a + b).len() && (a + b)[i] == c;
        if i < a.len() {
            assert(a[i] == c);
        } else {
            assert(b[i - a.len()] == c);
        }
    }
}

proof fn lemma_lack_single(x: char, c: char)
    requires
        x != c,
    ensures
        !has_char(seq![x], c),
{
}

proof fn lemma_page_text(v: IdView)
    requires
        fits(v),
    ensures
        split_char(page_text(v), '_') == seq![seq![scope_letter(v.scope)], decimal(v.webtoon), decimal(v.episode)],
        !has_char(page_text(v), '-'),
{
    let letter = scope_letter(v.scope);
    let dw = decimal(v.webtoon);
    let de = decimal(v.episode);
    lemma_digits_lack(v.webtoon, 10, '-');
    lemma_digits_lack(v.webtoon, 10, '_');
    lemma_digits_lack(v.episode, 10, '-');
    lemma_digits_lack(v.episode, 10, '_');
    lemma_split_char_concat(dw, '_', de);
    lemma_split_char_none(de, '_');
    lemma_lack_single(letter, '_');
    lemma_split_char_concat(seq![letter], '_', dw + seq!['_'] + de);
    assert(page_text(v) =~= seq![letter] + seq!['_'] + (dw + seq!['_'] + de));
    assert(split_char(page_text(v), '_') =~= seq![seq![letter], dw, de]);
    lemma_lack_single(letter, '-');
    lemma_lack_single('_', '-');
    lemma_lack_concat(seq![letter], seq!['_'], '-');
    lemma_lack_concat(dw, seq!['_'], '-');
    lemma_lack_concat(dw + seq!['_'], de, '-');
    lemma_lack_concat(seq![letter] + seq!['_'], dw + seq!['_'] + de, '-');
}

/// The pieces the positions part splits into at `-`.
pub open spec fn tail_parts(v: IdView) -> Seq<Seq<char>> {
    match v.reply {
        Some(r) => seq![radix_digits(v.post, 36), radix_digits(r, 36)],
        None => seq![radix_digits(v.post, 36)],
    }
}

proof fn lemma_tail_text(v: IdView)
    requires
        fits(v),
    ensures
        split_char(tail_text(v), '-') == tail_parts(v),
{
    let pp = radix_digits(v.post, 36);
    lemma_digits_lack(v.post, 36, '-');
    match v.reply {
        Some(r) => {
            lemma_digits_lack(r, 36, '-');
            lemma_split_char_concat(pp, '-', radix_digits(r, 36));
            lemma_split_char_none(radix_digits(r, 36), '-');
            assert(split_char(tail_text(v), '-') =~= tail_parts(v));
        },
        None => {
            lemma_split_char_none(pp, '-');
        },
    }
}

proof fn lemma_body_text(v: IdView)
    requires
        fits(v),
    ensures
        parse_id_body(body_text(v)) == Some(v),
        body_text(v).len() > 0,
        body_text(v)[0] != ':',
{
    let dt = decimal(v.tag);
    let page = page_text(v);
    let tail = tail_text(v);
    lemma_digits_lack(v.tag, 10, '-');
    lemma_digits_lack(v.tag, 10, ':');
    lemma_page_text(v);
    lemma_tail_text(v);
    lemma_split_char_concat(page, '-', tail);
    lemma_split_char_concat(dt, '-', page + seq!['-'] + tail);
    assert(body_text(v) =~= dt + seq!['-'] + (page + seq!['-'] + tail));
    let parts = split_char(body_text(v), '-');
    assert(parts =~= seq![dt, page] + tail_parts(v));
    lemma_parse_radix_digits(v.tag, 10, u32::MAX as nat);
    lemma_parse_radix_digits(v.webtoon, 10, u32::MAX as nat);
    lemma_parse_radix_digits(v.episode, 10, u16::MAX as nat);
    lemma_parse_radix_digits(v.post, 36, u32::MAX as nat);
    let pg = split_char(parts[1], '_');
    assert(pg[0] =~= seq![scope_letter(v.scope)]);
    match v.scope {
        Scope::W => {},
        Scope::C => {
            assert(seq!['c'][0] != seq!['w'][0]);
        },
    }
    assert(scope_of_letter(pg[0]) == Some(v.scope));
    assert forall|k: int| 3 <= k < parts.len() implies #[trigger] parse_uint(parts[k], 36, u32::MAX as nat) is Ok by {
        if let Some(r) = v.reply {
            lemma_parse_radix_digits(r, 36, u32::MAX as nat);
            assert(parts[k] == radix_digits(r, 36));
        }
    }
    if let Some(r) = v.reply {
        lemma_parse_radix_digits(r, 36, u32::MAX as nat);
        assert(parts.last() == radix_digits(r, 36));
    }
    assert(body_text(v)[0] == dt[0]);
}

/// Formatting an id and parsing the text gives the same id back.
pub proof fn lemma_id_text_roundtrip(v: IdView)
    requires
        fits(v),
    ensures
        parse_id(id_text(v)) == Some(v),
{
    reveal_strlit("GW-epicom");
    let g = "GW-epicom"@;
    assert(g.len() == 9);
    lemma_body_text(v);
    let body = body_text(v);
    let s = id_text(v);
    assert(s =~= g + (seq![':'] + body));
    assert(s.take(9) =~= g);
    lemma_first_match_at_start(s, g);
    assert(s.skip(9) =~= seq![':'] + body);
    lemma_strip_leading_one(':', body);
}

/// Ids compare as a total order: the order of two ids is the reverse of the order the other
/// way round, and ids compare equal exactly when their post and reply positions agree.
pub proof fn lemma_id_order_antisymmetric(a: IdView, b: IdView)
    ensures
        id_order(a, b) == Ordering::Less <==> id_order(b, a) == Ordering::Greater,
        id_order(a, b) == Ordering::Equal <==> (a.post == b.post && a.reply == b.reply),
{
}

/// The order of ids is transitive.
pub proof fn lemma_id_order_transitive(a: IdView, b: IdView, c: IdView)
    requires
        id_order(a, b) == Ordering::Less,
        id_order(b, c) == Ordering::Less,
    ensures
        id_order(a, c) == Ordering::Less,
{
}

/// A post comes before every reply to it, and replies come in the order they were posted.
pub proof fn lemma_post_before_replies(a: IdView, b: IdView)
    requires
        a.post == b.post,
        a.reply is None,
        b.reply is Some,
    ensures
        id_order(a, b) == Ordering::Less,
{
}

} // verus!

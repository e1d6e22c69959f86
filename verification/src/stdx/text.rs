//! Character-level text helpers with specifications over `Seq<char>`.
//!
//! Every operation here works on the characters of a string (its view), the
//! same unit the standard library's `str` methods use for matching.
use vstd::prelude::*;

verus! {

// ---------------------------------------------------------------------------
// Specifications
// ---------------------------------------------------------------------------

/// The Unicode `White_Space` property, which `char::is_whitespace`, `str::trim`
/// and `str::split_whitespace` go by.
pub open spec fn is_ws(c: char) -> bool {
    ||| ('\u{9}' <= c && c <= '\u{d}')
    ||| c == ' '
    ||| c == '\u{85}'
    ||| c == '\u{a0}'
    ||| c == '\u{1680}'
    ||| ('\u{2000}' <= c && c <= '\u{200a}')
    ||| c == '\u{2028}'
    ||| c == '\u{2029}'
    ||| c == '\u{202f}'
    ||| c == '\u{205f}'
    ||| c == '\u{3000}'
}

/// `true` if `p` occurs in `s` starting at position `i`.
pub open spec fn matches_at(s: Seq<char>, p: Seq<char>, i: int) -> bool {
    0 <= i && i + p.len() <= s.len() && s.subrange(i, i + p.len()) == p
}

/// The position of the first occurrence of `p` in `s`, if any.
#[verifier::opaque]
pub open spec fn first_match(s: Seq<char>, p: Seq<char>) -> Option<int> {
    if exists|i: int| matches_at(s, p, i) {
        Some(choose|i: int| matches_at(s, p, i) && forall|j: int| 0 <= j < i ==> !matches_at(s, p, j))
    } else {
        None
    }
}

/// `str::split_once`: the parts before and after the first occurrence of `p`.
pub open spec fn split_once(s: Seq<char>, p: Seq<char>) -> Option<(Seq<char>, Seq<char>)> {
    match first_match(s, p) {
        Some(i) => Some((s.take(i), s.skip(i + p.len()))),
        None => None,
    }
}

/// `true` if `s` contains the character `c`.
pub open spec fn has_char(s: Seq<char>, c: char) -> bool {
    exists|i: int| 0 <= i < s.len() && s[i] == c
}

/// `str::trim_start`: `s` without its leading whitespace.
pub open spec fn trim_start(s: Seq<char>) -> Seq<char>
    decreases s.len(),
{
    if s.len() > 0 && is_ws(s[0]) {
        trim_start(s.drop_first())
    } else {
        s
    }
}

/// `str::trim_end`: `s` without its trailing whitespace.
pub open spec fn trim_end(s: Seq<char>) -> Seq<char>
    decreases s.len(),
{
    if s.len() > 0 && is_ws(s.last()) {
        trim_end(s.drop_last())
    } else {
        s
    }
}

/// `str::trim`: `s` without leading and trailing whitespace.
pub open spec fn trim(s: Seq<char>) -> Seq<char> {
    trim_end(trim_start(s))
}

/// `str::trim_start_matches` with a pattern: `s` with every leading repetition of `p` removed.
pub open spec fn strip_leading(s: Seq<char>, p: Seq<char>) -> Seq<char>
    decreases s.len(),
{
    if p.len() > 0 && p.len() <= s.len() && s.take(p.len() as int) == p {
        strip_leading(s.skip(p.len() as int), p)
    } else {
        s
    }
}

/// `str::trim_end_matches` with a character: `s` with every trailing `c` removed.
pub open spec fn strip_trailing(s: Seq<char>, c: char) -> Seq<char>
    decreases s.len(),
{
    if s.len() > 0 && s.last() == c {
        strip_trailing(s.drop_last(), c)
    } else {
        s
    }
}

/// `str::split` on a character: the pieces of `s` between occurrences of `c`.
/// Like the standard library, an empty input gives one empty piece.
pub open spec fn split_char(s: Seq<char>, c: char) -> Seq<Seq<char>>
    decreases s.len(),
{
    if s.len() == 0 {
        seq![Seq::<char>::empty()]
    } else {
        let rest = split_char(s.drop_last(), c);
        if s.last() == c {
            rest.push(Seq::<char>::empty())
        } else {
            rest.update(rest.len() - 1, rest.last().push(s.last()))
        }
    }
}

/// `str::split_whitespace`: the maximal runs of non-whitespace characters of `s`.
pub open spec fn words(s: Seq<char>) -> Seq<Seq<char>>
    decreases s.len(),
{
    if s.len() == 0 {
        Seq::<Seq<char>>::empty()
    } else {
        let rest = words(s.drop_last());
        if is_ws(s.last()) {
            rest
        } else if s.len() >= 2 && !is_ws(s[s.len() - 2]) {
            rest.update(rest.len() - 1, rest.last().push(s.last()))
        } else {
            rest.push(seq![s.last()])
        }
    }
}

/// The pieces of `parts` joined with `sep` between consecutive pieces.
pub open spec fn join(parts: Seq<Seq<char>>, sep: Seq<char>) -> Seq<char>
    decreases parts.len(),
{
    if parts.len() == 0 {
        Seq::<char>::empty()
    } else if parts.len() == 1 {
        parts[0]
    } else {
        join(parts.drop_last(), sep) + sep + parts.last()
    }
}

/// `str::replace` with a non-empty pattern: every occurrence of `from`, found left to right
/// without overlapping, replaced by `to`.
pub open spec fn replace_all(s: Seq<char>, from: Seq<char>, to: Seq<char>) -> Seq<char>
    decreases s.len(),
{
    if from.len() == 0 || s.len() == 0 {
        s
    } else if from.len() <= s.len() && s.take(from.len() as int) == from {
        to + replace_all(s.skip(from.len() as int), from, to)
    } else {
        seq![s[0]] + replace_all(s.skip(1), from, to)
    }
}

/// `s` without one trailing `c`, if it ends with one.
pub open spec fn strip_one_trailing(s: Seq<char>, c: char) -> Seq<char> {
    if s.len() > 0 && s.last() == c {
        s.drop_last()
    } else {
        s
    }
}

/// `str::lines`: the pieces between newlines, without a final empty piece after a closing
/// newline, each without one trailing carriage return.
pub open spec fn lines(s: Seq<char>) -> Seq<Seq<char>> {
    let pieces = split_char(s, '\n');
    let kept = if s.len() == 0 {
        Seq::<Seq<char>>::empty()
    } else if s.last() == '\n' {
        pieces.drop_last()
    } else {
        pieces
    };
    kept.map_values(|l: Seq<char>| strip_one_trailing(l, '\r'))
}

/// The character sequences held by a list of character vectors.
pub open spec fn seqs_of(v: Seq<Vec<char>>) -> Seq<Seq<char>> {
    v.map_values(|x: Vec<char>| x@)
}

// ---------------------------------------------------------------------------
// Lemmas
// ---------------------------------------------------------------------------

proof fn lemma_split_char_nonempty(s: Seq<char>, c: char)
    ensures
        split_char(s, c).len() >= 1,
    decreases s.len(),
{
    if s.len() > 0 {
        lemma_split_char_nonempty(s.drop_last(), c);
    }
}

proof fn lemma_words_last(s: Seq<char>)
    ensures
        s.len() > 0 && !is_ws(s.last()) ==> words(s).len() >= 1,
    decreases s.len(),
{
    if s.len() >= 2 {
        lemma_words_last(s.drop_last());
        assert(s.drop_last().last() == s[s.len() - 2]);
    }
}

/// Splitting text that does not contain the separator gives the text itself.
/// A text with no whitespace in it is one word, and trimming leaves it as it is.
pub proof fn lemma_one_word(t: Seq<char>)
    requires
        t.len() > 0,
        forall|i: int| 0 <= i < t.len() ==> !is_ws(#[trigger] t[i]),
    ensures
        words(t) == seq![t],
        trim(t) == t,
    decreases t.len(),
{
    if t.len() > 1 {
        let d = t.drop_last();
        assert forall|i: int| 0 <= i < d.len() implies !is_ws(#[trigger] d[i]) by {
            assert(d[i] == t[i]);
        }
        lemma_one_word(d);
        assert(t[t.len() - 2] == d[d.len() - 1]);
        assert(d.push(t.last()) =~= t);
        let rest = words(d);
        assert(rest.update(rest.len() - 1, rest.last().push(t.last())) =~= seq![t]);
    } else {
        assert(t.drop_last() =~= Seq::<char>::empty());
        assert(words(t.drop_last()) == Seq::<Seq<char>>::empty());
        assert(seq![t.last()] =~= t);
        assert(Seq::<Seq<char>>::empty().push(seq![t.last()]) =~= seq![t]);
    }
    assert(!is_ws(t[0]));
    assert(!is_ws(t.last()));
}

/// Splitting `a`, `c`, `b` once at `c`, where `a` holds no `c`, gives back `a` and `b`.
pub proof fn lemma_split_once_at_char(a: Seq<char>, c: char, b: Seq<char>)
    requires
        !has_char(a, c),
    ensures
        split_once(a + seq![c] + b, seq![c]) == Some((a, b)),
{
    let s = a + seq![c] + b;
    let k = a.len() as int;
    assert(s.subrange(k, k + 1) =~= seq![c]);
    assert forall|j: int| 0 <= j < k implies !matches_at(s, seq![c], j) by {
        if matches_at(s, seq![c], j) {
            assert(s.subrange(j, j + 1)[0] == a[j]);
        }
    }
    lemma_first_match_is(s, seq![c], k);
    assert(s.take(k) =~= a);
    assert(s.skip(k + 1) =~= b);
}

pub proof fn lemma_split_char_none(a: Seq<char>, c: char)
    requires
        !has_char(a, c),
    ensures
        split_char(a, c) == seq![a],
    decreases a.len(),
{
    if a.len() > 0 {
        assert(!has_char(a.drop_last(), c)) by {
            if has_char(a.drop_last(), c) {
                let i = choose|i: int| 0 <= i < a.drop_last().len() && a.drop_last()[i] == c;
                assert(a[i] == c);
            }
        }
        lemma_split_char_none(a.drop_last(), c);
        assert(a.last() != c) by {
            assert(a[a.len() - 1] == a.last());
        }
        assert(a.drop_last().push(a.last()) =~= a);
        let r = split_char(a.drop_last(), c);
        assert(r.len() == 1 && r.last() == a.drop_last());
        assert(split_char(a, c) == r.update(r.len() - 1, r.last().push(a.last())));
        assert(seq![a.drop_last()].update(0, a.drop_last().push(a.last())) =~= seq![a]);
    } else {
        assert(a =~= Seq::<char>::empty());
    }
}

/// Splitting `a`, the separator, then `b` gives `a` followed by the pieces of `b`, when `a`
/// does not contain the separator.
pub proof fn lemma_split_char_concat(a: Seq<char>, c: char, b: Seq<char>)
    requires
        !has_char(a, c),
    ensures
        split_char(a + seq![c] + b, c) == seq![a] + split_char(b, c),
    decreases b.len(),
{
    if b.len() == 0 {
        lemma_split_char_none(a, c);
        assert((a + seq![c] + b).drop_last() =~= a);
        assert(seq![a].push(Seq::<char>::empty()) =~= seq![a] + split_char(b, c));
    } else {
        let b2 = b.drop_last();
        lemma_split_char_concat(a, c, b2);
        lemma_split_char_nonempty(b2, c);
        let whole = a + seq![c] + b;
        assert(whole.drop_last() =~= a + seq![c] + b2);
        assert(whole.last() == b.last());
        let r2 = split_char(b2, c);
        if b.last() == c {
            assert((seq![a] + r2).push(Seq::<char>::empty()) =~= seq![a] + r2.push(Seq::<char>::empty()));
        } else {
            assert((seq![a] + r2).update(r2.len() as int, r2.last().push(b.last())) =~= seq![a] + r2.update(
                r2.len() - 1,
                r2.last().push(b.last()),
            ));
        }
    }
}

/// A pattern at the very start of the text is its first occurrence.
pub proof fn lemma_first_match_at_start(s: Seq<char>, p: Seq<char>)
    requires
        p.len() <= s.len(),
        s.take(p.len() as int) == p,
    ensures
        first_match(s, p) == Some(0int),
{
    assert(s.subrange(0, p.len() as int) =~= s.take(p.len() as int));
    lemma_first_match_is(s, p, 0);
}

/// Stripping leading `c`s from text that starts with exactly one `c` removes just that one.
pub proof fn lemma_strip_leading_one(c: char, rest: Seq<char>)
    requires
        rest.len() > 0,
        rest[0] != c,
    ensures
        strip_leading(seq![c] + rest, seq![c]) == rest,
{
    let s = seq![c] + rest;
    assert(s.take(1) =~= seq![c]);
    assert(s.skip(1) =~= rest);
    assert(rest.take(1) != seq![c]) by {
        assert(rest.take(1)[0] == rest[0]);
    }
    assert(strip_leading(rest, seq![c]) == rest);
    assert(strip_leading(s, seq![c]) == strip_leading(s.skip(1), seq![c]));
}

// ---------------------------------------------------------------------------
// Executable helpers
// ---------------------------------------------------------------------------

/// The characters of `s`, in order.
pub fn chars_of(s: &str) -> (v: Vec<char>)
    ensures
        v@ == s@,
{
    let mut v: Vec<char> = Vec::new();
    for c in it: s.chars()
        invariant
            v@ == it.seq().take(it.index() as int),
            it.seq() == s@,
    {
        v.push(c);
    }
    v
}

/// Appends one character to a `String`; std's `String::push`.
#[verifier::external_body]
pub(crate) fn push_char(s: &mut String, c: char)
    ensures
        final(s)@ == old(s)@.push(c),
{
    s.push(c);
}

/// Builds a `String` holding exactly the characters of `v`.
pub fn string_from_chars(v: &[char]) -> (s: String)
    ensures
        s@ == v@,
{
    let mut s = String::new();
    let mut i: usize = 0;
    while i < v.len()
        invariant
            i <= v.len(),
            s@ == v@.take(i as int),
        decreases v.len() - i,
    {
        push_char(&mut s, v[i]);
        i += 1;
        assert(v@.take(i as int) == v@.take((i - 1) as int).push(v@[i - 1]));
    }
    assert(v@.take(v.len() as int) == v@);
    s
}

/// `char::is_whitespace`.
pub fn is_whitespace(c: char) -> (b: bool)
    ensures
        b == is_ws(c),
{
    ('\u{9}' <= c && c <= '\u{d}') || c == ' ' || c == '\u{85}' || c == '\u{a0}' || c == '\u{1680}'
        || ('\u{2000}' <= c && c <= '\u{200a}') || c == '\u{2028}' || c == '\u{2029}' || c
        == '\u{202f}' || c == '\u{205f}' || c == '\u{3000}'
}

/// `true` if the characters of `s` from `i` on start with `p`.
pub fn starts_with_at(s: &[char], p: &[char], i: usize) -> (b: bool)
    ensures
        b == matches_at(s@, p@, i as int),
{
    if i > s.len() || p.len() > s.len() - i {
        return false;
    }
    let mut k: usize = 0;
    while k < p.len()
        invariant
            i + p.len() <= s.len(),
            k <= p.len(),
            forall|j: int| 0 <= j < k ==> s@[i + j] == p@[j],
        decreases p.len() - k,
    {
        if s[i + k] != p[k] {
            assert(s@.subrange(i as int, i + p.len())[k as int] != p@[k as int]);
            return false;
        }
        k += 1;
    }
    assert(s@.subrange(i as int, i + p.len()) =~= p@);
    true
}

/// The position of the first occurrence of `p` in `s`.
pub fn find(s: &[char], p: &[char]) -> (r: Option<usize>)
    ensures
        r matches Some(i) ==> first_match(s@, p@) == Some(i as int) && matches_at(s@, p@, i as int)
            && i + p.len() <= s.len(),
        r is None ==> first_match(s@, p@) is None,
{
    let mut i: usize = 0;
    while i < s.len()
        invariant
            i <= s.len(),
            forall|j: int| 0 <= j < i ==> !matches_at(s@, p@, j),
        decreases s.len() - i,
    {
        if starts_with_at(s, p, i) {
            proof {
                lemma_first_match_is(s@, p@, i as int);
            }
            return Some(i);
        }
        i += 1;
    }
    if starts_with_at(s, p, i) {
        proof {
            lemma_first_match_is(s@, p@, i as int);
        }
        return Some(i);
    }
    proof {
        lemma_first_match_none(s@, p@);
    }
    None
}

pub proof fn lemma_first_match_is(s: Seq<char>, p: Seq<char>, i: int)
    requires
        matches_at(s, p, i),
        forall|j: int| 0 <= j < i ==> !matches_at(s, p, j),
    ensures
        first_match(s, p) == Some(i),
{
    reveal(first_match);
    let w = choose|w: int| matches_at(s, p, w) && forall|j: int| 0 <= j < w ==> !matches_at(s, p, j);
    assert(matches_at(s, p, w));
    if w < i {
        assert(!matches_at(s, p, w));
    } else if w > i {
        assert(!matches_at(s, p, i));
    }
}

proof fn lemma_first_match_none(s: Seq<char>, p: Seq<char>)
    requires
        forall|j: int| 0 <= j <= s.len() ==> !matches_at(s, p, j),
    ensures
        first_match(s, p) is None,
{
    reveal(first_match);
}

/// A copy of the characters `s[from..to]`.
pub fn slice_chars(s: &[char], from: usize, to: usize) -> (r: Vec<char>)
    requires
        from <= to <= s.len(),
    ensures
        r@ == s@.subrange(from as int, to as int),
{
    let mut r: Vec<char> = Vec::new();
    let mut i = from;
    while i < to
        invariant
            from <= i <= to <= s.len(),
            r@ == s@.subrange(from as int, i as int),
        decreases to - i,
    {
        r.push(s[i]);
        i += 1;
        assert(r@ == s@.subrange(from as int, i as int));
    }
    r
}

/// `str::split_once`.
pub fn split_once_at(s: &[char], p: &[char]) -> (r: Option<(Vec<char>, Vec<char>)>)
    ensures
        match split_once(s@, p@) {
            Some((a, b)) => r matches Some((x, y)) && x@ == a && y@ == b,
            None => r is None,
        },
{
    match find(s, p) {
        Some(i) => {
            let a = slice_chars(s, 0, i);
            let b = slice_chars(s, i + p.len(), s.len());
            Some((a, b))
        },
        None => None,
    }
}

/// `str::trim_start`.
pub fn trim_start_chars(s: &[char]) -> (r: Vec<char>)
    ensures
        r@ == trim_start(s@),
{
    let mut i: usize = 0;
    assert(s@.skip(0) =~= s@);
    while i < s.len() && is_whitespace(s[i])
        invariant
            i <= s.len(),
            trim_start(s@) == trim_start(s@.skip(i as int)),
        decreases s.len() - i,
    {
        assert(s@.skip(i as int).drop_first() =~= s@.skip(i + 1));
        i += 1;
    }
    slice_chars(s, i, s.len())
}

/// `str::trim_end`.
pub fn trim_end_chars(s: &[char]) -> (r: Vec<char>)
    ensures
        r@ == trim_end(s@),
{
    let mut i: usize = s.len();
    assert(s@.take(s.len() as int) =~= s@);
    while i > 0 && is_whitespace(s[i - 1])
        invariant
            i <= s.len(),
            trim_end(s@) == trim_end(s@.take(i as int)),
        decreases i,
    {
        assert(s@.take(i as int).drop_last() =~= s@.take(i - 1));
        i -= 1;
    }
    assert(s@.take(i as int) =~= s@.subrange(0, i as int));
    slice_chars(s, 0, i)
}

/// `str::trim`.
pub fn trim_chars(s: &[char]) -> (r: Vec<char>)
    ensures
        r@ == trim(s@),
{
    let t = trim_start_chars(s);
    trim_end_chars(&t)
}

/// `str::trim_start_matches` with a string pattern.
pub fn strip_leading_chars(s: &[char], p: &[char]) -> (r: Vec<char>)
    ensures
        r@ == strip_leading(s@, p@),
{
    if p.len() == 0 {
        return slice_chars(s, 0, s.len());
    }
    let mut i: usize = 0;
    assert(s@.skip(0) =~= s@);
    while i <= s.len() && starts_with_at(s, p, i)
        invariant
            i <= s.len(),
            p.len() > 0,
            strip_leading(s@, p@) == strip_leading(s@.skip(i as int), p@),
        decreases s.len() - i,
    {
        assert(s@.skip(i as int).take(p.len() as int) =~= s@.subrange(i as int, i + p.len()));
        assert(s@.skip(i as int).skip(p.len() as int) =~= s@.skip(i + p.len()));
        i += p.len();
    }
    proof {
        if p.len() <= s.len() - i {
            assert(s@.skip(i as int).take(p.len() as int) =~= s@.subrange(i as int, i + p.len()));
        }
    }
    slice_chars(s, i, s.len())
}

/// `str::trim_end_matches` with a character pattern.
pub fn strip_trailing_char(s: &[char], c: char) -> (r: Vec<char>)
    ensures
        r@ == strip_trailing(s@, c),
{
    let mut i: usize = s.len();
    assert(s@.take(s.len() as int) =~= s@);
    while i > 0 && s[i - 1] == c
        invariant
            i <= s.len(),
            strip_trailing(s@, c) == strip_trailing(s@.take(i as int), c),
        decreases i,
    {
        assert(s@.take(i as int).drop_last() =~= s@.take(i - 1));
        i -= 1;
    }
    assert(s@.take(i as int) =~= s@.subrange(0, i as int));
    slice_chars(s, 0, i)
}

/// `true` if `s` contains `c`.
pub fn contains_char(s: &[char], c: char) -> (b: bool)
    ensures
        b == has_char(s@, c),
{
    let mut i: usize = 0;
    while i < s.len()
        invariant
            i <= s.len(),
            forall|j: int| 0 <= j < i ==> s@[j] != c,
        decreases s.len() - i,
    {
        if s[i] == c {
            return true;
        }
        i += 1;
    }
    false
}

/// `str::split` on a character.
pub fn split_chars(s: &[char], c: char) -> (r: Vec<Vec<char>>)
    ensures
        seqs_of(r@) == split_char(s@, c),
        r.len() >= 1,
{
    let mut pieces: Vec<Vec<char>> = Vec::new();
    let mut cur: Vec<char> = Vec::new();
    let mut i: usize = 0;
    assert(split_char(s@.take(0), c) =~= seqs_of(pieces@).push(cur@)) by {
        assert(s@.take(0) =~= Seq::<char>::empty());
    }
    while i < s.len()
        invariant
            i <= s.len(),
            split_char(s@.take(i as int), c) == seqs_of(pieces@).push(cur@),
        decreases s.len() - i,
    {
        let ghost prev = s@.take(i as int);
        let ghost next = s@.take(i + 1);
        let ghost before = seqs_of(pieces@);
        let ghost cur_before = cur@;
        assert(next.drop_last() =~= prev);
        assert(next.last() == s@[i as int]);
        assert(next.len() > 0);
        if s[i] == c {
            let done = cur;
            pieces.push(done);
            cur = Vec::new();
            assert(seqs_of(pieces@) =~= before.push(cur_before));
            assert(split_char(next, c) == split_char(prev, c).push(Seq::<char>::empty()));
        } else {
            cur.push(s[i]);
            assert(split_char(next, c) == split_char(prev, c).update(
                split_char(prev, c).len() - 1,
                split_char(prev, c).last().push(s@[i as int]),
            ));
        }
        i += 1;
        assert(split_char(s@.take(i as int), c) =~= seqs_of(pieces@).push(cur@));
    }
    assert(s@.take(s.len() as int) =~= s@);
    let ghost before = seqs_of(pieces@);
    let ghost last = cur@;
    pieces.push(cur);
    assert(seqs_of(pieces@) =~= before.push(last));
    pieces
}

/// Appends all of `t` to `v`.
pub fn extend_chars(v: &mut Vec<char>, t: &[char])
    ensures
        final(v)@ == old(v)@ + t@,
{
    let mut i: usize = 0;
    while i < t.len()
        invariant
            i <= t.len(),
            v@ == old(v)@ + t@.take(i as int),
        decreases t.len() - i,
    {
        v.push(t[i]);
        i += 1;
        assert(old(v)@ + t@.take(i as int) =~= (old(v)@ + t@.take(i - 1)).push(t@[i - 1]));
    }
    assert(t@.take(t.len() as int) =~= t@);
}

/// `str::split_whitespace`.
pub fn words_chars(s: &[char]) -> (r: Vec<Vec<char>>)
    ensures
        seqs_of(r@) == words(s@),
{
    let mut out: Vec<Vec<char>> = Vec::new();
    let mut cur: Vec<char> = Vec::new();
    let mut in_word = false;
    let mut i: usize = 0;
    assert(s@.take(0) =~= Seq::<char>::empty());
    while i < s.len()
        invariant
            i <= s.len(),
            in_word == (i > 0 && !is_ws(s@[i - 1])),
            in_word ==> words(s@.take(i as int)) == seqs_of(out@).push(cur@),
            !in_word ==> words(s@.take(i as int)) == seqs_of(out@),
        decreases s.len() - i,
    {
        let ghost prev = s@.take(i as int);
        let ghost next = s@.take(i + 1);
        let ghost out_before = seqs_of(out@);
        let ghost cur_before = cur@;
        assert(next.drop_last() =~= prev);
        assert(next.last() == s@[i as int]);
        assert(i > 0 ==> next[i - 1] == s@[i - 1]);
        let c = s[i];
        if is_whitespace(c) {
            if in_word {
                let w = cur;
                out.push(w);
                cur = Vec::new();
                assert(seqs_of(out@) =~= out_before.push(cur_before));
            }
            in_word = false;
        } else {
            if in_word {
                cur.push(c);
                assert(words(next) == words(prev).update(words(prev).len() - 1, words(prev).last().push(c)));
                assert(words(next) =~= seqs_of(out@).push(cur@));
            } else {
                cur = Vec::new();
                cur.push(c);
                assert(words(next) == words(prev).push(seq![c]));
                assert(words(next) =~= seqs_of(out@).push(cur@));
            }
            in_word = true;
        }
        i += 1;
    }
    assert(s@.take(s.len() as int) =~= s@);
    if in_word {
        let ghost out_before = seqs_of(out@);
        let ghost cur_before = cur@;
        out.push(cur);
        assert(seqs_of(out@) =~= out_before.push(cur_before));
    }
    out
}

/// The pieces of `parts` joined with `sep` between consecutive pieces.
pub fn join_chars(parts: &Vec<Vec<char>>, sep: &[char]) -> (r: Vec<char>)
    ensures
        r@ == join(seqs_of(parts@), sep@),
{
    let mut out: Vec<char> = Vec::new();
    let mut k: usize = 0;
    assert(seqs_of(parts@).take(0) =~= Seq::<Seq<char>>::empty());
    while k < parts.len()
        invariant
            k <= parts.len(),
            out@ == join(seqs_of(parts@).take(k as int), sep@),
        decreases parts.len() - k,
    {
        let ghost prev = seqs_of(parts@).take(k as int);
        let ghost next = seqs_of(parts@).take(k + 1);
        assert(next.drop_last() =~= prev);
        assert(next.last() == parts@[k as int]@);
        if k > 0 {
            extend_chars(&mut out, sep);
        } else {
            assert(next.len() == 1);
            assert(out@ =~= Seq::<char>::empty());
        }
        extend_chars(&mut out, parts[k].as_slice());
        k += 1;
        assert(out@ =~= join(next, sep@));
    }
    assert(seqs_of(parts@).take(parts.len() as int) =~= seqs_of(parts@));
    out
}

/// `str::replace` with a non-empty pattern.
pub fn replace_chars(s: &[char], from: &[char], to: &[char]) -> (r: Vec<char>)
    requires
        from.len() > 0,
    ensures
        r@ == replace_all(s@, from@, to@),
{
    let mut out: Vec<char> = Vec::new();
    let mut i: usize = 0;
    assert(s@.skip(0) =~= s@);
    while i < s.len()
        invariant
            i <= s.len(),
            from.len() > 0,
            out@ + replace_all(s@.skip(i as int), from@, to@) == replace_all(s@, from@, to@),
        decreases s.len() - i,
    {
        let ghost rest = s@.skip(i as int);
        if starts_with_at(s, from, i) {
            assert(rest.take(from.len() as int) =~= s@.subrange(i as int, i + from.len()));
            assert(rest.skip(from.len() as int) =~= s@.skip(i + from.len()));
            extend_chars(&mut out, to);
            i += from.len();
            assert(out@ + replace_all(s@.skip(i as int), from@, to@) =~= replace_all(s@, from@, to@));
        } else {
            proof {
                if from.len() <= rest.len() {
                    assert(rest.take(from.len() as int) =~= s@.subrange(i as int, i + from.len()));
                }
            }
            assert(rest.skip(1) =~= s@.skip(i + 1));
            assert(rest[0] == s@[i as int]);
            out.push(s[i]);
            i += 1;
            assert(out@ + replace_all(s@.skip(i as int), from@, to@) =~= replace_all(s@, from@, to@));
        }
    }
    assert(s@.skip(i as int) =~= Seq::<char>::empty());
    assert(out@ + Seq::<char>::empty() =~= out@);
    out
}

/// `str::lines`.
pub fn lines_chars(s: &[char]) -> (r: Vec<Vec<char>>)
    ensures
        seqs_of(r@) == lines(s@),
{
    let pieces = split_chars(s, '\n');
    let ghost all = split_char(s@, '\n');
    let n: usize = if s.len() == 0 {
        0
    } else if s[s.len() - 1] == '\n' {
        pieces.len() - 1
    } else {
        pieces.len()
    };
    let ghost kept = if s@.len() == 0 {
        Seq::<Seq<char>>::empty()
    } else if s@.last() == '\n' {
        all.drop_last()
    } else {
        all
    };
    assert(kept.len() == n);
    let mut out: Vec<Vec<char>> = Vec::new();
    let mut i: usize = 0;
    while i < n
        invariant
            i <= n,
            n <= pieces@.len(),
            seqs_of(pieces@) == all,
            kept.len() == n,
            forall|j: int| 0 <= j < n ==> kept[j] == all[j],
            seqs_of(out@) == kept.take(i as int).map_values(|l: Seq<char>| strip_one_trailing(l, '\r')),
        decreases n - i,
    {
        let piece = &pieces[i];
        assert(piece@ == all[i as int]);
        let line = if piece.len() > 0 && piece[piece.len() - 1] == '\r' {
            slice_chars(piece, 0, piece.len() - 1)
        } else {
            slice_chars(piece, 0, piece.len())
        };
        assert(line@ == strip_one_trailing(kept[i as int], '\r'));
        let ghost before = seqs_of(out@);
        let ghost lv = line@;
        out.push(line);
        assert(seqs_of(out@) =~= before.push(lv));
        assert(kept.take(i + 1).map_values(|l: Seq<char>| strip_one_trailing(l, '\r')) =~= kept.take(
            i as int,
        ).map_values(|l: Seq<char>| strip_one_trailing(l, '\r')).push(strip_one_trailing(kept[i as int], '\r')));
        i += 1;
    }
    assert(kept.take(n as int) =~= kept);
    out
}

/// `true` if the characters `s` spell exactly `lit`.
pub fn eq_str(s: &[char], lit: &str) -> (b: bool)
    ensures
        b == (s@ == lit@),
{
    let l = chars_of(lit);
    if s.len() != l.len() {
        return false;
    }
    let mut i: usize = 0;
    while i < s.len()
        invariant
            i <= s.len(),
            s.len() == l.len(),
            l@ == lit@,
            forall|j: int| 0 <= j < i ==> s@[j] == l@[j],
        decreases s.len() - i,
    {
        if s[i] != l[i] {
            assert(s@[i as int] != l@[i as int]);
            return false;
        }
        i += 1;
    }
    assert(s@ =~= l@);
    true
}

/// `true` if `s` starts with the character `c`.
pub fn starts_with_char(s: &[char], c: char) -> (b: bool)
    ensures
        b == (s.len() > 0 && s@[0] == c),
{
    s.len() > 0 && s[0] == c
}

/// `true` if `s` ends with the character `c`.
pub fn ends_with_char(s: &[char], c: char) -> (b: bool)
    ensures
        b == (s.len() > 0 && s@.last() == c),
{
    s.len() > 0 && s[s.len() - 1] == c
}

/// `true` if every character of `s` is an ASCII digit (`char::is_ascii_digit`).
pub fn all_ascii_digits(s: &[char]) -> (b: bool)
    ensures
        b == (forall|i: int| 0 <= i < s.len() ==> '0' <= #[trigger] s@[i] && s@[i] <= '9'),
{
    let mut i: usize = 0;
    while i < s.len()
        invariant
            i <= s.len(),
            forall|j: int| 0 <= j < i ==> '0' <= #[trigger] s@[j] && s@[j] <= '9',
        decreases s.len() - i,
    {
        if !('0' <= s[i] && s[i] <= '9') {
            return false;
        }
        i += 1;
    }
    true
}


/// `char::is_ascii_alphanumeric`: `0`-`9`, `A`-`Z` or `a`-`z`.
pub open spec fn is_ascii_alnum(c: char) -> bool {
    ||| ('0' <= c && c <= '9')
    ||| ('A' <= c && c <= 'Z')
    ||| ('a' <= c && c <= 'z')
}

/// `char::is_ascii_alphanumeric`.
pub fn is_ascii_alphanumeric(c: char) -> (b: bool)
    ensures
        b == is_ascii_alnum(c),
{
    ('0' <= c && c <= '9') || ('A' <= c && c <= 'Z') || ('a' <= c && c <= 'z')
}

/// What `char::is_alphanumeric` answers for `c`: whether it has the Unicode `Alphabetic`
/// property or a `Numeric_Type`.
pub uninterp spec fn unicode_alphanumeric(c: char) -> bool;

/// Calls `char::is_alphanumeric`. Its documentation defines it as `is_alphabetic() ||
/// is_numeric()`, which on ASCII characters are exactly the letters and the digits; that
/// is all that is stated of the Unicode tables beyond the name.
#[verifier::external_body]
pub(crate) fn is_alphanumeric(c: char) -> (b: bool)
    ensures
        b == unicode_alphanumeric(c),
        c <= '\u{7f}' ==> b == is_ascii_alnum(c),
{
    c.is_alphanumeric()
}

} // verus!

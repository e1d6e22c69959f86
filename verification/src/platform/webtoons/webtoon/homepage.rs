//! What a webtoon's homepage on `webtoons.com` says about it, read from the page's text.
use crate::stdx::error::Assumption;
use crate::stdx::num::{
    decimal, lemma_decimal_digits, lemma_parse_radix_digits, lemma_parse_zero_padded, parse_decimal, parse_u64,
    radix_chars, zero_padded, IntErrorKind,
};
use crate::stdx::text::{
    chars_of, contains_char, ends_with_char, extend_chars, has_char, lemma_split_once_at_char, split_once, split_once_at,
    string_from_chars, strip_trailing, strip_trailing_char,
};
use crate::stdx::html::elements_view;
use crate::platform::webtoons::meta::{genre_of, Genre};
use crate::stdx::html::{Element, ElementView, Node, NodeView};
use crate::platform::webtoons::originals::{releases_ok, schedule_from, schedule_is, schedule_of, weekday_of, Schedule};
use crate::stdx::text::{eq_str, split_char, split_chars, trim_start, trim_start_chars};
use crate::stdx::link::{
    parse, path_segments, strings_view, url_parses, url_path_segments, url_with_host, with_host,
};
use crate::platform::webtoons::creator::Creator;
use crate::platform::webtoons::meta::{Scope, Type};
use crate::platform::webtoons::webtoon::Webtoon;
use crate::stdx::html::{css_valid, parse_css, parse_document, select, selected};
use crate::stdx::math::{bucket_of, lemma_bucket_bounds, MathExt};
use crate::stdx::num::parse_u16;
use crate::stdx::text::{
    is_ws, join, join_chars, lemma_one_word, seqs_of, strip_leading, strip_leading_chars, trim, trim_chars, words,
    words_chars,
};
use crate::platform::webtoons::webtoon::episode::{Episode, Published, PublishedStatus};
use crate::stdx::entities::{decode_html_entities, html_entities_decoded};
use crate::stdx::html::{groups_view, select_within, selected_within};
use crate::stdx::random::random_index;
use crate::stdx::time::{date_parsed, parse_date, DateOrDateTime};
use vstd::prelude::*;

verus! {

/// The scale of an abbreviated count.
#[derive(Debug, Clone, Copy, PartialEq, Eq, Structural)]
pub enum Unit {
    /// Plain digits: `999`.
    Hundred,
    /// A comma-separated count: `112,362`.
    Thousand,
    /// Millions: `1.3M`.
    Million,
    /// Billions: `1.3B`.
    Billion,
}

/// The multiplier a unit stands for.
pub open spec fn unit_value(u: Unit) -> int {
    match u {
        Unit::Hundred => 100,
        Unit::Thousand => 1_000,
        Unit::Million => 1_000_000,
        Unit::Billion => 1_000_000_000,
    }
}

impl Unit {
    /// The multiplier this unit stands for.
    pub fn multiplier(&self) -> (m: u64)
        ensures
            m == unit_value(*self),
    {
        match self {
            Unit::Hundred => 100,
            Unit::Thousand => 1_000,
            Unit::Million => 1_000_000,
            Unit::Billion => 1_000_000_000,
        }
    }
}

/// The number an abbreviated count spells, if it is well formed.
///
/// A `suffix` (`B`, `M`) is dropped from the end first. Without a separator the digits are
/// the count. With one (`.`, `,`): when the text does not contain it the digits are a whole
/// number of units; a `.` in millions or billions adds a single tenths digit; a `,` in
/// thousands adds the last three digits.
pub open spec fn count_value(input: Seq<char>, unit: Unit, separator: Option<char>, suffix: Option<char>) -> Option<int> {
    let number = match suffix {
        Some(c) => strip_trailing(input, c),
        None => input,
    };
    let m = unit_value(unit);
    match separator {
        None => match parse_decimal(number, u64::MAX as nat) {
            Ok(n) => Some(n as int),
            Err(_) => None,
        },
        Some(c) => match split_once(number, seq![c]) {
            None => match parse_decimal(number, u64::MAX as nat) {
                Ok(n) => Some(n * m),
                Err(_) => None,
            },
            Some((prefix, rest)) => if unit is Million || unit is Billion || unit is Thousand {
                match (parse_decimal(prefix, u64::MAX as nat), parse_decimal(rest, u64::MAX as nat)) {
                    (Ok(left), Ok(right)) => if unit is Thousand {
                        Some(left * m + right)
                    } else if right < 10 {
                        Some(left * m + right * (m / 10))
                    } else {
                        None
                    },
                    _ => None,
                }
            } else {
                None
            },
        },
    }
}

fn internal(msg: &str) -> (a: Assumption)
    ensures
        a.spec_message() == msg@,
{
    Assumption::new(msg)
}

/// The message for a tenths part of more than one digit.
fn fraction_message(right: u64, number: &[char]) -> (a: Assumption)
    ensures
        a.spec_message() == "`right < 10`: fractional part of abbreviated count on `webtoons.com` Webtoon homepage should be a single digit, got: `"@
            + decimal(right as nat) + "` in `"@ + number@ + "`"@,
{
    let mut m = "`right < 10`: fractional part of abbreviated count on `webtoons.com` Webtoon homepage should be a single digit, got: `".to_owned();
    let r = radix_chars(right, 10);
    let rs = string_from_chars(&r);
    m.append(rs.as_str());
    m.append("` in `");
    let ns = string_from_chars(number);
    m.append(ns.as_str());
    m.append("`");
    Assumption::from(m)
}

/// The message for a count whose unit takes no separator, though it split at one.
fn unknown_unit_message(number: &[char]) -> (a: Assumption)
    ensures
        a.spec_message() == "`webtoons.com` Webtoon homepage count `"@ + number@
            + "` should match a known unit (Thousand, Million, or Billion), got unexpected separator split"@,
{
    let mut m = "`webtoons.com` Webtoon homepage count `".to_owned();
    let ns = string_from_chars(number);
    m.append(ns.as_str());
    m.append("` should match a known unit (Thousand, Million, or Billion), got unexpected separator split");
    Assumption::from(m)
}

/// Parses an abbreviated count in full width; see [`count_value`].
pub fn count_wide(input: &str, unit: Unit, separator: Option<char>, suffix: Option<char>) -> (r: Result<u128, Assumption>)
    ensures
        match count_value(input@, unit, separator, suffix) {
            Some(v) => 0 <= v <= u128::MAX && r == Ok::<u128, Assumption>(v as u128),
            None => r is Err,
        },
{
    let cs = chars_of(input);
    let number = match suffix {
        Some(c) => strip_trailing_char(&cs, c),
        None => cs,
    };
    let m = unit.multiplier();
    match separator {
        None => match parse_u64(&number) {
            Ok(n) => Ok(n as u128),
            Err(e) => Err(Assumption::unparsed("count without separator on `webtoons.com` Webtoon homepage should be parseable as a `u64`", &number, e)),
        },
        Some(c) => {
            let mut sep: Vec<char> = Vec::new();
            sep.push(c);
            assert(sep@ =~= seq![c]);
            match split_once_at(&number, &sep) {
                None => match parse_u64(&number) {
                    Ok(n) => {
                        assert((n as u128) * (m as u128) <= 0xffff_ffff_ffff_ffffu128 * 1_000_000_000) by (nonlinear_arith)
                            requires
                                n <= 0xffff_ffff_ffff_ffffu64,
                                m <= 1_000_000_000,
                        ;
                        Ok((n as u128) * (m as u128))
                    },
                    Err(e) => Err(Assumption::unparsed("count without separator on `webtoons.com` Webtoon homepage should be parseable as a `u64`", &number, e)),
                },
                Some((prefix, rest)) => {
                    if !(unit == Unit::Million || unit == Unit::Billion || unit == Unit::Thousand) {
                        return Err(unknown_unit_message(&number));
                    }
                    let left = match parse_u64(&prefix) {
                        Ok(l) => l,
                        Err(e) => return Err(Assumption::unparsed("prefix part of a count on `webtoons.com` Webtoon homepage should be parseable as a `u64`", &prefix, e)),
                    };
                    let right = match parse_u64(&rest) {
                        Ok(r) => r,
                        Err(e) => return Err(Assumption::unparsed("remainder part of a count on `webtoons.com` Webtoon homepage should be parseable as a `u64`", &rest, e)),
                    };
                    assert((left as u128) * (m as u128) <= 0xffff_ffff_ffff_ffffu128 * 1_000_000_000) by (nonlinear_arith)
                        requires
                            left <= 0xffff_ffff_ffff_ffffu64,
                            m <= 1_000_000_000,
                    ;
                    if unit == Unit::Thousand {
                        Ok((left as u128) * (m as u128) + (right as u128))
                    } else if right < 10 {
                        assert((right as u128) * ((m / 10) as u128) <= 10 * 100_000_000) by (nonlinear_arith)
                            requires
                                right < 10,
                                m / 10 <= 100_000_000,
                        ;
                        Ok((left as u128) * (m as u128) + (right as u128) * ((m / 10) as u128))
                    } else {
                        Err(fraction_message(right, &number))
                    }
                },
            }
        },
    }
}

/// Parses an abbreviated count, e.g. `1.3B`, `1M`, `112,362` or `999`; see [`count_value`].
///
/// The count must fit in a `u64`.
pub fn count(input: &str, unit: Unit, separator: Option<char>, suffix: Option<char>) -> (r: Result<u64, Assumption>)
    requires
        count_value(input@, unit, separator, suffix) matches Some(v) ==> v <= u64::MAX,
    ensures
        match count_value(input@, unit, separator, suffix) {
            Some(v) => r == Ok::<u64, Assumption>(v as u64),
            None => r is Err,
        },
{
    match count_wide(input, unit, separator, suffix) {
        Ok(v) => Ok(v as u64),
        Err(e) => Err(e),
    }
}

/// The views a homepage's views text (`1.3B`, `4.5M`, `469,035`, `999`) stands for.
pub open spec fn views_value(text: Seq<char>) -> Option<int> {
    if text.len() == 0 {
        None
    } else if text.last() == 'B' {
        count_value(text, Unit::Billion, Some('.'), Some('B'))
    } else if text.last() == 'M' {
        count_value(text, Unit::Million, Some('.'), Some('M'))
    } else if has_char(text, ',') {
        count_value(text, Unit::Thousand, Some(','), None)
    } else {
        count_value(text, Unit::Hundred, None, None)
    }
}

/// The subscribers a homepage's subscribers text (`4.5M`, `469,035`, `999`) stands for.
pub open spec fn subscribers_value(text: Seq<char>) -> Option<int> {
    if text.len() == 0 {
        None
    } else if text.last() == 'M' {
        count_value(text, Unit::Million, Some('.'), Some('M'))
    } else if has_char(text, ',') {
        count_value(text, Unit::Thousand, Some(','), None)
    } else {
        count_value(text, Unit::Hundred, None, None)
    }
}

proof fn lemma_decimal_plain(n: nat)
    requires
        n <= u64::MAX,
    ensures
        decimal(n).len() > 0,
        decimal(n).last() != 'M' && decimal(n).last() != 'B',
        !has_char(decimal(n), ','),
        !has_char(decimal(n), '.'),
        parse_decimal(decimal(n), u64::MAX as nat) == Ok::<nat, IntErrorKind>(n),
{
    lemma_decimal_digits(n);
    lemma_parse_radix_digits(n, 10, u64::MAX as nat);
}

/// A count written as plain decimal digits, with no separator and no unit, reads as the
/// number those digits spell, as views and as subscribers alike: `999` is 999.
pub proof fn lemma_plain_count_reads_back(n: nat)
    requires
        n <= u64::MAX,
    ensures
        views_value(decimal(n)) == Some(n as int),
        subscribers_value(decimal(n)) == Some(n as int),
{
    lemma_decimal_plain(n);
}

/// A count written with a thousands comma, `{a},{bbb}`, reads as `a` thousands and `bbb`:
/// `112,362` is 112362 and `1,005` is 1005, as views and as subscribers alike.
pub proof fn lemma_thousands_count_reads_back(a: nat, b: nat)
    requires
        b < 1000,
        a * 1000 + b <= u64::MAX,
    ensures
        views_value(decimal(a) + seq![','] + zero_padded(b, 3)) == Some((a * 1000 + b) as int),
        subscribers_value(decimal(a) + seq![','] + zero_padded(b, 3)) == Some((a * 1000 + b) as int),
{
    let z = zero_padded(b, 3);
    let t = decimal(a) + seq![','] + z;
    lemma_decimal_plain(a);
    lemma_parse_zero_padded(b, 3, u64::MAX as nat);
    lemma_split_once_at_char(decimal(a), ',', z);
    assert(t.last() == z.last());
    assert(t[decimal(a).len() as int] == ',');
}

/// A count written in millions with one tenths digit, `{a}.{d}M`, reads as `a` millions
/// and `d` hundred thousands: `1.3M` is 1300000, as views and as subscribers alike.
pub proof fn lemma_millions_count_reads_back(a: nat, d: nat)
    requires
        d < 10,
        a * 1_000_000 + d * 100_000 <= u64::MAX,
    ensures
        views_value(decimal(a) + seq!['.'] + decimal(d) + seq!['M']) == Some((a * 1_000_000 + d * 100_000) as int),
        subscribers_value(decimal(a) + seq!['.'] + decimal(d) + seq!['M']) == Some((a * 1_000_000 + d * 100_000) as int),
{
    let n = decimal(a) + seq!['.'] + decimal(d);
    let t = n + seq!['M'];
    lemma_decimal_plain(a);
    lemma_decimal_plain(d);
    assert(!has_char(decimal(a), '.'));
    assert(t.drop_last() =~= n);
    assert(n.last() == decimal(d).last());
    assert(strip_trailing(n, 'M') == n);
    assert(strip_trailing(t, 'M') == n);
    lemma_split_once_at_char(decimal(a), '.', decimal(d));
}

/// A views count written in billions with one tenths digit, `{a}.{d}B`, reads as `a`
/// billions and `d` hundred millions: `1.3B` is 1300000000.
pub proof fn lemma_billions_count_reads_back(a: nat, d: nat)
    requires
        d < 10,
        a * 1_000_000_000 + d * 100_000_000 <= u64::MAX,
    ensures
        views_value(decimal(a) + seq!['.'] + decimal(d) + seq!['B']) == Some((a * 1_000_000_000 + d * 100_000_000) as int),
{
    let n = decimal(a) + seq!['.'] + decimal(d);
    let t = n + seq!['B'];
    lemma_decimal_plain(a);
    lemma_decimal_plain(d);
    assert(!has_char(decimal(a), '.'));
    assert(t.drop_last() =~= n);
    assert(n.last() == decimal(d).last());
    assert(strip_trailing(n, 'B') == n);
    assert(strip_trailing(t, 'B') == n);
    lemma_split_once_at_char(decimal(a), '.', decimal(d));
}

/// Reads the views count from the text of the homepage's first `em.cnt` element.
///
/// Fails when the text is empty or malformed, and when the count does not fit in a `u64`.
pub fn views_from_text(text: &str) -> (r: Result<u64, Assumption>)
    ensures
        match views_value(text@) {
            Some(v) => if v <= u64::MAX {
                r == Ok::<u64, Assumption>(v as u64)
            } else {
                r is Err
            },
            None => r is Err,
        },
{
    let cs = chars_of(text);
    if cs.len() == 0 {
        return Err(internal("first `em.cnt` element on `webtoons.com` Webtoon homepage should never be empty"));
    }
    let wide = if ends_with_char(&cs, 'B') {
        count_wide(text, Unit::Billion, Some('.'), Some('B'))
    } else if ends_with_char(&cs, 'M') {
        count_wide(text, Unit::Million, Some('.'), Some('M'))
    } else if contains_char(&cs, ',') {
        count_wide(text, Unit::Thousand, Some(','), None)
    } else {
        count_wide(text, Unit::Hundred, None, None)
    };
    match wide {
        Ok(v) => if v <= u64::MAX as u128 {
            Ok(v as u64)
        } else {
            Err(internal("views count on `webtoons.com` Webtoon homepage should fit within a `u64`"))
        },
        Err(e) => Err(e),
    }
}

/// Reads the subscribers count from the text of the homepage's second `em.cnt` element.
///
/// Fails when the text is empty or malformed, and when the count does not fit in a `u32`.
pub fn subscribers_from_text(text: &str) -> (r: Result<u32, Assumption>)
    ensures
        match subscribers_value(text@) {
            Some(v) => if v <= u32::MAX {
                r == Ok::<u32, Assumption>(v as u32)
            } else {
                r is Err
            },
            None => r is Err,
        },
{
    let cs = chars_of(text);
    if cs.len() == 0 {
        return Err(internal("second `em.cnt` element on `webtoons.com` Webtoon homepage should never be empty"));
    }
    let wide = if ends_with_char(&cs, 'M') {
        count_wide(text, Unit::Million, Some('.'), Some('M'))
    } else if contains_char(&cs, ',') {
        count_wide(text, Unit::Thousand, Some(','), None)
    } else {
        count_wide(text, Unit::Hundred, None, None)
    };
    match wide {
        Ok(v) => if v <= u32::MAX as u128 {
            Ok(v as u32)
        } else {
            Err(internal("subscribers count on `webtoons.com` Webtoon homepage should fit within a `u32`"))
        },
        Err(e) => Err(e),
    }
}

/// The words of each text, one text after another (`split_whitespace` on each).
pub open spec fn all_words(texts: Seq<Seq<char>>) -> Seq<Seq<char>>
    decreases texts.len(),
{
    if texts.len() == 0 {
        Seq::empty()
    } else {
        all_words(texts.drop_last()) + words(texts.last())
    }
}

/// The title on a homepage, from the `.subj` elements: the words of the first one's text
/// nodes joined by single spaces, so that line breaks and stray whitespace vanish.
pub open spec fn title_of(els: Seq<ElementView>) -> Option<Seq<char>> {
    if els.len() == 0 {
        None
    } else {
        Some(join(all_words(els[0].texts), " "@))
    }
}

fn strings_as_chars(v: &Vec<String>) -> (r: Vec<Vec<char>>)
    ensures
        seqs_of(r@) == v@.map_values(|t: String| t@),
{
    let mut r: Vec<Vec<char>> = Vec::new();
    let mut i: usize = 0;
    while i < v.len()
        invariant
            i <= v@.len(),
            seqs_of(r@) == v@.take(i as int).map_values(|t: String| t@),
        decreases v@.len() - i,
    {
        let ghost before = seqs_of(r@);
        let c = chars_of(v[i].as_str());
        r.push(c);
        assert(seqs_of(r@) =~= before.push(v@[i as int]@));
        assert(v@.take(i + 1).map_values(|t: String| t@) =~= v@.take(i as int).map_values(|t: String| t@).push(v@[i as int]@));
        i += 1;
    }
    assert(v@.take(v@.len() as int) =~= v@);
    r
}

fn words_of_texts(texts: &Vec<Vec<char>>) -> (r: Vec<Vec<char>>)
    ensures
        seqs_of(r@) == all_words(seqs_of(texts@)),
{
    let mut r: Vec<Vec<char>> = Vec::new();
    let mut i: usize = 0;
    while i < texts.len()
        invariant
            i <= texts@.len(),
            seqs_of(r@) == all_words(seqs_of(texts@).take(i as int)),
        decreases texts@.len() - i,
    {
        let ws = words_chars(&texts[i]);
        let ghost before = seqs_of(r@);
        let mut j: usize = 0;
        while j < ws.len()
            invariant
                j <= ws@.len(),
                seqs_of(r@) == before + seqs_of(ws@).take(j as int),
            decreases ws@.len() - j,
        {
            let ghost b2 = seqs_of(r@);
            let w = slice_all(&ws[j]);
            r.push(w);
            assert(seqs_of(r@) =~= b2.push(ws@[j as int]@));
            assert(seqs_of(ws@).take(j + 1) =~= seqs_of(ws@).take(j as int).push(ws@[j as int]@));
            j += 1;
        }
        assert(seqs_of(ws@).take(ws@.len() as int) =~= seqs_of(ws@));
        assert(seqs_of(texts@).take(i + 1).drop_last() =~= seqs_of(texts@).take(i as int));
        i += 1;
    }
    assert(seqs_of(texts@).take(texts@.len() as int) =~= seqs_of(texts@));
    r
}

fn slice_all(v: &Vec<char>) -> (r: Vec<char>)
    ensures
        r@ == v@,
{
    let mut r: Vec<char> = Vec::new();
    extend_chars(&mut r, v);
    r
}

/// Reads the title from the `.subj` elements of a homepage; see [`title_of`].
pub fn title_from(els: &Vec<Element>) -> (r: Result<String, Assumption>)
    ensures
        match title_of(elements_view(els@)) {
            Some(t) => r matches Ok(s) && s@ == t,
            None => r is Err,
        },
{
    if els.len() == 0 {
        return Err(internal("`.subj` element should be present on `webtoons.com` Webtoon homepage"));
    }
    let texts = strings_as_chars(&els[0].texts);
    let ws = words_of_texts(&texts);
    let space = chars_of(" ");
    let t = join_chars(&ws, &space);
    Ok(string_from_chars(&t))
}

/// The summary on a homepage, from the `p.summary` elements: the words of the first one's
/// first text node joined by single spaces.
pub open spec fn summary_of(els: Seq<ElementView>) -> Option<Seq<char>> {
    if els.len() == 0 || els[0].texts.len() == 0 {
        None
    } else {
        Some(join(words(els[0].texts[0]), " "@))
    }
}

/// Reads the summary from the `p.summary` elements of a homepage; see [`summary_of`].
pub fn summary_from(els: &Vec<Element>) -> (r: Result<String, Assumption>)
    ensures
        match summary_of(elements_view(els@)) {
            Some(t) => r matches Ok(s) && s@ == t,
            None => r is Err,
        },
{
    if els.len() == 0 {
        return Err(internal("`p.summary` element should be present on `webtoons.com` Webtoon homepage"));
    }
    if els[0].texts.len() == 0 {
        return Err(internal("`p.summary` element on `webtoons.com` Webtoon homepage should contain text"));
    }
    let text = chars_of(els[0].texts[0].as_str());
    let ws = words_chars(&text);
    let space = chars_of(" ");
    let t = join_chars(&ws, &space);
    Ok(string_from_chars(&t))
}

/// The genres on a homepage, from the `.info>.genre` elements: the genre each one's first
/// text node names; one or two of them.
pub open spec fn genres_of(els: Seq<ElementView>) -> Option<Seq<Genre>> {
    if 1 <= els.len() <= 2 && forall|i: int| 0 <= i < els.len() ==> (#[trigger] els[i]).texts.len() > 0 && genre_of(els[i].texts[0]) is Some {
        Some(Seq::new(els.len(), |i: int| genre_of(els[i].texts[0])->0))
    } else {
        None
    }
}

/// Reads the genres from the `.info>.genre` elements of a homepage; see [`genres_of`].
pub fn genres_from(els: &Vec<Element>) -> (r: Result<Vec<Genre>, Assumption>)
    ensures
        match genres_of(elements_view(els@)) {
            Some(g) => r matches Ok(v) && v@ == g,
            None => r is Err,
        },
{
    let ghost ev = elements_view(els@);
    let mut genres: Vec<Genre> = Vec::new();
    let mut i: usize = 0;
    while i < els.len()
        invariant
            i <= els@.len(),
            ev == elements_view(els@),
            genres@.len() == i,
            forall|j: int| 0 <= j < i ==> (#[trigger] ev[j]).texts.len() > 0 && genre_of(ev[j].texts[0]) == Some(genres@[j]),
        decreases els@.len() - i,
    {
        assert(ev[i as int] == els@[i as int]@);
        if els[i].texts.len() == 0 {
            return Err(internal("`.info>.genre` element on `webtoons.com` Webtoon homepage should contain text"));
        }
        assert(ev[i as int].texts[0] == els@[i as int].texts@[0]@);
        let g = match Genre::from_str(els[i].texts[0].as_str()) {
            Ok(g) => g,
            Err(_) => return Err(internal("`webtoons.com` Webtoon homepage should only contain recognized genres")),
        };
        genres.push(g);
        i += 1;
    }
    if genres.len() == 0 {
        return Err(internal("`webtoons.com` Webtoon homepage should have at least one genre"));
    }
    if genres.len() > 2 {
        return Err(internal("`webtoons.com` Webtoon homepage should have at most two genres"));
    }
    assert(genres@ =~= Seq::new(ev.len(), |i: int| genre_of(ev[i].texts[0])->0));
    Ok(genres)
}

/// How many pages the episode list of a homepage has, from its `li._episodeItem>a>span.tx`
/// elements (one per listed episode, the latest first, each reading `#N`): one for an
/// empty list, else the page the latest episode number falls on when pages hold as many
/// episodes as this one lists.
pub open spec fn total_pages_of(els: Seq<ElementView>) -> Option<u16> {
    if els.len() == 0 {
        Some(1)
    } else if els.len() > u16::MAX || els[0].texts.len() == 0 {
        None
    } else {
        let latest = trim(els[0].texts[0]);
        if latest.len() == 0 || latest[0] != '#' {
            None
        } else {
            match parse_decimal(strip_leading(latest, "#"@), u16::MAX as nat) {
                Ok(n) => if n == 0 {
                    None
                } else {
                    Some(bucket_of(n, els.len()) as u16)
                },
                Err(_) => None,
            }
        }
    }
}

/// Reads how many pages the episode list of a homepage has; see [`total_pages_of`].
pub fn total_pages_from(els: &Vec<Element>) -> (r: Result<u16, Assumption>)
    ensures
        match total_pages_of(elements_view(els@)) {
            Some(n) => r == Ok::<u16, Assumption>(n),
            None => r is Err,
        },
{
    let ghost ev = elements_view(els@);
    if els.len() == 0 {
        return Ok(1);
    }
    if els.len() > 65535 {
        return Err(internal("episodes per page count should be fit within a `u16`"));
    }
    let per_page = els.len() as u16;
    assert(ev[0] == els@[0]@);
    if els[0].texts.len() == 0 {
        return Err(internal("`span.tx` element on `webtoons.com` Webtoon episode list should contain text"));
    }
    assert(ev[0].texts[0] == els@[0].texts@[0]@);
    let text = chars_of(els[0].texts[0].as_str());
    let latest = trim_chars(&text);
    if latest.len() == 0 || latest[0] != '#' {
        let mut m = "`latest.starts_with('#')`: `webtoons.com` episode number should be prefixed with `#`, got: `".to_owned();
        m.append(string_from_chars(&latest).as_str());
        m.append("`");
        return Err(Assumption::from(m));
    }
    let hash = chars_of("#");
    let digits = strip_leading_chars(&latest, &hash);
    let episode = match parse_u16(&digits) {
        Ok(n) => n,
        Err(e) => return Err(Assumption::unparsed("`webtoons.com` episode number should be parseable as a `u16`", &latest, e)),
    };
    if episode == 0 {
        return Err(internal("`episode > 0`: `webtoons.com` episode numbers should start at 1, got: 0"));
    }
    Ok(episode.in_bucket_of(per_page))
}

/// The first text node among `children` whose text is not blank, trimmed.
pub open spec fn first_text(children: Seq<NodeView>) -> Option<Seq<char>>
    decreases children.len(),
{
    if children.len() == 0 {
        None
    } else {
        match children[0] {
            NodeView::Text(t) => if trim(t).len() > 0 {
                Some(trim(t))
            } else {
                first_text(children.drop_first())
            },
            _ => first_text(children.drop_first()),
        }
    }
}

/// The release days a schedule text lists: `EVERYDAY` as it is, else without a leading
/// `EVERY`, split on whitespace, each without trailing commas (`MON,` is `MON`).
pub open spec fn release_parts(t: Seq<char>) -> Seq<Seq<char>> {
    let days = if t == "EVERYDAY"@ {
        t
    } else {
        trim_start(strip_leading(t, "EVERY"@))
    };
    words(days).map_values(|w: Seq<char>| strip_trailing(w, ','))
}

/// The release texts on an Originals homepage, from its `p.day_info` elements: those that
/// the first non-blank text node among the first one's children lists.
pub open spec fn schedule_parts_of(els: Seq<ElementView>) -> Option<Seq<Seq<char>>> {
    if els.len() == 0 {
        None
    } else {
        match first_text(els[0].children) {
            Some(t) => Some(release_parts(t)),
            None => None,
        }
    }
}

/// A schedule written as one name (`EVERYDAY`, `DAILY`, `COMPLETED` or a weekday, after the
/// `UP` icon) is read as that one release text, and so as the schedule the name stands for:
/// `EVERYDAY` is a daily schedule, not the day `DAY`.
pub proof fn lemma_one_name_schedule(els: Seq<ElementView>, t: Seq<char>)
    requires
        els.len() > 0,
        first_text(els[0].children) == Some(t),
        forall|i: int| 0 <= i < t.len() ==> !is_ws(#[trigger] t[i]),
        schedule_of(t) is Some,
    ensures
        schedule_parts_of(els) == Some(seq![t]),
        schedule_ok(els),
        forall|s: Schedule| schedule_from(seq![t], s) == schedule_is(s, schedule_of(t)->0),
{
    // Each name is told apart by its length and its first and last characters.
    reveal_strlit("EVERY");
    assert("EVERY"@.len() == 5 && "EVERY"@[0] == 'E');
    reveal_strlit("DAY");
    reveal_strlit("EVERYDAY");
    assert("EVERYDAY"@.len() == 8 && "EVERYDAY"@[0] == 'E' && "EVERYDAY"@[7] == 'Y');
    reveal_strlit("DAILY");
    assert("DAILY"@.len() == 5 && "DAILY"@[0] == 'D' && "DAILY"@[4] == 'Y');
    reveal_strlit("COMPLETED");
    assert("COMPLETED"@.len() == 9 && "COMPLETED"@[0] == 'C' && "COMPLETED"@[8] == 'D');
    reveal_strlit("MONDAY");
    assert("MONDAY"@.len() == 6 && "MONDAY"@[0] == 'M' && "MONDAY"@[5] == 'Y');
    reveal_strlit("MON");
    assert("MON"@.len() == 3 && "MON"@[0] == 'M' && "MON"@[2] == 'N');
    reveal_strlit("TUESDAY");
    assert("TUESDAY"@.len() == 7 && "TUESDAY"@[0] == 'T' && "TUESDAY"@[6] == 'Y');
    reveal_strlit("TUE");
    assert("TUE"@.len() == 3 && "TUE"@[0] == 'T' && "TUE"@[2] == 'E');
    reveal_strlit("WEDNESDAY");
    assert("WEDNESDAY"@.len() == 9 && "WEDNESDAY"@[0] == 'W' && "WEDNESDAY"@[8] == 'Y');
    reveal_strlit("WED");
    assert("WED"@.len() == 3 && "WED"@[0] == 'W' && "WED"@[2] == 'D');
    reveal_strlit("THURSDAY");
    assert("THURSDAY"@.len() == 8 && "THURSDAY"@[0] == 'T' && "THURSDAY"@[7] == 'Y');
    reveal_strlit("THU");
    assert("THU"@.len() == 3 && "THU"@[0] == 'T' && "THU"@[2] == 'U');
    reveal_strlit("FRIDAY");
    assert("FRIDAY"@.len() == 6 && "FRIDAY"@[0] == 'F' && "FRIDAY"@[5] == 'Y');
    reveal_strlit("FRI");
    assert("FRI"@.len() == 3 && "FRI"@[0] == 'F' && "FRI"@[2] == 'I');
    reveal_strlit("SATURDAY");
    assert("SATURDAY"@.len() == 8 && "SATURDAY"@[0] == 'S' && "SATURDAY"@[7] == 'Y');
    reveal_strlit("SAT");
    assert("SAT"@.len() == 3 && "SAT"@[0] == 'S' && "SAT"@[2] == 'T');
    reveal_strlit("SUNDAY");
    assert("SUNDAY"@.len() == 6 && "SUNDAY"@[0] == 'S' && "SUNDAY"@[5] == 'Y');
    reveal_strlit("SUN");
    assert("SUN"@.len() == 3 && "SUN"@[0] == 'S' && "SUN"@[2] == 'N');
    assert(t.len() > 0);
    lemma_one_word(t);
    if t != "EVERYDAY"@ {
        if t.len() >= 5 && t.take(5) == "EVERY"@ {
            assert(t.take(5)[0] == t[0]);
        }
        assert(strip_leading(t, "EVERY"@) == t);
        assert(trim_start(t) == t);
    }
    assert(strip_trailing(t, ',') == t);
    assert(seq![t].map_values(|w: Seq<char>| strip_trailing(w, ',')) =~= seq![t]);
}

/// Whether the `p.day_info` elements of a homepage give a schedule: one to six release
/// texts that name one.
pub open spec fn schedule_ok(els: Seq<ElementView>) -> bool {
    schedule_parts_of(els) matches Some(parts) && 1 <= parts.len() <= 6 && releases_ok(parts)
}

fn first_text_of(children: &Vec<Node>) -> (r: Option<Vec<char>>)
    ensures
        match first_text(children@.map_values(|n: Node| n@)) {
            Some(t) => r matches Some(v) && v@ == t,
            None => r is None,
        },
{
    let ghost cv = children@.map_values(|n: Node| n@);
    let mut i: usize = 0;
    assert(cv.skip(0) =~= cv);
    while i < children.len()
        invariant
            i <= children@.len(),
            cv == children@.map_values(|n: Node| n@),
            first_text(cv) == first_text(cv.skip(i as int)),
        decreases children@.len() - i,
    {
        assert(cv.skip(i as int).drop_first() =~= cv.skip(i + 1));
        assert(cv.skip(i as int)[0] == children@[i as int]@);
        match &children[i] {
            Node::Text(t) => {
                let cs = chars_of(t.as_str());
                let trimmed = trim_chars(&cs);
                if trimmed.len() > 0 {
                    return Some(trimmed);
                }
            },
            _ => {},
        }
        i += 1;
    }
    None
}

fn release_parts_of(t: &Vec<char>) -> (r: Vec<Vec<char>>)
    ensures
        seqs_of(r@) == release_parts(t@),
{
    let days = if eq_str(t, "EVERYDAY") {
        slice_all(t)
    } else {
        let every = chars_of("EVERY");
        let rest = strip_leading_chars(t, &every);
        trim_start_chars(&rest)
    };
    let ws = words_chars(&days);
    let mut r: Vec<Vec<char>> = Vec::new();
    let mut i: usize = 0;
    while i < ws.len()
        invariant
            i <= ws@.len(),
            seqs_of(r@) == seqs_of(ws@).take(i as int).map_values(|w: Seq<char>| strip_trailing(w, ',')),
        decreases ws@.len() - i,
    {
        let ghost before = seqs_of(r@);
        let w = strip_trailing_char(&ws[i], ',');
        r.push(w);
        assert(seqs_of(r@) =~= before.push(strip_trailing(ws@[i as int]@, ',')));
        assert(seqs_of(ws@).take(i + 1).map_values(|w: Seq<char>| strip_trailing(w, ',')) =~= seqs_of(ws@).take(
            i as int,
        ).map_values(|w: Seq<char>| strip_trailing(w, ',')).push(strip_trailing(ws@[i as int]@, ',')));
        i += 1;
    }
    assert(seqs_of(ws@).take(ws@.len() as int) =~= seqs_of(ws@));
    r
}

fn as_strings(parts: &Vec<Vec<char>>) -> (r: Vec<String>)
    ensures
        r@.len() == parts@.len(),
        forall|i: int| 0 <= i < parts@.len() ==> #[trigger] r@[i]@ == parts@[i]@,
{
    let mut r: Vec<String> = Vec::new();
    let mut i: usize = 0;
    while i < parts.len()
        invariant
            i <= parts@.len(),
            r@.len() == i,
            forall|j: int| 0 <= j < i ==> #[trigger] r@[j]@ == parts@[j]@,
        decreases parts@.len() - i,
    {
        r.push(string_from_chars(&parts[i]));
        i += 1;
    }
    r
}

fn as_strs(v: &Vec<String>) -> (r: Vec<&str>)
    ensures
        r@.len() == v@.len(),
        forall|i: int| 0 <= i < v@.len() ==> #[trigger] r@[i]@ == v@[i]@,
{
    let mut r: Vec<&str> = Vec::new();
    let mut i: usize = 0;
    while i < v.len()
        invariant
            i <= v@.len(),
            r@.len() == i,
            forall|j: int| 0 <= j < i ==> #[trigger] r@[j]@ == v@[j]@,
        decreases v@.len() - i,
    {
        r.push(v[i].as_str());
        i += 1;
    }
    r
}

/// Reads the release schedule from the `p.day_info` elements of an Originals homepage;
/// see [`schedule_parts_of`] and [`schedule_ok`].
pub fn schedule_from_elements(els: &Vec<Element>) -> (r: Result<Schedule, Assumption>)
    ensures
        schedule_ok(elements_view(els@)) <==> r is Ok,
        r matches Ok(s) ==> schedule_parts_of(elements_view(els@)) matches Some(parts) && schedule_from(parts, s),
{
    let ghost ev = elements_view(els@);
    if els.len() == 0 {
        return Err(internal("`p.day_info` element should be present on `webtoons.com` Originals Webtoon homepage"));
    }
    assert(ev[0] == els@[0]@);
    assert(ev[0].children =~= els@[0].children@.map_values(|n: Node| n@));
    let text = match first_text_of(&els[0].children) {
        Some(t) => t,
        None => return Err(internal("`p.day_info` element on `webtoons.com` Originals Webtoon homepage should contain non-empty text")),
    };
    let parts = release_parts_of(&text);
    let ghost ps = seqs_of(parts@);
    if parts.len() == 0 {
        return Err(internal("`p.day_info` element on `webtoons.com` Originals Webtoon homepage should produce at least one release day"));
    }
    if parts.len() >= 7 {
        return Err(internal("`p.day_info` element on `webtoons.com` Originals Webtoon homepage should have at most 6 release days"));
    }
    let strings = as_strings(&parts);
    let strs = as_strs(&strings);
    assert forall|i: int| 0 <= i < ps.len() implies #[trigger] strs@[i]@ == ps[i] by {
        assert(strings@[i]@ == parts@[i]@);
    }
    match Schedule::try_from(strs) {
        Ok(s) => {
            assert(schedule_from(ps, s));
            proof {
                if ps.len() > 1 {
                    assert forall|i: int| 0 <= i < ps.len() implies #[trigger] weekday_of(trim(ps[i])) is Some by {
                        assert(strs@[i]@ == ps[i]);
                    }
                }
            }
            assert(releases_ok(ps));
            Ok(s)
        },
        Err(_) => {
            proof {
                if releases_ok(ps) && ps.len() > 1 {
                    assert forall|i: int| 0 <= i < strs@.len() implies #[trigger] weekday_of(trim(strs@[i]@)) is Some by {
                        assert(strs@[i]@ == ps[i]);
                        assert(weekday_of(trim(ps[i])) is Some);
                    }
                }
            }
            Err(internal("`webtoons.com` Originals Webtoon homepage release schedule should only contain recognized days or types"))
        },
    }
}

/// The value of the first attribute called `name`.
pub open spec fn attr_of(attrs: Seq<(Seq<char>, Seq<char>)>, name: Seq<char>) -> Option<Seq<char>>
    decreases attrs.len(),
{
    if attrs.len() == 0 {
        None
    } else if attrs[0].0 == name {
        Some(attrs[0].1)
    } else {
        attr_of(attrs.drop_first(), name)
    }
}

pub(crate) fn attr_value(attrs: &Vec<(String, String)>, name: &str) -> (r: Option<String>)
    ensures
        match attr_of(attrs@.map_values(|a: (String, String)| (a.0@, a.1@)), name@) {
            Some(v) => r matches Some(s) && s@ == v,
            None => r is None,
        },
{
    let ghost av = attrs@.map_values(|a: (String, String)| (a.0@, a.1@));
    let key = chars_of(name);
    let mut i: usize = 0;
    assert(av.skip(0) =~= av);
    while i < attrs.len()
        invariant
            i <= attrs@.len(),
            key@ == name@,
            av == attrs@.map_values(|a: (String, String)| (a.0@, a.1@)),
            attr_of(av, name@) == attr_of(av.skip(i as int), name@),
        decreases attrs@.len() - i,
    {
        assert(av.skip(i as int).drop_first() =~= av.skip(i + 1));
        assert(av.skip(i as int)[0] == (attrs@[i as int].0@, attrs@[i as int].1@));
        let k = chars_of(attrs[i].0.as_str());
        if eq_str(&k, name) {
            return Some(attrs[i].1.clone());
        }
        i += 1;
    }
    None
}

/// The image host that needs no `referer` header.
pub open spec fn image_host() -> Seq<char> {
    "swebtoon-phinf.pstatic.net"@
}

/// The address of the thumbnail or banner on a homepage, from its `.thmb>img` elements: the
/// first one's `src`, moved to the image host that needs no `referer` header.
pub open spec fn image_of(els: Seq<ElementView>) -> Option<Seq<char>> {
    if els.len() == 0 {
        None
    } else {
        match attr_of(els[0].attrs, "src"@) {
            None => None,
            Some(u) => if url_parses(u) {
                url_with_host(u, image_host())
            } else {
                None
            },
        }
    }
}

/// Reads the thumbnail (Canvas) or banner (Originals) address from the `.thmb>img` elements
/// of a homepage; see [`image_of`].
pub fn image_from(els: &Vec<Element>) -> (r: Result<String, Assumption>)
    ensures
        match image_of(elements_view(els@)) {
            Some(u) => r matches Ok(s) && s@ == u,
            None => r is Err,
        },
{
    if els.len() == 0 {
        return Err(internal("`.thmb>img` element should be present on `webtoons.com` Webtoon homepage"));
    }
    let ghost ev = elements_view(els@);
    assert(ev[0] == els@[0]@);
    let src = match attr_value(&els[0].attrs, "src") {
        Some(s) => s,
        None => return Err(internal("`.thmb>img` element on `webtoons.com` Webtoon homepage should have a `src` attribute")),
    };
    let link = match parse(src.as_str()) {
        Some(l) => l,
        None => return Err(internal("image url on `webtoons.com` Webtoon homepage should be a valid url")),
    };
    match with_host(&link, "swebtoon-phinf.pstatic.net") {
        Some(u) => Ok(u),
        None => Err(internal("`swebtoon-phinf.pstatic.net` should be a valid url host")),
    }
}

/// The creator an `a.author` element links to (Canvas creators, who have an account): its
/// first text node trimmed, and the last path segment of its `href`.
pub open spec fn linked_creator(e: ElementView) -> Option<(Seq<char>, Seq<char>)> {
    match attr_of(e.attrs, "href"@) {
        None => None,
        Some(h) => if !url_parses(h) {
            None
        } else {
            match url_path_segments(h) {
                None => None,
                Some(segs) => if segs.len() == 0 || e.texts.len() == 0 {
                    None
                } else {
                    Some((trim(e.texts[0]), segs.last()))
                },
            }
        },
    }
}

/// The username of the creator an `a.author` element links to.
pub open spec fn account_name(e: ElementView) -> Seq<char> {
    match linked_creator(e) {
        Some((name, _)) => name,
        None => Seq::empty(),
    }
}

/// The profile segment of the creator an `a.author` element links to.
pub open spec fn account_profile(e: ElementView) -> Seq<char> {
    match linked_creator(e) {
        Some((_, profile)) => profile,
        None => Seq::empty(),
    }
}

/// Whether a child node is the "author info" button that ends the list of creators.
pub open spec fn is_button(n: NodeView) -> bool {
    n matches NodeView::Element { name, .. } && name == "button"@
}

/// The text of a child node: a text node's text, or all the text inside an element.
pub open spec fn node_text(n: NodeView) -> Option<Seq<char>> {
    match n {
        NodeView::Text(t) => Some(t),
        NodeView::Element { text, .. } => Some(text),
        NodeView::Other => None,
    }
}

/// The tab-separated pieces of the children's texts, trimmed, up to the button.
pub open spec fn name_pieces(children: Seq<NodeView>) -> Seq<Seq<char>>
    decreases children.len(),
{
    if children.len() == 0 || is_button(children[0]) {
        Seq::empty()
    } else {
        let rest = name_pieces(children.drop_first());
        match node_text(children[0]) {
            Some(t) => split_char(t, '\t').map_values(|p: Seq<char>| trim(p)) + rest,
            None => rest,
        }
    }
}

/// The usernames among the pieces: empty pieces and lone `,` separators dropped, up to a
/// `...` that ends a long list.
pub open spec fn names_of(pieces: Seq<Seq<char>>) -> Seq<Seq<char>>
    decreases pieces.len(),
{
    if pieces.len() == 0 {
        Seq::empty()
    } else if pieces[0].len() == 0 || pieces[0] == ","@ {
        names_of(pieces.drop_first())
    } else if pieces[0] == "..."@ {
        Seq::empty()
    } else {
        seq![pieces[0]] + names_of(pieces.drop_first())
    }
}

/// The names not yet among `known`, in order, each once.
pub open spec fn unlisted(known: Seq<Seq<char>>, names: Seq<Seq<char>>) -> Seq<Seq<char>>
    decreases names.len(),
{
    if names.len() == 0 {
        Seq::empty()
    } else if known.contains(names[0]) {
        unlisted(known, names.drop_first())
    } else {
        seq![names[0]] + unlisted(known.push(names[0]), names.drop_first())
    }
}

/// The usernames in the `div.author_area` elements of a homepage (Originals creators,
/// some without an account): those of the first one's children.
pub open spec fn area_names(area: Seq<ElementView>) -> Seq<Seq<char>> {
    if area.len() == 0 {
        Seq::empty()
    } else {
        names_of(name_pieces(area[0].children))
    }
}

/// Whether every `a.author` element links to a creator.
pub open spec fn all_linked(linked: Seq<ElementView>) -> bool {
    forall|i: int| 0 <= i < linked.len() ==> #[trigger] linked_creator(linked[i]) is Some
}

/// The creators on a homepage, as username and profile: those the `a.author` elements
/// link to, then the usernames of the `div.author_area` element not already listed, without
/// a profile. An Original must list some; a Canvas webtoon exactly one.
pub open spec fn creators_of(linked: Seq<ElementView>, area: Seq<ElementView>, t: Type) -> Option<Seq<(Seq<char>, Option<Seq<char>>)>> {
    if !all_linked(linked) {
        None
    } else {
        let accounts = Seq::new(linked.len(), |i: int| linked_creator(linked[i])->0);
        let known = Seq::new(linked.len(), |i: int| accounts[i].0);
        let others = unlisted(known, area_names(area));
        let all = Seq::new(accounts.len(), |i: int| (accounts[i].0, Some(accounts[i].1)))
            + Seq::new(others.len(), |i: int| (others[i], None::<Seq<char>>));
        let ok = match t {
            Type::Original => all.len() > 0,
            Type::Canvas => all.len() == 1,
        };
        if ok {
            Some(all)
        } else {
            None
        }
    }
}

/// The username and profile of each creator.
pub open spec fn creators_view(v: Seq<Creator>) -> Seq<(Seq<char>, Option<Seq<char>>)> {
    v.map_values(|c: Creator| (c.username@, match c.profile {
        Some(p) => Some(p@),
        None => None,
    }))
}

fn linked_from(e: &Element) -> (r: Result<Creator, Assumption>)
    ensures
        match linked_creator(e@) {
            Some((name, profile)) => r matches Ok(c) && c.username@ == name && (c.profile matches Some(p) && p@ == profile),
            None => r is Err,
        },
{
    let href = match attr_value(&e.attrs, "href") {
        Some(h) => h,
        None => return Err(internal("`a.author` element on `webtoons.com` Canvas Webtoon homepage should always have an `href` attribute")),
    };
    let link = match parse(href.as_str()) {
        Some(l) => l,
        None => return Err(internal("`href` attribute on `webtoons.com` Canvas Webtoon homepage should be a valid url")),
    };
    let segs = match path_segments(&link) {
        Some(s) => s,
        None => return Err(internal("`href` url on `webtoons.com` Canvas Webtoon homepage should have path segments")),
    };
    if segs.len() == 0 {
        return Err(internal("`href` url path segments on `webtoons.com` Canvas Webtoon homepage should have a last segment"));
    }
    if e.texts.len() == 0 {
        return Err(internal("`a.author` element on `webtoons.com` Canvas Webtoon homepage should contain text"));
    }
    assert(e@.texts[0] == e.texts@[0]@);
    assert(strings_view(segs@).last() == segs@[segs@.len() - 1]@);
    let text = chars_of(e.texts[0].as_str());
    let username = string_from_chars(&trim_chars(&text));
    let profile = segs[segs.len() - 1].clone();
    Ok(Creator { username, profile: Some(profile) })
}

fn node_text_of(n: &Node) -> (r: Option<Vec<char>>)
    ensures
        match node_text(n@) {
            Some(t) => r matches Some(v) && v@ == t,
            None => r is None,
        },
{
    match n {
        Node::Text(t) => Some(chars_of(t.as_str())),
        Node::Element { text, .. } => Some(chars_of(text.as_str())),
        Node::Other => None,
    }
}

fn is_button_node(n: &Node) -> (b: bool)
    ensures
        b == is_button(n@),
{
    match n {
        Node::Element { name, .. } => {
            let cs = chars_of(name.as_str());
            eq_str(&cs, "button")
        },
        _ => false,
    }
}

fn name_pieces_of(children: &Vec<Node>) -> (r: Vec<Vec<char>>)
    ensures
        seqs_of(r@) == name_pieces(children@.map_values(|n: Node| n@)),
{
    let ghost cv = children@.map_values(|n: Node| n@);
    let mut out: Vec<Vec<char>> = Vec::new();
    let mut i: usize = 0;
    assert(cv.skip(0) =~= cv);
    assert(seqs_of(out@) + name_pieces(cv.skip(0)) =~= name_pieces(cv));
    while i < children.len()
        invariant
            i <= children@.len(),
            cv == children@.map_values(|n: Node| n@),
            seqs_of(out@) + name_pieces(cv.skip(i as int)) == name_pieces(cv),
        decreases children@.len() - i,
    {
        let ghost rest = cv.skip(i as int);
        assert(rest[0] == children@[i as int]@);
        assert(rest.drop_first() =~= cv.skip(i + 1));
        if is_button_node(&children[i]) {
            assert(seqs_of(out@) + Seq::<Seq<char>>::empty() =~= seqs_of(out@));
            return out;
        }
        match node_text_of(&children[i]) {
            Some(t) => {
                let parts = split_chars(&t, '\t');
                let mut j: usize = 0;
                let ghost before = seqs_of(out@);
                let ghost trimmed = split_char(t@, '\t').map_values(|p: Seq<char>| trim(p));
                while j < parts.len()
                    invariant
                        j <= parts@.len(),
                        seqs_of(parts@) == split_char(t@, '\t'),
                        trimmed == split_char(t@, '\t').map_values(|p: Seq<char>| trim(p)),
                        seqs_of(out@) == before + trimmed.take(j as int),
                    decreases parts@.len() - j,
                {
                    let ghost b2 = seqs_of(out@);
                    let piece = trim_chars(&parts[j]);
                    out.push(piece);
                    assert(seqs_of(out@) =~= b2.push(trim(parts@[j as int]@)));
                    assert(trimmed.take(j + 1) =~= trimmed.take(j as int).push(trimmed[j as int]));
                    j += 1;
                }
                assert(trimmed.take(parts@.len() as int) =~= trimmed);
                assert(seqs_of(out@) + name_pieces(cv.skip(i + 1)) =~= name_pieces(cv));
            },
            None => {},
        }
        i += 1;
    }
    assert(cv.skip(i as int) =~= Seq::<NodeView>::empty());
    assert(seqs_of(out@) + Seq::<Seq<char>>::empty() =~= seqs_of(out@));
    out
}

fn names_from_pieces(pieces: &Vec<Vec<char>>) -> (r: Vec<Vec<char>>)
    ensures
        seqs_of(r@) == names_of(seqs_of(pieces@)),
{
    let ghost pv = seqs_of(pieces@);
    let mut out: Vec<Vec<char>> = Vec::new();
    let mut i: usize = 0;
    assert(pv.skip(0) =~= pv);
    assert(seqs_of(out@) + names_of(pv.skip(0)) =~= names_of(pv));
    while i < pieces.len()
        invariant
            i <= pieces@.len(),
            pv == seqs_of(pieces@),
            seqs_of(out@) + names_of(pv.skip(i as int)) == names_of(pv),
        decreases pieces@.len() - i,
    {
        let ghost rest = pv.skip(i as int);
        assert(rest[0] == pieces@[i as int]@);
        assert(rest.drop_first() =~= pv.skip(i + 1));
        let p = &pieces[i];
        if p.len() == 0 || eq_str(p, ",") {
        } else if eq_str(p, "...") {
            assert(seqs_of(out@) + Seq::<Seq<char>>::empty() =~= seqs_of(out@));
            return out;
        } else {
            let ghost before = seqs_of(out@);
            out.push(slice_all(p));
            assert(seqs_of(out@) =~= before.push(rest[0]));
            assert(before + (seq![rest[0]] + names_of(pv.skip(i + 1))) =~= seqs_of(out@) + names_of(pv.skip(i + 1)));
        }
        i += 1;
    }
    assert(pv.skip(i as int) =~= Seq::<Seq<char>>::empty());
    assert(seqs_of(out@) + Seq::<Seq<char>>::empty() =~= seqs_of(out@));
    out
}

fn contains_chars(list: &Vec<Vec<char>>, s: &Vec<char>) -> (b: bool)
    ensures
        b == seqs_of(list@).contains(s@),
{
    let mut i: usize = 0;
    while i < list.len()
        invariant
            i <= list@.len(),
            forall|j: int| 0 <= j < i ==> list@[j]@ != s@,
        decreases list@.len() - i,
    {
        if same_chars(&list[i], s) {
            assert(seqs_of(list@)[i as int] == s@);
            return true;
        }
        i += 1;
    }
    assert forall|j: int| 0 <= j < seqs_of(list@).len() implies seqs_of(list@)[j] != s@ by {
        assert(seqs_of(list@)[j] == list@[j]@);
    }
    false
}

fn same_chars(a: &Vec<char>, b: &Vec<char>) -> (r: bool)
    ensures
        r == (a@ == b@),
{
    if a.len() != b.len() {
        return false;
    }
    let mut i: usize = 0;
    while i < a.len()
        invariant
            i <= a.len(),
            a.len() == b.len(),
            forall|j: int| 0 <= j < i ==> a@[j] == b@[j],
        decreases a.len() - i,
    {
        if a[i] != b[i] {
            return false;
        }
        i += 1;
    }
    assert(a@ =~= b@);
    true
}

fn unlisted_names(known: Vec<Vec<char>>, names: &Vec<Vec<char>>) -> (r: Vec<Vec<char>>)
    ensures
        seqs_of(r@) == unlisted(seqs_of(known@), seqs_of(names@)),
{
    let ghost k0 = seqs_of(known@);
    let ghost nv = seqs_of(names@);
    let mut known = known;
    let mut out: Vec<Vec<char>> = Vec::new();
    let mut i: usize = 0;
    assert(nv.skip(0) =~= nv);
    assert(seqs_of(known@) =~= k0 + seqs_of(out@));
    while i < names.len()
        invariant
            i <= names@.len(),
            nv == seqs_of(names@),
            seqs_of(known@) == k0 + seqs_of(out@),
            seqs_of(out@) + unlisted(seqs_of(known@), nv.skip(i as int)) == unlisted(k0, nv),
        decreases names@.len() - i,
    {
        let ghost rest = nv.skip(i as int);
        assert(rest[0] == names@[i as int]@);
        assert(rest.drop_first() =~= nv.skip(i + 1));
        if !contains_chars(&known, &names[i]) {
            let ghost before = seqs_of(out@);
            let ghost kb = seqs_of(known@);
            out.push(slice_all(&names[i]));
            known.push(slice_all(&names[i]));
            assert(seqs_of(out@) =~= before.push(rest[0]));
            assert(seqs_of(known@) =~= kb.push(rest[0]));
            assert(before + (seq![rest[0]] + unlisted(kb.push(rest[0]), nv.skip(i + 1))) =~= seqs_of(out@) + unlisted(seqs_of(known@), nv.skip(i + 1)));
        }
        i += 1;
    }
    assert(nv.skip(i as int) =~= Seq::<Seq<char>>::empty());
    assert(seqs_of(out@) + Seq::<Seq<char>>::empty() =~= seqs_of(out@));
    out
}

/// Reads the creators from the `a.author` and `div.author_area` elements of a homepage of a
/// webtoon of type `t`; see [`creators_of`].
pub fn creators_from(linked: &Vec<Element>, area: &Vec<Element>, t: Type) -> (r: Result<Vec<Creator>, Assumption>)
    ensures
        match creators_of(elements_view(linked@), elements_view(area@), t) {
            Some(cs) => r matches Ok(v) && creators_view(v@) == cs,
            None => r is Err,
        },
{
    let ghost lv = elements_view(linked@);
    let ghost av = elements_view(area@);
    let mut creators: Vec<Creator> = Vec::new();
    let mut known: Vec<Vec<char>> = Vec::new();
    let mut i: usize = 0;
    while i < linked.len()
        invariant
            i <= linked@.len(),
            lv == elements_view(linked@),
            creators@.len() == i,
            known@.len() == i,
            forall|j: int| 0 <= j < i ==> #[trigger] linked_creator(lv[j]) is Some,
            forall|j: int| 0 <= j < i ==> (#[trigger] creators@[j]).username@ == account_name(lv[j])
                && (creators@[j].profile matches Some(p) && p@ == account_profile(lv[j])),
            forall|j: int| 0 <= j < i ==> #[trigger] known@[j]@ == account_name(lv[j]),
        decreases linked@.len() - i,
    {
        assert(lv[i as int] == linked@[i as int]@);
        let c = match linked_from(&linked[i]) {
            Ok(c) => c,
            Err(e) => {
                assert(!all_linked(lv));
                return Err(e);
            },
        };
        known.push(chars_of(c.username.as_str()));
        creators.push(c);
        i += 1;
    }
    assert(all_linked(lv));
    let ghost accounts = Seq::new(lv.len(), |j: int| linked_creator(lv[j])->0);
    let ghost known_view = Seq::new(lv.len(), |j: int| accounts[j].0);
    assert(seqs_of(known@) =~= known_view);
    let names = if area.len() == 0 {
        Vec::new()
    } else {
        assert(av[0] == area@[0]@);
        assert(av[0].children =~= area@[0].children@.map_values(|n: Node| n@));
        let pieces = name_pieces_of(&area[0].children);
        names_from_pieces(&pieces)
    };
    assert(seqs_of(names@) =~= area_names(av));
    let others = unlisted_names(known, &names);
    let ghost ov = seqs_of(others@);
    let ghost first = creators@;
    let mut k: usize = 0;
    while k < others.len()
        invariant
            k <= others@.len(),
            ov == seqs_of(others@),
            creators@.len() == first.len() + k,
            forall|j: int| 0 <= j < first.len() ==> #[trigger] creators@[j] == first[j],
            forall|j: int| 0 <= j < k ==> (#[trigger] creators@[first.len() + j]).username@ == ov[j]
                && creators@[first.len() + j].profile is None,
        decreases others@.len() - k,
    {
        creators.push(Creator { username: string_from_chars(&others[k]), profile: None });
        k += 1;
    }
    let ghost all = Seq::new(accounts.len(), |j: int| (accounts[j].0, Some(accounts[j].1)))
        + Seq::new(ov.len(), |j: int| (ov[j], None::<Seq<char>>));
    assert(creators_view(creators@) =~= all) by {
        assert forall|j: int| 0 <= j < creators@.len() implies #[trigger] creators_view(creators@)[j] == all[j] by {
            if j < first.len() {
                assert(creators@[j] == first[j]);
            } else {
                assert(creators@[first.len() + (j - first.len())] == creators@[j]);
            }
        }
    }
    let ok = match t {
        Type::Original => creators.len() > 0,
        Type::Canvas => creators.len() == 1,
    };
    if !ok {
        return Err(internal("`webtoons.com` Webtoon homepages should list one creator for a Canvas webtoon and some for an Original"));
    }
    Ok(creators)
}

/// What a Webtoon's homepage says about it.
#[derive(Debug)]
pub struct Homepage {
    /// The title.
    pub title: String,
    /// The creators.
    pub creators: Vec<Creator>,
    /// The genres, one or two.
    pub genres: Vec<Genre>,
    /// The summary.
    pub summary: String,
    /// How many views it has.
    pub views: u64,
    /// How many subscribe to it.
    pub subscribers: u32,
    /// The release schedule, for an Original.
    pub schedule: Option<Schedule>,
    /// The thumbnail's address, for a Canvas webtoon.
    pub thumbnail: Option<String>,
    /// The banner's address, for an Original.
    pub banner: Option<String>,
    /// How many pages its episode list has.
    pub pages: u16,
}

/// The elements of the homepage `html` that the selector `css` matches.
pub open spec fn sel(html: Seq<char>, css: &str) -> Seq<ElementView> {
    selected(html, css@)
}

/// The views count the first `em.cnt` element of a homepage gives.
pub open spec fn views_of(cnt: Seq<ElementView>) -> Option<int> {
    if cnt.len() >= 1 {
        views_value(cnt[0].inner_html)
    } else {
        None
    }
}

/// The subscribers count the second `em.cnt` element of a homepage gives.
pub open spec fn subscribers_of(cnt: Seq<ElementView>) -> Option<int> {
    if cnt.len() >= 2 {
        subscribers_value(cnt[1].inner_html)
    } else {
        None
    }
}

/// Whether every selector the homepage is read with is one scraper accepts.
pub open spec fn selectors_valid() -> bool {
    &&& css_valid(".subj"@)
    &&& css_valid("a.author"@)
    &&& css_valid("div.author_area"@)
    &&& css_valid(".info>.genre"@)
    &&& css_valid("em.cnt"@)
    &&& css_valid("p.summary"@)
    &&& css_valid("p.day_info"@)
    &&& css_valid(".thmb>img"@)
    &&& css_valid("li._episodeItem>a>span.tx"@)
}

/// Whether the homepage `html` of a webtoon in `scope` can be read: each part is present
/// and well formed, and an Original names exactly one genre.
pub open spec fn homepage_ok(html: Seq<char>, scope: Scope) -> bool {
    let t = if scope is Canvas { Type::Canvas } else { Type::Original };
    &&& selectors_valid()
    &&& title_of(sel(html, ".subj")) is Some
    &&& creators_of(sel(html, "a.author"), sel(html, "div.author_area"), t) is Some
    &&& genres_of(sel(html, ".info>.genre")) is Some
    &&& (scope is Original ==> (genres_of(sel(html, ".info>.genre")) matches Some(g) && g.len() == 1))
    &&& summary_of(sel(html, "p.summary")) is Some
    &&& (views_of(sel(html, "em.cnt")) matches Some(v) && v <= u64::MAX)
    &&& (subscribers_of(sel(html, "em.cnt")) matches Some(v) && v <= u32::MAX)
    &&& (scope is Original ==> schedule_ok(sel(html, "p.day_info")))
    &&& image_of(sel(html, ".thmb>img")) is Some
    &&& total_pages_of(sel(html, "li._episodeItem>a>span.tx")) is Some
}

/// Whether `h` is what the homepage `html` of a webtoon in `scope` says.
pub open spec fn homepage_is(html: Seq<char>, scope: Scope, h: Homepage) -> bool {
    let t = if scope is Canvas { Type::Canvas } else { Type::Original };
    &&& title_of(sel(html, ".subj")) == Some(h.title@)
    &&& creators_of(sel(html, "a.author"), sel(html, "div.author_area"), t) == Some(creators_view(h.creators@))
    &&& genres_of(sel(html, ".info>.genre")) == Some(h.genres@)
    &&& summary_of(sel(html, "p.summary")) == Some(h.summary@)
    &&& views_of(sel(html, "em.cnt")) == Some(h.views as int)
    &&& subscribers_of(sel(html, "em.cnt")) == Some(h.subscribers as int)
    &&& match scope {
        Scope::Original(_) => h.schedule matches Some(s) && schedule_parts_of(sel(html, "p.day_info")) matches Some(parts)
            && schedule_from(parts, s) && h.thumbnail is None
            && (h.banner matches Some(b) && image_of(sel(html, ".thmb>img")) == Some(b@)),
        Scope::Canvas => h.schedule is None && h.banner is None
            && (h.thumbnail matches Some(b) && image_of(sel(html, ".thmb>img")) == Some(b@)),
    }
    &&& total_pages_of(sel(html, "li._episodeItem>a>span.tx")) == Some(h.pages)
}

fn selection(doc: &crate::stdx::html::Document, css: &str) -> (r: Result<Vec<Element>, Assumption>)
    ensures
        css_valid(css@) <==> r is Ok,
        r matches Ok(v) ==> elements_view(v@) == selected(doc@, css@),
{
    match parse_css(css) {
        Some(c) => Ok(select(doc, &c)),
        None => Err(internal("homepage selector should be a valid selector")),
    }
}

impl Homepage {
    /// Reads the homepage `html` of `webtoon`: title, creators, genres, summary, views,
    /// subscribers, schedule and banner (Originals) or thumbnail (Canvas), and how many
    /// pages its episode list has.
    ///
    /// Fails when any part is missing or malformed; see [`homepage_ok`].
    pub fn parse(html: &str, webtoon: &Webtoon) -> (r: Result<Homepage, Assumption>)
        ensures
            homepage_ok(html@, webtoon.scope) <==> r is Ok,
            r matches Ok(h) ==> homepage_is(html@, webtoon.scope, h),
    {
        let doc = parse_document(html);
        let t = webtoon.webtoon_type();
        let subj = selection(&doc, ".subj")?;
        let authors = selection(&doc, "a.author")?;
        let area = selection(&doc, "div.author_area")?;
        let genre = selection(&doc, ".info>.genre")?;
        let cnt = selection(&doc, "em.cnt")?;
        let summary_els = selection(&doc, "p.summary")?;
        let day_info = selection(&doc, "p.day_info")?;
        let thmb = selection(&doc, ".thmb>img")?;
        let episode_items = selection(&doc, "li._episodeItem>a>span.tx")?;
        let title = title_from(&subj)?;
        let creators = creators_from(&authors, &area, t)?;
        let genres = genres_from(&genre)?;
        if let Scope::Original(_) = webtoon.scope {
            if genres.len() != 1 {
                return Err(internal("`webtoons.com` Original should have exactly one genre"));
            }
        }
        let summary = summary_from(&summary_els)?;
        let ghost cv = elements_view(cnt@);
        if cnt.len() < 1 {
            return Err(internal("first `em.cnt` element on `webtoons.com` Webtoon homepage should be present for views"));
        }
        assert(cv[0] == cnt@[0]@);
        let views = views_from_text(cnt[0].inner_html.as_str())?;
        if cnt.len() < 2 {
            return Err(internal("second `em.cnt` element on `webtoons.com` Webtoon homepage should be present for subscribers"));
        }
        assert(cv[1] == cnt@[1]@);
        let subscribers = subscribers_from_text(cnt[1].inner_html.as_str())?;
        let (schedule, thumbnail, banner) = match webtoon.scope {
            Scope::Original(_) => {
                let schedule = schedule_from_elements(&day_info)?;
                let banner = image_from(&thmb)?;
                (Some(schedule), None, Some(banner))
            },
            Scope::Canvas => {
                let thumbnail = image_from(&thmb)?;
                (None, Some(thumbnail), None)
            },
        };
        let pages = total_pages_from(&episode_items)?;
        Ok(Homepage { title, creators, genres, summary, views, subscribers, schedule, thumbnail, banner, pages })
    }
}

/// The page count covers the latest episode exactly: with `n` episodes listed per page
/// and the latest numbered `latest`, the pages before the last hold fewer than `latest`
/// episodes and all pages together hold at least `latest`.
pub proof fn lemma_total_pages_cover(els: Seq<ElementView>)
    requires
        total_pages_of(els) is Some,
        els.len() > 0,
    ensures
        ({
            let latest = parse_decimal(strip_leading(trim(els[0].texts[0]), "#"@), u16::MAX as nat)->Ok_0;
            let pages = total_pages_of(els)->0;
            &&& (pages - 1) * els.len() < latest
            &&& latest <= pages * els.len()
        }),
{
    let latest = parse_decimal(strip_leading(trim(els[0].texts[0]), "#"@), u16::MAX as nat)->Ok_0;
    lemma_bucket_bounds(latest, els.len());
}

proof fn lemma_unlisted_fresh(known: Seq<Seq<char>>, names: Seq<Seq<char>>)
    ensures
        forall|i: int| 0 <= i < unlisted(known, names).len() ==> !known.contains(#[trigger] unlisted(known, names)[i]),
        forall|i: int, j: int| 0 <= i < j < unlisted(known, names).len() ==> #[trigger] unlisted(known, names)[i] != #[trigger] unlisted(known, names)[j],
    decreases names.len(),
{
    if names.len() == 0 {
        assert(unlisted(known, names).len() == 0);
    } else {
        let n = names[0];
        if known.contains(n) {
            lemma_unlisted_fresh(known, names.drop_first());
            assert(unlisted(known, names) == unlisted(known, names.drop_first()));
        } else {
            let k2 = known.push(n);
            let rest = unlisted(k2, names.drop_first());
            lemma_unlisted_fresh(k2, names.drop_first());
            let u = unlisted(known, names);
            assert(u == seq![n] + rest);
            assert forall|i: int| 0 <= i < u.len() implies !known.contains(#[trigger] u[i]) by {
                if i > 0 {
                    assert(u[i] == rest[i - 1]);
                    assert(!k2.contains(rest[i - 1]));
                    if known.contains(u[i]) {
                        let w = choose|w: int| 0 <= w < known.len() && known[w] == u[i];
                        assert(k2[w] == known[w]);
                    }
                }
            }
            assert forall|i: int, j: int| 0 <= i < j < u.len() implies #[trigger] u[i] != #[trigger] u[j] by {
                if i == 0 {
                    assert(u[j] == rest[j - 1]);
                    assert(!k2.contains(rest[j - 1]));
                    assert(k2[known.len() as int] == n);
                } else {
                    assert(u[i] == rest[i - 1] && u[j] == rest[j - 1]);
                }
            }
        }
    }
}

/// The creators a homepage lists are each listed once among those without an account, and
/// none of them repeats a creator with an account: a name seen before is skipped.
pub proof fn lemma_creators_unlisted_once(linked: Seq<ElementView>, area: Seq<ElementView>, t: Type)
    requires
        creators_of(linked, area, t) is Some,
    ensures
        ({
            let cs = creators_of(linked, area, t)->0;
            forall|i: int, j: int| 0 <= i < j < cs.len() && cs[j].1 is None ==> #[trigger] cs[i].0 != #[trigger] cs[j].0
        }),
{
    let accounts = Seq::new(linked.len(), |i: int| linked_creator(linked[i])->0);
    let known = Seq::new(linked.len(), |i: int| accounts[i].0);
    let others = unlisted(known, area_names(area));
    lemma_unlisted_fresh(known, area_names(area));
    let cs = creators_of(linked, area, t)->0;
    let n = accounts.len();
    assert forall|i: int, j: int| 0 <= i < j < cs.len() && cs[j].1 is None implies #[trigger] cs[i].0 != #[trigger] cs[j].0 by {
        assert(j >= n);
        assert(cs[j].0 == others[j - n]);
        if i < n {
            assert(cs[i].0 == known[i]);
            assert(known.contains(known[i]));
        } else {
            assert(cs[i].0 == others[i - n]);
        }
    }
}


/// The date format of the episode list: `Jan 3, 2024`.
pub open spec fn list_date_format() -> Seq<char> {
    "%b %e, %Y"@
}

/// The year of a date.
pub open spec fn year_of(d: DateOrDateTime) -> i32 {
    match d {
        DateOrDateTime::Date { year, .. } => year,
        DateOrDateTime::DateTime { year, .. } => year,
    }
}

/// The title of an entry of the episode list, from its `span.subj>span` elements: the
/// first one's first text, trimmed, which must not be empty, with its character references
/// decoded.
pub open spec fn list_title_of(subj: Seq<ElementView>) -> Option<Seq<char>> {
    if subj.len() > 0 && subj[0].texts.len() > 0 && trim(subj[0].texts[0]).len() > 0 {
        Some(html_entities_decoded(trim(subj[0].texts[0])))
    } else {
        None
    }
}

/// The number of an entry of the episode list: its `data-episode-no`, as a `u16`.
pub open spec fn list_number_of(li: ElementView) -> Option<u16> {
    match attr_of(li.attrs, "data-episode-no"@) {
        Some(v) => match parse_decimal(v, u16::MAX as nat) {
            Ok(n) => Some(n as u16),
            Err(_) => None,
        },
        None => None,
    }
}

/// The publication date of an entry of the episode list, from its `span.date` elements: the
/// first one's first text, trimmed, read in [`list_date_format`]; `webtoons.com` opened in
/// 2014, so an earlier year is not accepted.
pub open spec fn list_date_of(date: Seq<ElementView>) -> Option<DateOrDateTime> {
    if date.len() > 0 && date[0].texts.len() > 0 {
        match date_parsed(trim(date[0].texts[0]), list_date_format()) {
            Some(d) => if year_of(d) >= 2014 {
                Some(d)
            } else {
                None
            },
            None => None,
        }
    } else {
        None
    }
}

/// Whether an entry of the episode list can be read.
pub open spec fn list_episode_ok(li: ElementView, subj: Seq<ElementView>, date: Seq<ElementView>) -> bool {
    &&& list_title_of(subj) is Some
    &&& list_number_of(li) is Some
    &&& list_date_of(date) is Some
}

/// Whether `e` is the episode an entry of the episode list describes. The list says nothing
/// of views, ads or seasons; every listed episode is published.
pub open spec fn list_episode_is(li: ElementView, subj: Seq<ElementView>, date: Seq<ElementView>, e: Episode) -> bool {
    &&& list_title_of(subj) matches Some(t) && e.title matches Some(et) && et@ == t
    &&& list_number_of(li) == Some(e.number)
    &&& list_date_of(date) matches Some(d) && e.published == Some(Published(d))
    &&& e.season is None
    &&& e.views is None
    &&& e.ad_status is None
    &&& e.published_status == Some(PublishedStatus::Published)
}

/// Reads an entry of the episode list: the `li` element, and the `span.subj>span` and
/// `span.date` elements inside it.
pub fn list_episode_from(li: &Element, subj: &Vec<Element>, date: &Vec<Element>) -> (r: Result<Episode, Assumption>)
    ensures
        list_episode_ok(li@, elements_view(subj@), elements_view(date@)) <==> r is Ok,
        r matches Ok(e) ==> list_episode_is(li@, elements_view(subj@), elements_view(date@), e),
{
    let ghost sv = elements_view(subj@);
    let ghost dv = elements_view(date@);
    if subj.len() == 0 {
        return Err(internal("`span.subj>span` element should be present on `webtoons.com` Webtoon episode list"));
    }
    assert(sv[0] == subj@[0]@);
    if subj[0].texts.len() == 0 {
        return Err(internal("`span.subj>span` element on `webtoons.com` Webtoon episode list should contain text"));
    }
    assert(sv[0].texts[0] == subj@[0].texts@[0]@);
    let raw = chars_of(subj[0].texts[0].as_str());
    let trimmed = trim_chars(raw.as_slice());
    if trimmed.len() == 0 {
        return Err(internal("`span.subj>span` element on `webtoons.com` Webtoon episode list should never be empty"));
    }
    let t = string_from_chars(trimmed.as_slice());
    let title = decode_html_entities(t.as_str());
    let number = match attr_value(&li.attrs, "data-episode-no") {
        Some(v) => {
            let vc = chars_of(v.as_str());
            match parse_u16(vc.as_slice()) {
                Ok(n) => n,
                Err(e) => return Err(Assumption::unparsed("`data-episode-no` attribute on `webtoons.com` Webtoon episode list should be parseable as a `u16`", &vc, e)),
            }
        },
        None => return Err(internal("`li` element on `webtoons.com` Webtoon episode list should always have a `data-episode-no` attribute")),
    };
    if date.len() == 0 {
        return Err(internal("`span.date` element should be present on `webtoons.com` Webtoon episode list"));
    }
    assert(dv[0] == date@[0]@);
    if date[0].texts.len() == 0 {
        return Err(internal("`span.date` element on `webtoons.com` Webtoon episode list should contain text"));
    }
    assert(dv[0].texts[0] == date@[0].texts@[0]@);
    let draw = chars_of(date[0].texts[0].as_str());
    let dtrim = trim_chars(draw.as_slice());
    let dtext = string_from_chars(dtrim.as_slice());
    let d = match parse_date(dtext.as_str(), "%b %e, %Y") {
        Some(d) => d,
        None => return Err(internal("`webtoons.com` Webtoon episode date should be parseable with format `%b %e, %Y`")),
    };
    if d.year() < 2014 {
        return Err(internal("`webtoons.com` episode publish year should be 2014 or later"));
    }
    Ok(Episode {
        number,
        title: Some(title),
        season: None,
        published: Some(Published(d)),
        views: None,
        ad_status: None,
        published_status: Some(PublishedStatus::Published),
    })
}

/// Whether every selector the episode list is read with is one scraper accepts.
pub open spec fn list_selectors_valid() -> bool {
    &&& css_valid("li._episodeItem"@)
    &&& css_valid("span.subj>span"@)
    &&& css_valid("span.date"@)
}

/// The entries of the episode list of the homepage `html`.
pub open spec fn list_items(html: Seq<char>) -> Seq<ElementView> {
    selected(html, "li._episodeItem"@)
}

/// The `span.subj>span` elements inside each entry of the episode list of `html`.
pub open spec fn list_titles(html: Seq<char>) -> Seq<Seq<ElementView>> {
    selected_within(html, "li._episodeItem"@, "span.subj>span"@)
}

/// The `span.date` elements inside each entry of the episode list of `html`.
pub open spec fn list_dates(html: Seq<char>) -> Seq<Seq<ElementView>> {
    selected_within(html, "li._episodeItem"@, "span.date"@)
}

/// Whether entry `i` of the episode list of `html` can be read.
pub open spec fn listed_ok(html: Seq<char>, i: int) -> bool {
    list_episode_ok(list_items(html)[i], list_titles(html)[i], list_dates(html)[i])
}

/// Whether `e` is the episode entry `i` of the episode list of `html` describes.
pub open spec fn listed_is(html: Seq<char>, i: int, e: Episode) -> bool {
    list_episode_is(list_items(html)[i], list_titles(html)[i], list_dates(html)[i], e)
}

/// The entries of the episode list of a parsed homepage, with the title and date elements
/// inside each.
struct Listing {
    items: Vec<Element>,
    titles: Vec<Vec<Element>>,
    dates: Vec<Vec<Element>>,
}

fn listing(doc: &crate::stdx::html::Document) -> (r: Result<Listing, Assumption>)
    ensures
        list_selectors_valid() <==> r is Ok,
        r matches Ok(l) ==> {
            &&& elements_view(l.items@) == list_items(doc@)
            &&& groups_view(l.titles@) == list_titles(doc@)
            &&& groups_view(l.dates@) == list_dates(doc@)
            &&& l.titles@.len() == l.items@.len()
            &&& l.dates@.len() == l.items@.len()
        },
{
    let li = match parse_css("li._episodeItem") {
        Some(c) => c,
        None => return Err(internal("`li._episodeItem` should be a valid selector")),
    };
    let subj = match parse_css("span.subj>span") {
        Some(c) => c,
        None => return Err(internal("`span.subj>span` should be a valid selector")),
    };
    let date = match parse_css("span.date") {
        Some(c) => c,
        None => return Err(internal("`span.date` should be a valid selector")),
    };
    let items = select(doc, &li);
    let titles = select_within(doc, &li, &subj);
    let dates = select_within(doc, &li, &date);
    proof {
        assert(elements_view(items@).len() == items@.len());
    }
    Ok(Listing { items, titles, dates })
}

fn listed_entry(l: &Listing, i: usize) -> (r: Result<Episode, Assumption>)
    requires
        i < l.items@.len(),
        l.titles@.len() == l.items@.len(),
        l.dates@.len() == l.items@.len(),
    ensures
        list_episode_ok(l.items@[i as int]@, elements_view(l.titles@[i as int]@), elements_view(l.dates@[i as int]@)) <==> r is Ok,
        r matches Ok(e) ==> list_episode_is(l.items@[i as int]@, elements_view(l.titles@[i as int]@), elements_view(l.dates@[i as int]@), e),
{
    list_episode_from(&l.items[i], &l.titles[i], &l.dates[i])
}

/// Reads every entry of the episode list on one page of a webtoon's homepage, in the order
/// listed (newest first).
pub fn listed_episodes(html: &str) -> (r: Result<Vec<Episode>, Assumption>)
    ensures
        (list_selectors_valid() && forall|i: int| 0 <= i < list_items(html@).len() ==> listed_ok(html@, i)) <==> r is Ok,
        r matches Ok(v) ==> v@.len() == list_items(html@).len()
            && forall|i: int| 0 <= i < v@.len() ==> listed_is(html@, i, #[trigger] v@[i]),
{
    let doc = parse_document(html);
    let l = listing(&doc)?;
    let ghost iv = list_items(html@);
    let mut out: Vec<Episode> = Vec::new();
    let mut i: usize = 0;
    while i < l.items.len()
        invariant
            i <= l.items@.len(),
            doc@ == html@,
            elements_view(l.items@) == iv,
            iv == list_items(html@),
            groups_view(l.titles@) == list_titles(html@),
            groups_view(l.dates@) == list_dates(html@),
            l.titles@.len() == l.items@.len(),
            l.dates@.len() == l.items@.len(),
            out@.len() == i,
            forall|j: int| 0 <= j < i ==> listed_ok(html@, j),
            forall|j: int| 0 <= j < i ==> listed_is(html@, j, #[trigger] out@[j]),
        decreases l.items@.len() - i,
    {
        assert(iv[i as int] == l.items@[i as int]@);
        assert(list_titles(html@)[i as int] == elements_view(l.titles@[i as int]@));
        assert(list_dates(html@)[i as int] == elements_view(l.dates@[i as int]@));
        let e = match listed_entry(&l, i) {
            Ok(e) => e,
            Err(a) => {
                assert(!listed_ok(html@, i as int));
                return Err(a);
            },
        };
        out.push(e);
        i += 1;
    }
    Ok(out)
}

/// Reads the last entry of the episode list on a page of a webtoon's homepage; on the last
/// page, that is the webtoon's first episode.
pub fn last_listed_episode(html: &str) -> (r: Result<Episode, Assumption>)
    ensures
        (list_selectors_valid() && list_items(html@).len() > 0 && listed_ok(html@, list_items(html@).len() - 1)) <==> r is Ok,
        r matches Ok(e) ==> listed_is(html@, list_items(html@).len() - 1, e),
{
    let doc = parse_document(html);
    let l = listing(&doc)?;
    if l.items.len() == 0 {
        return Err(internal("`webtoons.com` Webtoon homepage should always have at least one episode for which to get a `first` episode"));
    }
    let last = l.items.len() - 1;
    assert(list_items(html@)[last as int] == l.items@[last as int]@);
    assert(list_titles(html@)[last as int] == elements_view(l.titles@[last as int]@));
    assert(list_dates(html@)[last as int] == elements_view(l.dates@[last as int]@));
    listed_entry(&l, last)
}

/// A page of a homepage's episode list picked at random, from 1 to `pages`.
pub fn random_page(pages: u16) -> (p: u16)
    requires
        pages >= 1,
    ensures
        1 <= p <= pages,
{
    let i = random_index(pages as usize);
    (i as u16) + 1
}

/// Reads an entry picked at random from the episode list on a page of a webtoon's homepage.
///
/// Fails when the page lists no episode; otherwise, whichever entry is picked, the result is
/// the episode it describes, and it succeeds whenever every entry can be read.
pub fn random_listed_episode(html: &str) -> (r: Result<Episode, Assumption>)
    ensures
        !list_selectors_valid() || list_items(html@).len() == 0 ==> r is Err,
        list_selectors_valid() && (forall|i: int| 0 <= i < list_items(html@).len() ==> listed_ok(html@, i))
            && list_items(html@).len() > 0 ==> r is Ok,
        r matches Ok(e) ==> exists|i: int| 0 <= i < list_items(html@).len() && listed_is(html@, i, e),
{
    let doc = parse_document(html);
    let l = listing(&doc)?;
    if l.items.len() == 0 {
        return Err(internal("`webtoons.com` Webtoon episode list page should always have at least one episode element"));
    }
    let idx = random_index(l.items.len());
    assert(list_items(html@)[idx as int] == l.items@[idx as int]@);
    assert(list_titles(html@)[idx as int] == elements_view(l.titles@[idx as int]@));
    assert(list_dates(html@)[idx as int] == elements_view(l.dates@[idx as int]@));
    let r = listed_entry(&l, idx);
    proof {
        if forall|i: int| 0 <= i < list_items(html@).len() ==> listed_ok(html@, i) {
            assert(listed_ok(html@, idx as int));
        }
        if r is Ok {
            assert(listed_is(html@, idx as int, r->Ok_0));
        }
    }
    r
}

/// The episodes of every page of the episode list, in order.
pub open spec fn all_listed(pages: Seq<Vec<Episode>>) -> Seq<Episode> {
    pages.map_values(|p: Vec<Episode>| p@).flatten()
}

/// Joins the episodes read from each page of the episode list, in order.
///
/// A public webtoon has at least one public episode and no more than `u16::MAX`; fails
/// otherwise.
pub fn all_listed_episodes(pages: Vec<Vec<Episode>>) -> (r: Result<Vec<Episode>, Assumption>)
    ensures
        (0 < all_listed(pages@).len() <= u16::MAX) <==> r is Ok,
        r matches Ok(v) ==> v@ == all_listed(pages@),
{
    let ghost total = all_listed(pages@);
    let mut rest = pages;
    let mut out: Vec<Episode> = Vec::new();
    while rest.len() > 0
        invariant
            out@ + all_listed(rest@) == total,
        decreases rest@.len(),
    {
        let ghost before = rest@;
        let mut page = rest.remove(0);
        assert(before.map_values(|p: Vec<Episode>| p@).drop_first() =~= rest@.map_values(|p: Vec<Episode>| p@));
        assert(before.map_values(|p: Vec<Episode>| p@).first() == page@);
        let ghost old_out = out@;
        out.append(&mut page);
        assert(out@ + all_listed(rest@) =~= old_out + all_listed(before));
    }
    assert(rest@.map_values(|p: Vec<Episode>| p@) =~= Seq::<Seq<Episode>>::empty());
    assert(out@ + Seq::<Episode>::empty() =~= out@);
    if out.len() == 0 {
        return Err(internal("public facing webtoons on `webtoons.com` should always have at least one public episode"));
    }
    if out.len() > 65535 {
        return Err(internal("`webtoons.com` Webtoon should not have more than 65,535 episodes"));
    }
    Ok(out)
}

} // verus!

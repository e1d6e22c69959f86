//! Regular expressions, compiled and run by the `regex` crate.
use crate::stdx::link::opt_string_view;
use vstd::prelude::*;

verus! {

/// `regex::Regex`, a compiled regular expression.
#[verifier::external_type_specification]
#[verifier::external_body]
pub struct ExRegex(regex::Regex);

/// Whether `regex::Regex::new` accepts `pattern`.
pub uninterp spec fn regex_valid(pattern: Seq<char>) -> bool;

/// The text of the group called `name` in the leftmost-first match of `pattern` in `text`
/// (`Regex::captures`, then `Captures::name`): `None` when nothing matches or the group
/// took no part in the match.
pub uninterp spec fn regex_named_capture(pattern: Seq<char>, text: Seq<char>, name: Seq<char>) -> Option<Seq<char>>;

/// A compiled regular expression, viewed as the pattern it was compiled from.
pub struct Pattern {
    re: regex::Regex,
    source: Ghost<Seq<char>>,
}

impl View for Pattern {
    type V = Seq<char>;

    closed spec fn view(&self) -> Seq<char> {
        self.source@
    }
}

/// Calls `regex::Regex::new`; `None` when it reports an error.
#[verifier::external_body]
pub(crate) fn compile(pattern: &str) -> (r: Option<Pattern>)
    ensures
        r is Some <==> regex_valid(pattern@),
        r matches Some(p) ==> p@ == pattern@,
{
    match regex::Regex::new(pattern) {
        Ok(re) => Some(Pattern { re, source: Ghost(pattern@) }),
        Err(_) => None,
    }
}

/// Calls `regex::Regex::captures` and takes the group called `name`.
#[verifier::external_body]
pub(crate) fn named_capture(p: &Pattern, text: &str, name: &str) -> (r: Option<String>)
    ensures
        opt_string_view(r) == regex_named_capture(p@, text@, name@),
{
    match p.re.captures(text) {
        Some(caps) => caps.name(name).map(|m| m.as_str().to_owned()),
        None => None,
    }
}

} // verus!

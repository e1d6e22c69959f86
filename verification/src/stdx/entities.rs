//! HTML character references, decoded by the `html-escape` crate.
use vstd::prelude::*;

verus! {

/// The text `html_escape::decode_html_entities` makes of `s`: named, decimal and
/// hexadecimal character references replaced by the characters they stand for.
pub uninterp spec fn html_entities_decoded(s: Seq<char>) -> Seq<char>;

/// Calls `html_escape::decode_html_entities`.
#[verifier::external_body]
pub(crate) fn decode_html_entities(s: &str) -> (r: String)
    ensures
        r@ == html_entities_decoded(s@),
{
    html_escape::decode_html_entities(s).into_owned()
}

} // verus!

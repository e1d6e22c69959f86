//! The answer of the subscribe and unsubscribe endpoints.
use vstd::prelude::*;

verus! {

/// The body of a subscription response.
#[derive(Debug)]
pub struct Response {
    /// Whether the request succeeded.
    pub success: bool,
    /// Whether the webtoon is now among the session's favorites.
    pub favorite: bool,
}

} // verus!

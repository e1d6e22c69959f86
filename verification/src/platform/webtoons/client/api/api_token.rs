//! The answer of the endpoint that hands out an API token for a session.
use vstd::prelude::*;

verus! {

/// The body of an API token response.
#[derive(Debug)]
pub struct ApiToken {
    /// `"success"` when a token was issued.
    pub status: String,
    /// The issued token.
    pub result: Token,
}

/// An issued API token.
#[derive(Debug)]
pub struct Token {
    /// The token itself.
    pub token: String,
}

} // verus!

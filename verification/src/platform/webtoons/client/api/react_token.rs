//! The answer of the endpoint that hands out a token for reacting to posts.
use vstd::prelude::*;

verus! {

/// The body of a react-token response.
#[derive(Debug)]
pub struct ReactToken {
    /// What was issued.
    pub result: ReactResult,
    /// Whether the request succeeded.
    pub success: bool,
}

/// What a react-token request issued.
#[derive(Debug)]
pub struct ReactResult {
    /// The token for a guest, if one was issued.
    pub guest_token: Option<String>,
    /// When it was issued, in milliseconds since the epoch.
    pub timestamp: Option<i64>,
    /// The status code the platform reported.
    pub status_code: Option<u16>,
}

} // verus!

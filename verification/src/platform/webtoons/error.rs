//! Errors of the `webtoons.com` platform that the library decides itself.
use crate::stdx::error::Assumption;
use vstd::prelude::*;

verus! {

/// A `webtoons.com` Webtoon homepage address that could not be read.
///
/// Given how exact the format is, this error is a message carrier that says which
/// expectation was violated.
#[derive(Debug)]
pub enum InvalidWebtoonUrl {
    /// The address is not on the English site.
    UnsupportedLanguage,
    /// The address has an unexpected layout.
    Malformed {
        /// The address, as parsed.
        url: String,
        /// Which expectation it violated.
        reason: String,
    },
}

impl InvalidWebtoonUrl {
    /// The text this error displays.
    pub fn to_string(&self) -> (s: String)
        ensures
            match self {
                InvalidWebtoonUrl::UnsupportedLanguage => s@ == "only the english `webtoons.com` is supported"@,
                InvalidWebtoonUrl::Malformed { url, reason } => s@ == "`"@ + url@ + "` was malformed: "@ + reason@,
            },
    {
        match self {
            InvalidWebtoonUrl::UnsupportedLanguage => "only the english `webtoons.com` is supported".to_owned(),
            InvalidWebtoonUrl::Malformed { url, reason } => {
                let mut s = "`".to_owned();
                s.append(url.as_str());
                s.append("` was malformed: ");
                s.append(reason.as_str());
                s
            },
        }
    }
}

/// Why looking a webtoon up by its id failed.
#[derive(Debug)]
pub enum ClientError {
    /// `webtoons.com` answered with a page that is not on the English site.
    UnsupportedLanguage,
    /// `webtoons.com` answered with an address this library does not expect.
    Internal(Assumption),
}

} // verus!

//! What the session's user is to one webtoon.
use vstd::prelude::*;

verus! {

/// The body of the webtoon user-info endpoint.
#[derive(Debug)]
pub struct WebtoonUserInfo {
    author: bool,
    /// Whether the session's user has rated the webtoon.
    pub favorite: bool,
}

impl WebtoonUserInfo {
    /// Builds the value the endpoint answered with.
    pub fn new(author: bool, favorite: bool) -> (w: Self)
        ensures
            w.is_webtoon_creator_spec() == author,
            w.did_rate_spec() == favorite,
    {
        Self { author, favorite }
    }

    /// Whether the session's user is a creator of the webtoon.
    pub closed spec fn is_webtoon_creator_spec(&self) -> bool {
        self.author
    }

    /// Whether the session's user is a creator of the webtoon.
    pub fn is_webtoon_creator(&self) -> (b: bool)
        ensures
            b == self.is_webtoon_creator_spec(),
    {
        self.author
    }

    /// Whether the session's user has rated the webtoon.
    pub closed spec fn did_rate_spec(&self) -> bool {
        self.favorite
    }

    /// Whether the session's user has rated the webtoon.
    pub fn did_rate(&self) -> (b: bool)
        ensures
            b == self.did_rate_spec(),
    {
        self.favorite
    }
}

} // verus!

//! The items a `webtoons.com` search finds.
use crate::platform::webtoons::meta::Type;
use vstd::prelude::*;

verus! {

/// A single item of a search result.
#[derive(Debug)]
pub struct Item {
    /// The webtoon's id.
    pub id: u32,
    /// Whether it is an Original or a Canvas webtoon.
    pub webtoon_type: Type,
    /// Its title.
    pub title: String,
    /// The address of its thumbnail.
    pub thumbnail: String,
    /// The name of its writer.
    pub creator: String,
}

impl Item {
    /// The id of the webtoon.
    pub fn id(&self) -> (id: u32)
        ensures
            id == self.id,
    {
        self.id
    }

    /// Whether the webtoon is an Original or a Canvas webtoon.
    pub fn webtoon_type(&self) -> (t: Type)
        ensures
            t == self.webtoon_type,
    {
        self.webtoon_type
    }

    /// The title of the webtoon.
    pub fn title(&self) -> (t: &str)
        ensures
            t@ == self.title@,
    {
        self.title.as_str()
    }

    /// The address of the webtoon's thumbnail.
    pub fn thumbnail(&self) -> (t: &str)
        ensures
            t@ == self.thumbnail@,
    {
        self.thumbnail.as_str()
    }

    /// The name of the webtoon's writer.
    pub fn creator(&self) -> (c: &str)
        ensures
            c@ == self.creator@,
    {
        self.creator.as_str()
    }
}

} // verus!

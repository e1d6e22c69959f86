//! The shapes of the JSON bodies that `webtoons.com`'s endpoints answer with, and what is
//! made of them.
pub mod analytics;
pub mod api_token;
pub mod creator_webtoons;
pub mod likes;
pub mod posts;

pub mod react_token;
pub mod search;
pub mod subscription;
pub mod user_info;
pub mod webtoon_user_info;

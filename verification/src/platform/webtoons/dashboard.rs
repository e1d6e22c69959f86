//! What a creator's dashboards on `webtoons.com` show.
pub mod episodes;
pub mod statistics;

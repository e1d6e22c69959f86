//! Supported webtoon platforms.
pub mod webtoons;

//! An abstraction for the `webtoons.com` website.
pub mod canvas;
pub mod meta;
pub mod originals;
pub mod webtoon;

pub use meta::{Genre, Type};
pub mod client;
pub mod creator;
pub mod dashboard;
pub mod error;
pub mod search;

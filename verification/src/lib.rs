//! Typed access to `webtoons.com` data, with the parsing and decision logic verified.
pub mod platform;
pub mod stdx;

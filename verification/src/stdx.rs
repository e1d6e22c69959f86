//! Small building blocks shared by the platform modules.
pub mod base36;
pub mod cache;
pub mod entities;
pub mod error;
pub mod hint;
pub mod html;
pub mod http;
pub mod link;
pub mod math;
pub mod num;
pub mod pattern;
pub mod random;
pub mod serde;
pub mod text;
pub mod time;

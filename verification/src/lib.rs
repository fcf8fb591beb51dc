//! Reverse image search: request construction and response normalization for
//! several upstream engines, collapsed into one result schema.
//!
//! The library does no I/O. An engine builds the requests of its protocol
//! and reads the responses; the caller's transport carries them out.

pub mod dom;
pub mod engines;
pub mod error;
pub mod json;
pub mod network;
pub mod numeric;
pub mod pattern;
pub mod text;
pub mod types;
pub mod utils;

pub use engines::ascii2d::Ascii2d;
pub use engines::google::Google;
pub use engines::google_lens::GoogleLens;
pub use engines::iqdb::Iqdb;
pub use engines::saucenao::SauceNao;
pub use engines::soutubot::Soutubot;
pub use engines::yandex::Yandex;
pub use engines::ImageSearch;
pub use error::Error;
pub use types::{AdditionalInfo, SearchEngine, SearchOptions, SearchResult, Similarity};

//! A network-aware fetch cache: decide between fresh remote data and the last
//! cached copy, and keep fetched data for later use without a connection.
//!
//! The crate holds the decisions and the cache file format. Reading the
//! clock and handling JSON go through the small trusted wrappers of `clock`
//! and `json`; network and file access are requests that the caller performs
//! and answers.
//!
//! - `probe`: the connectivity check, probe by probe.
//! - `fetch`: `fetch_with_fallback` and `force_refresh`, step by step.
//! - `store`: saving, loading, clearing and listing cache entries.
//! - `directory`: what those operations do to a cache directory.
//! - `entry`, `files`: the text of a cache file, and its name.
//! - `model`, `messages`: results, statuses and errors, and what errors say.
pub mod clock;
pub mod directory;
pub mod entry;
pub mod fetch;
pub mod files;
pub mod json;
pub mod messages;
pub mod model;
pub mod probe;
pub mod store;
pub mod text;

pub use model::{FetchResult, NetworkStatus};

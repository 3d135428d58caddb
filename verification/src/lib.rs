//! Model acquisition and session binding.
//!
//! Maps a logical model identifier to its remote source and on-disk cache
//! location, drives a corruption-safe streaming fetch through an explicit
//! protocol state, and binds the obtained model bytes to an ordered set of
//! execution providers.
//!
//! All network and filesystem work is performed by a thin driver outside this
//! library; the library supplies the decisions (cache hit or fetch, which
//! paths, when to commit) and accounts for every byte that passes through.

pub mod disk;
pub mod error;
pub mod fetch;
pub mod loader;
pub mod model;
pub mod providers;
pub mod session;
pub mod text;

//! A caching accessor for a single configuration value backed by a text file.
//!
//! A [`source::FileSource`] owns a file path, a cached parsed value and a
//! last-refresh timestamp. Callers hand it the outcome of reading the backing
//! file together with the current time; the source decides whether the cache
//! is stale, re-parses when it is, and otherwise returns the cached value.

pub mod parse;
pub mod source;
pub mod text;

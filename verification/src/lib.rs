//! A line-filtering colorizer: each input line is cleared of terminal escape
//! sequences, tested against one regular expression, and rendered as the bytes
//! to write, with the matching line (or only the matched span) wrapped in
//! colour control sequences.

pub mod color;
pub mod config;
pub mod error;
pub mod highlight;
pub mod pattern;
pub mod strip;

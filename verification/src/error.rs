//! What can go wrong before the first line is read.

use vstd::prelude::*;

verus! {

/// Why a highlighter could not be set up.
#[derive(Debug)]
pub enum HighlightError {
    /// The pattern is not a regular expression that can be compiled.
    /// `pattern` is the text that was handed to the compiler, `message` the
    /// compiler's own words.
    InvalidPattern { pattern: String, message: String },
    /// Neither a foreground nor a background colour was given.
    InvalidArguments,
}

} // verus!

//! Compiled patterns: a regular expression together with the text it was
//! compiled from, and the searches the highlighter runs on it.

use crate::error::HighlightError;
use regex::Regex;
use vstd::prelude::*;
use vstd::string::StringExecFns;
use vstd::utf8::encode_utf8;

verus! {

/// `regex::Regex`, a compiled regular expression.
#[verifier::external_type_specification]
#[verifier::external_body]
pub struct ExRegex(Regex);

/// `regex::Error`, the reason a pattern was not compiled.
#[verifier::external_type_specification]
#[verifier::external_body]
pub struct ExRegexError(regex::Error);

/// Whether `Regex::new` compiles `source`: whether the text is a valid regular
/// expression that stays within the compiler's limits.
pub uninterp spec fn compiles(source: Seq<char>) -> bool;

/// What `Regex::find` returns for the regular expression compiled from
/// `pattern` on `haystack`: the byte offsets of the first match, start
/// inclusive and end exclusive, or `None` where there is no match.
pub uninterp spec fn first_match(pattern: Seq<char>, haystack: Seq<char>) -> Option<(usize, usize)>;

/// What `Regex::replace_all` returns for the regular expression compiled from
/// `pattern` on `haystack` with the empty replacement: the haystack without
/// its matches.
pub uninterp spec fn without_matches(pattern: Seq<char>, haystack: Seq<char>) -> Seq<char>;

/// The span of the first match of `pattern` in `haystack`, as the searches of
/// a compiled pattern report it: `first_match`, read as a span only where it
/// lies within the haystack's bytes, as every span that a search returns
/// does.
pub open spec fn located(pattern: Seq<char>, haystack: Seq<char>) -> Option<(usize, usize)> {
    match first_match(pattern, haystack) {
        Some((start, end)) => if start <= end <= encode_utf8(haystack).len() {
            Some((start, end))
        } else {
            None
        },
        None => None,
    }
}

/// The haystack with every match of `pattern` removed in one pass, as
/// `remove_all` returns it: the haystack itself where it holds no match, else
/// `without_matches`.
pub open spec fn removed(pattern: Seq<char>, haystack: Seq<char>) -> Seq<char> {
    if first_match(pattern, haystack) is None {
        haystack
    } else {
        without_matches(pattern, haystack)
    }
}

/// The text that is compiled for a pattern: the pattern itself, behind the
/// inline flag `(?i)` where case is to be ignored.
pub open spec fn effective_pattern(pattern: Seq<char>, ignore_case: bool) -> Seq<char> {
    if ignore_case {
        "(?i)"@ + pattern
    } else {
        pattern
    }
}

/// A regular expression ready to search with. Its view is the text it was
/// compiled from: the two fields are set together, once, when the text is
/// compiled, and never changed.
pub struct CompiledPattern {
    source: String,
    matcher: Regex,
}

impl View for CompiledPattern {
    type V = Seq<char>;

    closed spec fn view(&self) -> Seq<char> {
        self.source@
    }
}

/// Calls `Regex::new` on `source` and keeps the text beside the compiled
/// expression. Trusted: whether it succeeds is `compiles` of the text, and a
/// compiled pattern's view is the text handed in.
#[verifier::external_body]
fn regex_new(source: String) -> (built: Result<CompiledPattern, regex::Error>)
    ensures
        built is Ok <==> compiles(source@),
        built matches Ok(compiled) ==> compiled@ == source@,
{
    match Regex::new(&source) {
        Ok(matcher) => Ok(CompiledPattern { source, matcher }),
        Err(e) => Err(e),
    }
}

/// Formats a `regex::Error` with its `Display` impl. Nothing is claimed about
/// the text.
#[verifier::external_body]
fn regex_error_message(error: &regex::Error) -> (message: String) {
    format!("{}", error)
}

/// Calls `Regex::find` and hands out the match's `start()` and `end()`.
/// Trusted: the result is `first_match` of the pattern's text and the
/// haystack, and a span satisfies `start <= end <= haystack.len()`.
#[verifier::external_body]
fn regex_find(pattern: &CompiledPattern, haystack: &str) -> (found: Option<(usize, usize)>)
    ensures
        found == first_match(pattern@, haystack@),
        found matches Some((start, end)) ==> start <= end <= encode_utf8(haystack@).len(),
{
    pattern.matcher.find(haystack).map(|m| (m.start(), m.end()))
}

/// Calls `Regex::replace_all` with the empty replacement. Trusted: the result
/// is `without_matches` of the pattern's text and the haystack; it is the
/// haystack itself where that holds no match; and, being made of the pieces
/// of the haystack between the matches, it is no longer than the haystack.
#[verifier::external_body]
fn regex_remove_all(pattern: &CompiledPattern, haystack: &str) -> (rest: String)
    ensures
        rest@ == without_matches(pattern@, haystack@),
        first_match(pattern@, haystack@) is None ==> rest@ == haystack@,
        rest@.len() <= haystack@.len(),
{
    pattern.matcher.replace_all(haystack, "").into_owned()
}

/// The text to compile for a pattern.
pub fn effective_source(pattern: &str, ignore_case: bool) -> (source: String)
    ensures
        source@ == effective_pattern(pattern@, ignore_case),
{
    if ignore_case {
        let mut source = String::from_str("(?i)");
        source.append(pattern);
        source
    } else {
        String::from_str(pattern)
    }
}

impl CompiledPattern {
    /// Turns the compiler's answer for `source` into the library's: a
    /// compiled pattern is passed on, a failure becomes `InvalidPattern`
    /// with the text that was refused.
    pub fn from_build(source: &str, built: Result<CompiledPattern, regex::Error>) -> (made: Result<
        CompiledPattern,
        HighlightError,
    >)
        ensures
            built matches Ok(compiled) ==> made == Ok::<CompiledPattern, HighlightError>(compiled),
            built is Err ==> (made matches Err(HighlightError::InvalidPattern { pattern, .. })
                && pattern@ == source@),
    {
        match built {
            Ok(compiled) => Ok(compiled),
            Err(error) => Err(
                HighlightError::InvalidPattern {
                    pattern: String::from_str(source),
                    message: regex_error_message(&error),
                },
            ),
        }
    }

    /// Compiles `pattern`, for the whole expression without regard to case
    /// where `ignore_case` is set. It succeeds exactly where the effective
    /// text compiles; the pattern made searches with that text, and a text
    /// that does not compile is reported as `InvalidPattern`.
    pub fn compile(pattern: &str, ignore_case: bool) -> (made: Result<CompiledPattern, HighlightError>)
        ensures
            made is Ok <==> compiles(effective_pattern(pattern@, ignore_case)),
            made matches Ok(compiled) ==> compiled@ == effective_pattern(pattern@, ignore_case),
            made matches Err(e) ==> (e matches HighlightError::InvalidPattern { pattern: refused, .. }
                && refused@ == effective_pattern(pattern@, ignore_case)),
    {
        let source = effective_source(pattern, ignore_case);
        let kept = source.clone();
        let built = regex_new(source);
        CompiledPattern::from_build(kept.as_str(), built)
    }

    /// The text this pattern was compiled from.
    pub fn source(&self) -> (text: &str)
        ensures
            text@ == self@,
    {
        self.source.as_str()
    }

    /// Whether the pattern matches anywhere in `line`.
    pub fn is_match(&self, line: &str) -> (yes: bool)
        ensures
            yes == (first_match(self@, line@) is Some),
            yes == (located(self@, line@) is Some),
    {
        regex_find(self, line).is_some()
    }

    /// The byte offsets of the first match in `line`, start inclusive and end
    /// exclusive. Later matches are not looked for.
    pub fn find_first(&self, line: &str) -> (found: Option<(usize, usize)>)
        ensures
            found == first_match(self@, line@),
            found == located(self@, line@),
            found matches Some((start, end)) ==> start <= end <= encode_utf8(line@).len(),
    {
        regex_find(self, line)
    }

    /// `line` without the matches of this pattern, removed in one pass from
    /// left to right.
    pub fn remove_all(&self, line: &str) -> (rest: String)
        ensures
            rest@ == removed(self@, line@),
            rest@.len() <= line@.len(),
    {
        regex_remove_all(self, line)
    }
}

} // verus!

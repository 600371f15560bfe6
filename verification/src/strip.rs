//! Removal of terminal escape sequences from a line.

use crate::error::HighlightError;
use crate::pattern::{compiles, first_match, removed, CompiledPattern};
use vstd::prelude::*;
use vstd::string::{StringExecFns, StringSliceAdditionalSpecFns};
use vstd::utf8::encode_utf8;

verus! {

/// The regular expression of an escape sequence: ESC, `[`, any number of
/// digits and semicolons, then one ASCII letter.
pub open spec fn escape_pattern() -> Seq<char> {
    "\x1b\\[(\\d|;)*[a-zA-Z]"@
}

/// Whether a line holds an escape sequence.
pub open spec fn has_escape(line: Seq<char>) -> bool {
    first_match(escape_pattern(), line) is Some
}

/// The line after at most `passes` removals of its escape sequences, each
/// made only while one is left. Removing a sequence can bring the pieces of
/// another together, which the next pass removes. A line that still holds a
/// sequence when the passes are used up gives the empty line.
pub open spec fn stripped_within(line: Seq<char>, passes: nat) -> Seq<char>
    decreases passes,
{
    if !has_escape(line) {
        line
    } else if passes == 0 {
        Seq::empty()
    } else {
        stripped_within(removed(escape_pattern(), line), (passes - 1) as nat)
    }
}

/// The line with its escape sequences removed, pass after pass until none is
/// left, within as many passes as the line has bytes.
pub open spec fn stripped(line: Seq<char>) -> Seq<char> {
    stripped_within(line, encode_utf8(line).len())
}

/// Whether a stripper can be made: the expression of an escape sequence
/// compiles, and finds nothing in the empty line.
pub open spec fn escape_pattern_usable() -> bool {
    compiles(escape_pattern()) && !has_escape(Seq::empty())
}

/// Removes escape sequences from lines. It holds the compiled expression of
/// an escape sequence, made once and used for every line.
pub struct AnsiStripper {
    pattern: CompiledPattern,
}

impl AnsiStripper {
    /// The pattern held is that of an escape sequence, and the empty line
    /// holds no escape sequence.
    #[verifier::type_invariant]
    pub closed spec fn wf(self) -> bool {
        self.pattern@ == escape_pattern() && !has_escape(Seq::empty())
    }

    /// Compiles the expression of an escape sequence and tries it on the
    /// empty line. A stripper is made exactly where the expression is usable;
    /// otherwise it is reported as `InvalidPattern`.
    pub fn new() -> (made: Result<AnsiStripper, HighlightError>)
        ensures
            made is Ok <==> escape_pattern_usable(),
            made matches Ok(stripper) ==> stripper.wf(),
            made matches Err(e) ==> (e matches HighlightError::InvalidPattern { pattern, .. }
                && pattern@ == escape_pattern()),
    {
        match CompiledPattern::compile("\x1b\\[(\\d|;)*[a-zA-Z]", false) {
            Ok(pattern) => {
                proof {
                    reveal_strlit("");
                    assert(""@ =~= Seq::<char>::empty());
                }
                if pattern.is_match("") {
                    Err(
                        HighlightError::InvalidPattern {
                            pattern: String::from_str("\x1b\\[(\\d|;)*[a-zA-Z]"),
                            message: String::from_str("an escape sequence is found in the empty line"),
                        },
                    )
                } else {
                    Ok(AnsiStripper { pattern })
                }
            },
            Err(e) => Err(e),
        }
    }

    /// Whether `line` holds an escape sequence.
    pub fn holds_escape(&self, line: &str) -> (yes: bool)
        ensures
            yes == has_escape(line@),
    {
        proof {
            use_type_invariant(self);
        }
        self.pattern.is_match(line)
    }

    /// The line without escape sequences: they are removed pass after pass
    /// until none is left. The result holds no escape sequence and is no
    /// longer than the line; a line that holds none comes back unchanged.
    pub fn strip_ansi_escapes(&self, line: &str) -> (clean: String)
        ensures
            clean@ == stripped(line@),
            !has_escape(clean@),
            !has_escape(line@) ==> clean@ == line@,
            clean@.len() <= line@.len(),
    {
        proof {
            use_type_invariant(self);
        }
        let mut clean = String::from_str(line);
        let mut passes: usize = line.as_bytes().len();
        let mut dirty = self.pattern.is_match(clean.as_str());
        while dirty && passes > 0
            invariant
                self.pattern@ == escape_pattern(),
                dirty == has_escape(clean@),
                stripped_within(clean@, passes as nat) == stripped(line@),
                clean@.len() <= line@.len(),
            decreases passes,
        {
            clean = self.pattern.remove_all(clean.as_str());
            passes -= 1;
            dirty = self.pattern.is_match(clean.as_str());
        }
        if dirty {
            String::new()
        } else {
            clean
        }
    }
}

/// Within any number of passes, what is left of a line holds no escape
/// sequence.
proof fn lemma_stripped_within_is_clean(line: Seq<char>, passes: nat)
    requires
        !has_escape(Seq::empty()),
    ensures
        !has_escape(stripped_within(line, passes)),
    decreases passes,
{
    if has_escape(line) && passes > 0 {
        lemma_stripped_within_is_clean(removed(escape_pattern(), line), (passes - 1) as nat);
    }
}

/// A stripped line holds no escape sequence.
pub proof fn lemma_stripped_line_is_clean(stripper: AnsiStripper, line: Seq<char>)
    requires
        stripper.wf(),
    ensures
        !has_escape(stripped(line)),
{
    lemma_stripped_within_is_clean(line, encode_utf8(line).len());
}

/// A line without an escape sequence is its own stripped form.
pub proof fn lemma_strip_keeps_clean_line(line: Seq<char>)
    requires
        !has_escape(line),
    ensures
        stripped(line) == line,
{
}

/// Stripping twice is stripping once.
pub proof fn lemma_strip_idempotent(stripper: AnsiStripper, line: Seq<char>)
    requires
        stripper.wf(),
    ensures
        stripped(stripped(line)) == stripped(line),
{
    lemma_stripped_line_is_clean(stripper, line);
    lemma_strip_keeps_clean_line(stripped(line));
}

} // verus!

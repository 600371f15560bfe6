//! The line highlighter: what is written for each input line.

use crate::color::{lemma_sequences_hold_no_newline, resolve, ColorStyle};
use crate::config::Configuration;
use crate::error::HighlightError;
use crate::pattern::{compiles, effective_pattern, located, CompiledPattern};
use crate::strip::{escape_pattern, escape_pattern_usable, stripped, AnsiStripper};
use vstd::prelude::*;
use vstd::string::StringSliceAdditionalSpecFns;
use vstd::utf8::encode_utf8;

verus! {

/// The line terminator, a single line feed.
pub open spec fn newline() -> Seq<u8> {
    seq![0x0au8]
}

/// Whether a span lies within a line of `len` bytes.
pub open spec fn span_fits(found: Option<(usize, usize)>, len: nat) -> bool {
    found matches Some((start, end)) ==> start <= end <= len
}

/// The bytes written for one clean line, given the span of the first match.
///
/// A line without a match is written as it is, then a line feed. A matching
/// line is written between the style's set and reset sequences, then a line
/// feed; or, where only the match is to be coloured: the text before it, the
/// set sequence, the matched text, a line feed, the reset sequence, and the
/// text after it.
pub open spec fn line_output(
    clean: Seq<u8>,
    found: Option<(usize, usize)>,
    style: ColorStyle,
    only_matching: bool,
) -> Seq<u8> {
    match found {
        None => clean + newline(),
        Some((start, end)) => if only_matching {
            clean.subrange(0, start as int) + style.set_sequence() + clean.subrange(
                start as int,
                end as int,
            ) + newline() + style.reset_sequence() + clean.subrange(end as int, clean.len() as int)
        } else {
            style.set_sequence() + clean + style.reset_sequence() + newline()
        },
    }
}

/// Appends `bytes[from..to]` to `out`.
fn push_range(out: &mut Vec<u8>, bytes: &[u8], from: usize, to: usize)
    requires
        from <= to <= bytes@.len(),
    ensures
        final(out)@ == old(out)@ + bytes@.subrange(from as int, to as int),
{
    let mut i: usize = from;
    while i < to
        invariant
            from <= i <= to <= bytes@.len(),
            out@ == old(out)@ + bytes@.subrange(from as int, i as int),
        decreases to - i,
    {
        out.push(bytes[i]);
        i += 1;
        assert(out@ =~= old(out)@ + bytes@.subrange(from as int, i as int));
    }
}

/// Renders one clean line, given the span of the first match in it.
pub fn render_line(
    clean: &[u8],
    found: Option<(usize, usize)>,
    style: &ColorStyle,
    only_matching: bool,
) -> (out: Vec<u8>)
    requires
        span_fits(found, clean@.len()),
    ensures
        out@ == line_output(clean@, found, *style, only_matching),
{
    let mut out: Vec<u8> = Vec::new();
    match found {
        None => {
            push_range(&mut out, clean, 0, clean.len());
            out.push(0x0au8);
            assert(out@ =~= clean@ + newline());
        },
        Some((start, end)) => {
            let set = style.color_set();
            let reset = style.color_reset();
            if only_matching {
                push_range(&mut out, clean, 0, start);
                push_range(&mut out, set.as_slice(), 0, set.len());
                push_range(&mut out, clean, start, end);
                out.push(0x0au8);
                push_range(&mut out, reset.as_slice(), 0, reset.len());
                push_range(&mut out, clean, end, clean.len());
                assert(out@ =~= line_output(clean@, found, *style, only_matching));
            } else {
                push_range(&mut out, set.as_slice(), 0, set.len());
                push_range(&mut out, clean, 0, clean.len());
                push_range(&mut out, reset.as_slice(), 0, reset.len());
                out.push(0x0au8);
                assert(out@ =~= line_output(clean@, found, *style, only_matching));
            }
        },
    }
    out
}

/// The text reported where a highlighter cannot be made for the pattern text
/// `effective`: that text where it does not compile, else the expression of
/// an escape sequence.
pub open spec fn refused_text(effective: Seq<char>) -> Seq<char> {
    if compiles(effective) {
        escape_pattern()
    } else {
        effective
    }
}

/// Everything needed to process lines: the escape stripper, the compiled
/// pattern, the style and the mode.
pub struct Highlighter {
    stripper: AnsiStripper,
    pattern: CompiledPattern,
    style: ColorStyle,
    only_matching: bool,
}

impl Highlighter {
    /// The parts are well formed.
    #[verifier::type_invariant]
    pub closed spec fn wf(self) -> bool {
        self.stripper.wf() && self.style.wf()
    }

    /// The text of the pattern that lines are tested against.
    pub closed spec fn pattern(self) -> Seq<char> {
        self.pattern@
    }

    /// The style of a highlighted span.
    pub closed spec fn style(self) -> ColorStyle {
        self.style
    }

    /// Whether only the matched span is coloured, not the whole line.
    pub closed spec fn only_matching(self) -> bool {
        self.only_matching
    }

    /// The span of the first match in the stripped form of `line`.
    pub open spec fn span(self, line: Seq<char>) -> Option<(usize, usize)> {
        located(self.pattern(), stripped(line))
    }

    /// Whether the stripped form of `line` matches the pattern.
    pub open spec fn matches(self, line: Seq<char>) -> bool {
        self.span(line) is Some
    }

    /// The bytes written for `line`.
    pub open spec fn output(self, line: Seq<char>) -> Seq<u8> {
        line_output(
            encode_utf8(stripped(line)),
            self.span(line),
            self.style(),
            self.only_matching(),
        )
    }

    /// The bytes written for a run of lines: the output of each, in order.
    pub open spec fn outputs(self, lines: Seq<Seq<char>>) -> Seq<u8>
        decreases lines.len(),
    {
        if lines.len() == 0 {
            Seq::empty()
        } else {
            self.outputs(lines.drop_last()) + self.output(lines.last())
        }
    }

    /// A highlighter made of the given parts.
    pub fn from_parts(
        stripper: AnsiStripper,
        pattern: CompiledPattern,
        style: ColorStyle,
        only_matching: bool,
    ) -> (made: Highlighter)
        ensures
            made.wf(),
            made.pattern() == pattern@,
            made.style() == style,
            made.only_matching() == only_matching,
    {
        proof {
            use_type_invariant(&stripper);
            use_type_invariant(&style);
        }
        Highlighter { stripper, pattern, style, only_matching }
    }

    /// The highlighter that a configuration asks for. It is made exactly
    /// where the configured pattern compiles and the expression of an escape
    /// sequence is usable. The configured pattern is compiled first; the
    /// text that was refused is reported as `InvalidPattern`.
    pub fn new(config: &Configuration) -> (made: Result<Highlighter, HighlightError>)
        ensures
            made is Ok <==> compiles(effective_pattern(config@.pattern, config@.ignore_case))
                && escape_pattern_usable(),
            made matches Ok(h) ==> {
                &&& h.wf()
                &&& h.pattern() == effective_pattern(config@.pattern, config@.ignore_case)
                &&& h.style().fg() == resolve(config@.fg)
                &&& h.style().bg() == resolve(config@.bg)
                &&& h.style().colored()
                &&& h.only_matching() == config@.only_matching
            },
            made matches Err(e) ==> (e matches HighlightError::InvalidPattern { pattern, .. }
                && pattern@ == refused_text(
                effective_pattern(config@.pattern, config@.ignore_case),
            )),
    {
        let pattern = match CompiledPattern::compile(config.pattern(), config.ignore_case()) {
            Ok(pattern) => pattern,
            Err(e) => { return Err(e); },
        };
        let stripper = match AnsiStripper::new() {
            Ok(stripper) => stripper,
            Err(e) => { return Err(e); },
        };
        Ok(Highlighter::from_parts(stripper, pattern, config.style(), config.only_matching()))
    }

    /// Processes one line: strips its escape sequences, looks for the first
    /// match, and renders the result.
    pub fn process_line(&self, line: &str) -> (out: Vec<u8>)
        ensures
            out@ == self.output(line@),
    {
        let clean = self.stripper.strip_ansi_escapes(line);
        let found = self.pattern.find_first(clean.as_str());
        render_line(clean.as_str().as_bytes(), found, &self.style, self.only_matching)
    }

    /// Processes lines in order and returns all that is written for them.
    pub fn process_lines(&self, lines: &Vec<String>) -> (out: Vec<u8>)
        ensures
            out@ == self.outputs(lines.deep_view()),
    {
        let mut out: Vec<u8> = Vec::new();
        let mut i: usize = 0;
        while i < lines.len()
            invariant
                i <= lines.len(),
                out@ == self.outputs(lines.deep_view().take(i as int)),
            decreases lines.len() - i,
        {
            let piece = self.process_line(lines[i].as_str());
            push_range(&mut out, piece.as_slice(), 0, piece.len());
            i += 1;
            proof {
                let all = lines.deep_view();
                assert(all.take(i as int).drop_last() =~= all.take(i - 1));
                assert(all.take(i as int).last() == lines[i - 1]@);
                assert(piece@.subrange(0, piece@.len() as int) =~= piece@);
            }
        }
        proof {
            assert(lines.deep_view().take(i as int) =~= lines.deep_view());
        }
        out
    }
}

/// A line that does not match is written stripped and followed by a line
/// feed, with no control sequence.
pub proof fn lemma_unmatched_line(h: Highlighter, line: Seq<char>)
    requires
        !h.matches(line),
    ensures
        h.output(line) == encode_utf8(stripped(line)) + newline(),
{
}

/// A matching line, where the whole line is coloured, is written as the set
/// sequence, the stripped line, the reset sequence and a line feed; between
/// the two sequences stands the stripped line and nothing else.
pub proof fn lemma_matched_whole_line(h: Highlighter, line: Seq<char>)
    requires
        h.matches(line),
        !h.only_matching(),
    ensures
        h.output(line) == h.style().set_sequence() + encode_utf8(stripped(line))
            + h.style().reset_sequence() + newline(),
        h.output(line).subrange(
            h.style().set_sequence().len() as int,
            (h.style().set_sequence().len() + encode_utf8(stripped(line)).len()) as int,
        ) == encode_utf8(stripped(line)),
{
    let set = h.style().set_sequence();
    let clean = encode_utf8(stripped(line));
    assert(h.output(line).subrange(set.len() as int, (set.len() + clean.len()) as int) =~= clean);
}

/// A matching line, where only the match is coloured, is written as the text
/// before the match, the set sequence, the matched text, a line feed, the
/// reset sequence and the text after the match; the three pieces of text
/// make up the stripped line.
pub proof fn lemma_matched_span_only(h: Highlighter, line: Seq<char>)
    requires
        h.matches(line),
        h.only_matching(),
    ensures
        ({
            let clean = encode_utf8(stripped(line));
            let (start, end) = h.span(line).unwrap();
            let before = clean.subrange(0, start as int);
            let matched = clean.subrange(start as int, end as int);
            let after = clean.subrange(end as int, clean.len() as int);
            &&& start <= end <= clean.len()
            &&& before + matched + after == clean
            &&& h.output(line) == before + h.style().set_sequence() + matched + newline()
                + h.style().reset_sequence() + after
        }),
{
    let clean = encode_utf8(stripped(line));
    let (start, end) = h.span(line).unwrap();
    assert(clean.subrange(0, start as int) + clean.subrange(start as int, end as int)
        + clean.subrange(end as int, clean.len() as int) =~= clean);
}

/// Where only the match is coloured and the stripped line holds no line
/// feed, exactly one line feed is written, directly behind the matched text.
pub proof fn lemma_span_only_single_newline(h: Highlighter, line: Seq<char>)
    requires
        h.matches(line),
        h.only_matching(),
        !encode_utf8(stripped(line)).contains(0x0au8),
    ensures
        ({
            let (start, end) = h.span(line).unwrap();
            let at = h.style().set_sequence().len() + end;
            forall|i: int|
                0 <= i < h.output(line).len() ==> (#[trigger] h.output(line)[i] == 0x0au8 <==> i
                    == at)
        }),
{
    let clean = encode_utf8(stripped(line));
    let (start, end) = h.span(line).unwrap();
    let set = h.style().set_sequence();
    let reset = h.style().reset_sequence();
    let out = h.output(line);
    let at = set.len() + end;
    lemma_sequences_hold_no_newline(h.style());
    assert forall|i: int| 0 <= i < out.len() implies (#[trigger] out[i] == 0x0au8 <==> i
        == at) by {
        if i < start {
            assert(out[i] == clean[i]);
        } else if i < start + set.len() {
            assert(out[i] == set[i - start]);
        } else if i < at {
            assert(out[i] == clean[i - set.len()]);
        } else if i == at {
        } else if i < at + 1 + reset.len() {
            assert(out[i] == reset[i - at - 1]);
        } else {
            assert(out[i] == clean[i - set.len() - 1 - reset.len()]);
        }
    }
}

} // verus!

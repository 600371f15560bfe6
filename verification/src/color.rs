//! Colour names and their terminal colours.

use termcolor::{Ansi, Color, ColorSpec, WriteColor};
use vstd::prelude::*;

verus! {

/// `termcolor::Color`, the terminal colour a name resolves to.
#[verifier::external_type_specification]
pub struct ExColor(Color);

/// The eight colour names a user can choose from.
#[derive(Debug, Clone, Copy, PartialEq, Eq, Structural)]
pub enum ColorEnum {
    Black,
    Red,
    Green,
    Yellow,
    Blue,
    Cyan,
    White,
    Magenta,
}

/// The terminal colour that a name stands for.
pub open spec fn color_of(name: ColorEnum) -> Color {
    match name {
        ColorEnum::Black => Color::Black,
        ColorEnum::Red => Color::Red,
        ColorEnum::Green => Color::Green,
        ColorEnum::Yellow => Color::Yellow,
        ColorEnum::Blue => Color::Blue,
        ColorEnum::Cyan => Color::Cyan,
        ColorEnum::White => Color::White,
        ColorEnum::Magenta => Color::Magenta,
    }
}

/// Resolves a colour name to its terminal colour.
pub fn to_color(color_enum: &ColorEnum) -> (color: Color)
    ensures
        color == color_of(*color_enum),
{
    match color_enum {
        ColorEnum::Black => Color::Black,
        ColorEnum::Red => Color::Red,
        ColorEnum::Green => Color::Green,
        ColorEnum::Yellow => Color::Yellow,
        ColorEnum::Blue => Color::Blue,
        ColorEnum::Cyan => Color::Cyan,
        ColorEnum::White => Color::White,
        ColorEnum::Magenta => Color::Magenta,
    }
}

/// Whether a terminal colour is one of the eight standard ones.
pub open spec fn is_standard(color: Color) -> bool {
    color is Black || color is Red || color is Green || color is Yellow || color is Blue
        || color is Cyan || color is White || color is Magenta
}

/// The digit that selects a standard colour in a control sequence, as an
/// ASCII byte: `0` for black up to `7` for white. Other colours have no such
/// digit; for them this is `0`, and nothing is made of it.
pub open spec fn color_digit(color: Color) -> u8 {
    match color {
        Color::Black => 0x30u8,
        Color::Red => 0x31u8,
        Color::Green => 0x32u8,
        Color::Yellow => 0x33u8,
        Color::Blue => 0x34u8,
        Color::Magenta => 0x35u8,
        Color::Cyan => 0x36u8,
        Color::White => 0x37u8,
        _ => 0x30u8,
    }
}

/// `ESC [ 0 m`: restores the terminal's default rendering.
pub open spec fn sgr_reset() -> Seq<u8> {
    seq![0x1bu8, 0x5bu8, 0x30u8, 0x6du8]
}

/// `ESC [ 3 d m` for a foreground colour with digit `d`; nothing for none.
pub open spec fn sgr_foreground(fg: Option<Color>) -> Seq<u8> {
    match fg {
        Some(c) => seq![0x1bu8, 0x5bu8, 0x33u8, color_digit(c), 0x6du8],
        None => Seq::empty(),
    }
}

/// `ESC [ 4 d m` for a background colour with digit `d`; nothing for none.
pub open spec fn sgr_background(bg: Option<Color>) -> Seq<u8> {
    match bg {
        Some(c) => seq![0x1bu8, 0x5bu8, 0x34u8, color_digit(c), 0x6du8],
        None => Seq::empty(),
    }
}

/// Calls `termcolor::Ansi::set_color` on an in-memory writer, with a
/// `ColorSpec` that is new but for the two colours, and returns what was
/// written. Trusted: for standard colours that is a reset, then the
/// foreground sequence, then the background sequence.
#[verifier::external_body]
fn ansi_set_color(fg: Option<Color>, bg: Option<Color>) -> (bytes: Vec<u8>)
    requires
        fg matches Some(c) ==> is_standard(c),
        bg matches Some(c) ==> is_standard(c),
    ensures
        bytes@ == sgr_reset() + sgr_foreground(fg) + sgr_background(bg),
{
    let mut spec = ColorSpec::new();
    spec.set_fg(fg).set_bg(bg);
    let mut writer = Ansi::new(Vec::new());
    let _ = writer.set_color(&spec);
    writer.into_inner()
}

/// Calls `termcolor::Ansi::reset` on an in-memory writer and returns what was
/// written. Trusted: that is the reset sequence.
#[verifier::external_body]
fn ansi_reset() -> (bytes: Vec<u8>)
    ensures
        bytes@ == sgr_reset(),
{
    let mut writer = Ansi::new(Vec::new());
    let _ = writer.reset();
    writer.into_inner()
}

/// The terminal colour of an optional name.
pub open spec fn resolve(name: Option<ColorEnum>) -> Option<Color> {
    match name {
        Some(n) => Some(color_of(n)),
        None => None,
    }
}

/// The colours applied to every highlighted span.
#[derive(Debug, Clone, Copy)]
pub struct ColorStyle {
    fg: Option<Color>,
    bg: Option<Color>,
}

impl ColorStyle {
    /// Every colour of a style is a standard one.
    #[verifier::type_invariant]
    pub closed spec fn wf(self) -> bool {
        &&& self.fg matches Some(c) ==> is_standard(c)
        &&& self.bg matches Some(c) ==> is_standard(c)
    }

    /// The foreground colour, if any.
    pub closed spec fn fg(self) -> Option<Color> {
        self.fg
    }

    /// The background colour, if any.
    pub closed spec fn bg(self) -> Option<Color> {
        self.bg
    }

    /// Whether the style sets any colour at all.
    pub open spec fn colored(self) -> bool {
        self.fg() is Some || self.bg() is Some
    }

    /// The bytes that switch the terminal to this style: nothing for a style
    /// without colours, else a reset followed by the sequence of each colour.
    pub open spec fn set_sequence(self) -> Seq<u8> {
        if self.colored() {
            sgr_reset() + sgr_foreground(self.fg()) + sgr_background(self.bg())
        } else {
            Seq::empty()
        }
    }

    /// The bytes that end this style: nothing for a style without colours,
    /// else a reset.
    pub open spec fn reset_sequence(self) -> Seq<u8> {
        if self.colored() {
            sgr_reset()
        } else {
            Seq::empty()
        }
    }

    /// The style of the given colour names.
    pub fn new(fg: Option<ColorEnum>, bg: Option<ColorEnum>) -> (style: ColorStyle)
        ensures
            style.wf(),
            style.fg() == resolve(fg),
            style.bg() == resolve(bg),
    {
        let fg_color = match fg {
            Some(name) => Some(to_color(&name)),
            None => None,
        };
        let bg_color = match bg {
            Some(name) => Some(to_color(&name)),
            None => None,
        };
        ColorStyle { fg: fg_color, bg: bg_color }
    }

    /// Whether the style sets any colour at all.
    pub fn has_color(&self) -> (yes: bool)
        ensures
            yes == self.colored(),
    {
        self.fg.is_some() || self.bg.is_some()
    }

    /// The control sequence that sets this style.
    pub fn color_set(&self) -> (bytes: Vec<u8>)
        ensures
            bytes@ == self.set_sequence(),
    {
        proof {
            use_type_invariant(self);
        }
        if self.has_color() {
            ansi_set_color(self.fg, self.bg)
        } else {
            Vec::new()
        }
    }

    /// The control sequence that ends this style.
    pub fn color_reset(&self) -> (bytes: Vec<u8>)
        ensures
            bytes@ == self.reset_sequence(),
    {
        if self.has_color() {
            ansi_reset()
        } else {
            Vec::new()
        }
    }
}

/// No control sequence of a style holds a line feed.
pub proof fn lemma_sequences_hold_no_newline(style: ColorStyle)
    ensures
        !style.set_sequence().contains(0x0au8),
        !style.reset_sequence().contains(0x0au8),
{
    let reset = sgr_reset();
    let fg = sgr_foreground(style.fg());
    let bg = sgr_background(style.bg());
    assert forall|i: int| 0 <= i < reset.len() implies reset[i] != 0x0au8 by {}
    assert forall|i: int| 0 <= i < fg.len() implies fg[i] != 0x0au8 by {}
    assert forall|i: int| 0 <= i < bg.len() implies bg[i] != 0x0au8 by {}
    assert forall|i: int| 0 <= i < (reset + fg + bg).len() implies (reset + fg + bg)[i]
        != 0x0au8 by {}
}

/// Different names resolve to different terminal colours, each of them a
/// standard one.
pub proof fn lemma_resolution_is_injective(a: ColorEnum, b: ColorEnum)
    ensures
        is_standard(color_of(a)),
        color_of(a) == color_of(b) ==> a == b,
        color_digit(color_of(a)) == color_digit(color_of(b)) ==> a == b,
{
}

} // verus!

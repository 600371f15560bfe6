//! The validated settings of one run.

use crate::color::{resolve, ColorEnum, ColorStyle};
use crate::error::HighlightError;
use vstd::prelude::*;

verus! {

/// What a configuration holds, as plain values.
pub struct ConfigurationView {
    pub pattern: Seq<char>,
    pub ignore_case: bool,
    pub fg: Option<ColorEnum>,
    pub bg: Option<ColorEnum>,
    pub only_matching: bool,
}

impl ConfigurationView {
    /// At least one of the two colours is present.
    pub open spec fn has_color(self) -> bool {
        self.fg is Some || self.bg is Some
    }
}

/// The settings of one run. A value of this type always names at least one
/// colour: `new` is the only way to make one.
#[derive(Debug)]
pub struct Configuration {
    pattern: String,
    ignore_case: bool,
    fg: Option<ColorEnum>,
    bg: Option<ColorEnum>,
    only_matching: bool,
}

impl View for Configuration {
    type V = ConfigurationView;

    closed spec fn view(&self) -> ConfigurationView {
        ConfigurationView {
            pattern: self.pattern@,
            ignore_case: self.ignore_case,
            fg: self.fg,
            bg: self.bg,
            only_matching: self.only_matching,
        }
    }
}

impl Configuration {
    /// At least one of the two colours is present.
    #[verifier::type_invariant]
    pub closed spec fn wf(self) -> bool {
        self.fg is Some || self.bg is Some
    }

    /// Validates the settings: they are accepted exactly when a foreground or
    /// a background colour is given, and then kept as they are.
    pub fn new(
        pattern: String,
        ignore_case: bool,
        fg: Option<ColorEnum>,
        bg: Option<ColorEnum>,
        only_matching: bool,
    ) -> (made: Result<Configuration, HighlightError>)
        ensures
            made is Ok <==> fg is Some || bg is Some,
            made matches Ok(config) ==> config.wf() && config@ == (ConfigurationView {
                pattern: pattern@,
                ignore_case,
                fg,
                bg,
                only_matching,
            }),
            made matches Err(e) ==> e is InvalidArguments,
    {
        if fg.is_none() && bg.is_none() {
            Err(HighlightError::InvalidArguments)
        } else {
            Ok(Configuration { pattern, ignore_case, fg, bg, only_matching })
        }
    }

    /// The pattern text as given.
    pub fn pattern(&self) -> (text: &str)
        ensures
            text@ == self@.pattern,
    {
        self.pattern.as_str()
    }

    /// Whether the pattern is matched without regard to case.
    pub fn ignore_case(&self) -> (flag: bool)
        ensures
            flag == self@.ignore_case,
    {
        self.ignore_case
    }

    /// The name of the foreground colour, if any.
    pub fn fg(&self) -> (name: Option<ColorEnum>)
        ensures
            name == self@.fg,
    {
        self.fg
    }

    /// The name of the background colour, if any.
    pub fn bg(&self) -> (name: Option<ColorEnum>)
        ensures
            name == self@.bg,
    {
        self.bg
    }

    /// Whether only the matched span is coloured.
    pub fn only_matching(&self) -> (flag: bool)
        ensures
            flag == self@.only_matching,
    {
        self.only_matching
    }

    /// The style that the two colour names resolve to; it sets a colour.
    pub fn style(&self) -> (style: ColorStyle)
        ensures
            style.wf(),
            style.fg() == resolve(self@.fg),
            self@.has_color(),
            style.bg() == resolve(self@.bg),
            style.colored(),
    {
        proof {
            use_type_invariant(self);
        }
        ColorStyle::new(self.fg, self.bg)
    }
}

} // verus!

use colorline::color::{to_color, ColorEnum, ColorStyle};
use colorline::config::Configuration;
use colorline::error::HighlightError;
use termcolor::Color;

#[test]
fn to_color_covers_the_eight_names() {
    assert_eq!(to_color(&ColorEnum::Black), Color::Black);
    assert_eq!(to_color(&ColorEnum::Red), Color::Red);
    assert_eq!(to_color(&ColorEnum::Green), Color::Green);
    assert_eq!(to_color(&ColorEnum::Yellow), Color::Yellow);
    assert_eq!(to_color(&ColorEnum::Blue), Color::Blue);
    assert_eq!(to_color(&ColorEnum::Cyan), Color::Cyan);
    assert_eq!(to_color(&ColorEnum::White), Color::White);
    assert_eq!(to_color(&ColorEnum::Magenta), Color::Magenta);
}

#[test]
fn foreground_sequences() {
    let expect = [
        (ColorEnum::Black, "\x1b[0m\x1b[30m"),
        (ColorEnum::Red, "\x1b[0m\x1b[31m"),
        (ColorEnum::Green, "\x1b[0m\x1b[32m"),
        (ColorEnum::Yellow, "\x1b[0m\x1b[33m"),
        (ColorEnum::Blue, "\x1b[0m\x1b[34m"),
        (ColorEnum::Magenta, "\x1b[0m\x1b[35m"),
        (ColorEnum::Cyan, "\x1b[0m\x1b[36m"),
        (ColorEnum::White, "\x1b[0m\x1b[37m"),
    ];
    for (name, bytes) in expect {
        assert_eq!(ColorStyle::new(Some(name), None).color_set(), bytes.as_bytes());
    }
}

#[test]
fn background_sequences() {
    let expect = [
        (ColorEnum::Black, "\x1b[0m\x1b[40m"),
        (ColorEnum::Red, "\x1b[0m\x1b[41m"),
        (ColorEnum::Green, "\x1b[0m\x1b[42m"),
        (ColorEnum::Yellow, "\x1b[0m\x1b[43m"),
        (ColorEnum::Blue, "\x1b[0m\x1b[44m"),
        (ColorEnum::Magenta, "\x1b[0m\x1b[45m"),
        (ColorEnum::Cyan, "\x1b[0m\x1b[46m"),
        (ColorEnum::White, "\x1b[0m\x1b[47m"),
    ];
    for (name, bytes) in expect {
        assert_eq!(ColorStyle::new(None, Some(name)).color_set(), bytes.as_bytes());
    }
}

#[test]
fn both_colours_in_one_sequence() {
    let style = ColorStyle::new(Some(ColorEnum::Yellow), Some(ColorEnum::Blue));
    assert!(style.has_color());
    assert_eq!(style.color_set(), b"\x1b[0m\x1b[33m\x1b[44m");
    assert_eq!(style.color_reset(), b"\x1b[0m");
}

#[test]
fn reset_sequence_of_a_coloured_style() {
    assert_eq!(ColorStyle::new(Some(ColorEnum::Red), None).color_reset(), b"\x1b[0m");
    assert_eq!(ColorStyle::new(None, Some(ColorEnum::Red)).color_reset(), b"\x1b[0m");
}

#[test]
fn style_without_colour_has_empty_sequences() {
    let style = ColorStyle::new(None, None);
    assert!(!style.has_color());
    assert!(style.color_set().is_empty());
    assert!(style.color_reset().is_empty());
}

#[test]
fn configuration_needs_a_colour() {
    let made = Configuration::new("p".to_string(), false, None, None, false);
    assert!(matches!(made, Err(HighlightError::InvalidArguments)));
    let made = Configuration::new("p".to_string(), true, None, None, true);
    assert!(matches!(made, Err(HighlightError::InvalidArguments)));
}

#[test]
fn configuration_accepts_either_or_both_colours() {
    assert!(Configuration::new("p".to_string(), false, Some(ColorEnum::Red), None, false).is_ok());
    assert!(Configuration::new("p".to_string(), false, None, Some(ColorEnum::Red), false).is_ok());
    assert!(Configuration::new(
        "p".to_string(),
        false,
        Some(ColorEnum::Red),
        Some(ColorEnum::Blue),
        false
    )
    .is_ok());
}

#[test]
fn configuration_keeps_its_settings() {
    let config = Configuration::new(
        "a.c".to_string(),
        true,
        Some(ColorEnum::Cyan),
        Some(ColorEnum::White),
        true,
    )
    .unwrap();
    assert_eq!(config.pattern(), "a.c");
    assert!(config.ignore_case());
    assert_eq!(config.fg(), Some(ColorEnum::Cyan));
    assert_eq!(config.bg(), Some(ColorEnum::White));
    assert!(config.only_matching());
    assert_eq!(config.style().color_set(), b"\x1b[0m\x1b[36m\x1b[47m");
    let config = Configuration::new(String::new(), false, None, Some(ColorEnum::Green), false)
        .unwrap();
    assert_eq!(config.pattern(), "");
    assert!(!config.ignore_case());
    assert_eq!(config.fg(), None);
    assert_eq!(config.bg(), Some(ColorEnum::Green));
    assert!(!config.only_matching());
    assert_eq!(config.style().color_set(), b"\x1b[0m\x1b[42m");
}

//! Color mode, accessible styling and symbols.
//!
//! Styles are "dual coded": besides a color, each carries a modifier so
//! that it stays distinguishable in monochrome.

use vstd::prelude::*;
use crate::text::{chars_of, contains, contains_exec, str_eq};

verus! {

/// Color mode for rendering.
#[derive(Debug, Clone, Copy, PartialEq, Eq, Structural)]
pub enum ColorMode {
    /// Full color support.
    Color,
    /// Monochrome (`NO_COLOR` set, or a terminal without color).
    Monochrome,
}

/// Whether a terminal supports color, from the environment: never when
/// `NO_COLOR` is set; otherwise when `TERM` names a color terminal (it
/// holds one of "color", "ansi", "xterm", "screen", "tmux", "vt100",
/// "vt220", and neither "dumb" nor "DUMB"), or when `COLORTERM` is set to
/// something other than "", "0", "false" and "no". An unset variable reads
/// as empty.
pub open spec fn color_supported(no_color_set: bool, term: Seq<char>, colorterm: Seq<char>) -> bool {
    let has_color = !contains(term, "dumb"@) && !contains(term, "DUMB"@) && (contains(
        term,
        "color"@,
    ) || contains(term, "ansi"@) || contains(term, "xterm"@) || contains(term, "screen"@)
        || contains(term, "tmux"@) || contains(term, "vt100"@) || contains(term, "vt220"@));
    let has_colorterm = colorterm.len() > 0 && colorterm != "0"@ && colorterm != "false"@
        && colorterm != "no"@;
    !no_color_set && (has_color || has_colorterm)
}

/// The value of an environment variable, empty when unset.
pub open spec fn or_empty(v: Option<&str>) -> Seq<char> {
    match v {
        Some(s) => s@,
        None => Seq::empty(),
    }
}

fn holds(s: &Vec<char>, p: &str) -> (r: bool)
    ensures
        r == contains(s@, p@),
{
    let pv = chars_of(p);
    contains_exec(s, &pv)
}

/// Decides [`color_supported`] for the values of `NO_COLOR` (whether it is
/// set), `TERM` and `COLORTERM`.
pub fn term_supports_color(no_color_set: bool, term: Option<&str>, colorterm: Option<&str>) -> (r:
    bool)
    ensures
        r == color_supported(no_color_set, or_empty(term), or_empty(colorterm)),
{
    if no_color_set {
        return false;
    }
    let t: Vec<char> = match term {
        Some(s) => chars_of(s),
        None => Vec::new(),
    };
    let has_color = !holds(&t, "dumb") && !holds(&t, "DUMB") && (holds(&t, "color") || holds(&t, "ansi")
        || holds(&t, "xterm") || holds(&t, "screen") || holds(&t, "tmux") || holds(&t, "vt100") || holds(
        &t,
        "vt220",
    ));
    let has_colorterm = match colorterm {
        Some(c) => !c.is_empty() && !str_eq(c, "0") && !str_eq(c, "false") && !str_eq(c, "no"),
        None => false,
    };
    assert(t@ == or_empty(term));
    has_color || has_colorterm
}

impl ColorMode {
    /// The color mode for an environment: color exactly when
    /// [`color_supported`] holds of `NO_COLOR`, `TERM` and `COLORTERM`.
    pub fn detect(no_color_set: bool, term: Option<&str>, colorterm: Option<&str>) -> (r: Self)
        ensures
            r == (if color_supported(no_color_set, or_empty(term), or_empty(colorterm)) {
                ColorMode::Color
            } else {
                ColorMode::Monochrome
            }),
    {
        if term_supports_color(no_color_set, term, colorterm) {
            ColorMode::Color
        } else {
            ColorMode::Monochrome
        }
    }

    /// Whether this is monochrome mode.
    pub fn is_monochrome(&self) -> (r: bool)
        ensures
            r == (*self == ColorMode::Monochrome),
    {
        match self {
            ColorMode::Monochrome => true,
            ColorMode::Color => false,
        }
    }
}

/// A terminal color.
#[derive(Debug, Clone, Copy, PartialEq, Eq, Structural)]
pub enum Color {
    Black,
    Red,
    Green,
    Yellow,
    Cyan,
    Gray,
    DarkGray,
    White,
    /// A 24-bit color.
    Rgb(u8, u8, u8),
}

/// A text style: foreground and background colors and modifiers.
#[derive(Debug, Clone, Copy, PartialEq, Eq, Structural)]
pub struct TextStyle {
    pub fg: Option<Color>,
    pub bg: Option<Color>,
    pub bold: bool,
    pub italic: bool,
    pub underlined: bool,
}

impl TextStyle {
    /// The plain style: no colors, no modifiers.
    pub fn plain() -> (r: Self)
        ensures
            r == (TextStyle { fg: None, bg: None, bold: false, italic: false, underlined: false }),
    {
        TextStyle { fg: None, bg: None, bold: false, italic: false, underlined: false }
    }

    /// The plain style with the foreground `c`.
    pub fn fg_only(c: Color) -> (r: Self)
        ensures
            r == (TextStyle { fg: Some(c), bg: None, bold: false, italic: false, underlined: false }),
    {
        TextStyle { fg: Some(c), bg: None, bold: false, italic: false, underlined: false }
    }
}

/// Styling that adapts to the color mode.
pub struct AccessibleStyle {
    color_mode: ColorMode,
}

impl AccessibleStyle {
    /// The color mode styles are made for.
    pub closed spec fn mode(&self) -> ColorMode {
        self.color_mode
    }

    /// Styling for the color mode `color_mode` (the one detected from the
    /// environment, see [`ColorMode::detect`]).
    pub fn new(color_mode: ColorMode) -> (r: Self)
        ensures
            r.mode() == color_mode,
    {
        AccessibleStyle { color_mode }
    }

    /// The same styling for another color mode.
    pub fn with_color_mode(self, mode: ColorMode) -> (r: Self)
        ensures
            r.mode() == mode,
    {
        AccessibleStyle { color_mode: mode }
    }

    /// Primary color: cyan, gray in monochrome.
    pub fn primary_color(&self) -> (r: Color)
        ensures
            r == (if self.mode() == ColorMode::Color { Color::Cyan } else { Color::Gray }),
    {
        match self.color_mode {
            ColorMode::Color => Color::Cyan,
            ColorMode::Monochrome => Color::Gray,
        }
    }

    /// Success color: green, white in monochrome.
    pub fn success_color(&self) -> (r: Color)
        ensures
            r == (if self.mode() == ColorMode::Color { Color::Green } else { Color::White }),
    {
        match self.color_mode {
            ColorMode::Color => Color::Green,
            ColorMode::Monochrome => Color::White,
        }
    }

    /// Error color: red, white in monochrome.
    pub fn error_color(&self) -> (r: Color)
        ensures
            r == (if self.mode() == ColorMode::Color { Color::Red } else { Color::White }),
    {
        match self.color_mode {
            ColorMode::Color => Color::Red,
            ColorMode::Monochrome => Color::White,
        }
    }

    /// Warning color: yellow, white in monochrome.
    pub fn warning_color(&self) -> (r: Color)
        ensures
            r == (if self.mode() == ColorMode::Color { Color::Yellow } else { Color::White }),
    {
        match self.color_mode {
            ColorMode::Color => Color::Yellow,
            ColorMode::Monochrome => Color::White,
        }
    }

    /// Muted color: a dark gray.
    pub fn muted_color(&self) -> (r: Color)
        ensures
            r == (if self.mode() == ColorMode::Color {
                Color::Rgb(100, 100, 100)
            } else {
                Color::DarkGray
            }),
    {
        match self.color_mode {
            ColorMode::Color => Color::Rgb(100, 100, 100),
            ColorMode::Monochrome => Color::DarkGray,
        }
    }

    /// Primary style: the primary color, bold in monochrome.
    pub fn primary_style(&self) -> (r: TextStyle)
        ensures
            r.fg == Some(if self.mode() == ColorMode::Color { Color::Cyan } else { Color::Gray }),
            r.bg is None,
            r.bold == (self.mode() == ColorMode::Monochrome),
            !r.italic,
            !r.underlined,
    {
        let mut s = TextStyle::fg_only(self.primary_color());
        if self.color_mode.is_monochrome() {
            s.bold = true;
        }
        s
    }

    /// Success style: the success color, bold in monochrome, italic in
    /// color.
    pub fn success_style(&self) -> (r: TextStyle)
        ensures
            r.fg == Some(if self.mode() == ColorMode::Color { Color::Green } else { Color::White }),
            r.bg is None,
            r.bold == (self.mode() == ColorMode::Monochrome),
            r.italic == (self.mode() == ColorMode::Color),
            !r.underlined,
    {
        let mut s = TextStyle::fg_only(self.success_color());
        if self.color_mode.is_monochrome() {
            s.bold = true;
        } else {
            s.italic = true;
        }
        s
    }

    /// Error style: the error color, bold, and underlined in monochrome.
    pub fn error_style(&self) -> (r: TextStyle)
        ensures
            r.fg == Some(if self.mode() == ColorMode::Color { Color::Red } else { Color::White }),
            r.bg is None,
            r.bold,
            !r.italic,
            r.underlined == (self.mode() == ColorMode::Monochrome),
    {
        let mut s = TextStyle::fg_only(self.error_color());
        s.bold = true;
        if self.color_mode.is_monochrome() {
            s.underlined = true;
        }
        s
    }

    /// Warning style: the warning color, bold in monochrome.
    pub fn warning_style(&self) -> (r: TextStyle)
        ensures
            r.fg == Some(if self.mode() == ColorMode::Color { Color::Yellow } else { Color::White }),
            r.bg is None,
            r.bold == (self.mode() == ColorMode::Monochrome),
            !r.italic,
            !r.underlined,
    {
        let mut s = TextStyle::fg_only(self.warning_color());
        if self.color_mode.is_monochrome() {
            s.bold = true;
        }
        s
    }

    /// Focus style (for a selection): a dark background, bold.
    pub fn focus_style(&self) -> (r: TextStyle)
        ensures
            r.fg is None,
            r.bg == Some(if self.mode() == ColorMode::Monochrome {
                Color::DarkGray
            } else {
                Color::Rgb(50, 50, 100)
            }),
            r.bold,
            !r.italic,
            !r.underlined,
    {
        let bg = if self.color_mode.is_monochrome() {
            Color::DarkGray
        } else {
            Color::Rgb(50, 50, 100)
        };
        let mut s = TextStyle::plain();
        s.bg = Some(bg);
        s.bold = true;
        s
    }
}

/// Symbols for dual coding.
pub struct Symbols;

impl Symbols {
    /// Check mark for success.
    pub fn check() -> (r: &'static str)
        ensures
            r@ == "✓"@,
    {
        "✓"
    }

    /// Cross mark for an error.
    pub fn cross() -> (r: &'static str)
        ensures
            r@ == "✗"@,
    {
        "✗"
    }

    /// Warning triangle.
    pub fn warning() -> (r: &'static str)
        ensures
            r@ == "⚠"@,
    {
        "⚠"
    }

    /// Info sign.
    pub fn info() -> (r: &'static str)
        ensures
            r@ == "ℹ"@,
    {
        "ℹ"
    }

    /// Pointer for a selection.
    pub fn pointer() -> (r: &'static str)
        ensures
            r@ == "►"@,
    {
        "►"
    }

    /// Double pointer for the active item.
    pub fn pointer_double() -> (r: &'static str)
        ensures
            r@ == "▶"@,
    {
        "▶"
    }

    /// Horizontal ellipsis for "more".
    pub fn ellipsis() -> (r: &'static str)
        ensures
            r@ == "…"@,
    {
        "…"
    }

    /// ASCII stand-in for the check mark.
    pub fn check_ascii() -> (r: &'static str)
        ensures
            r@ == "[x]"@,
    {
        "[x]"
    }

    /// ASCII stand-in for the cross mark.
    pub fn cross_ascii() -> (r: &'static str)
        ensures
            r@ == "[ ]"@,
    {
        "[ ]"
    }

    /// ASCII stand-in for the pointer.
    pub fn pointer_ascii() -> (r: &'static str)
        ensures
            r@ == ">"@,
    {
        ">"
    }
}

} // verus!

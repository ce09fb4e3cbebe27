//! Adaptive layout for the terminal size, and the terminal's capabilities
//! (Unicode, color, size) as read from its environment.

use vstd::prelude::*;
use crate::text::{chars_of, contains, contains_exec, str_eq};
use crate::tui::components::style::{color_supported, term_supports_color};

verus! {

/// The environment variables that describe a terminal; `None` for one that
/// is unset (or not valid Unicode).
pub struct TermEnv {
    pub lang: Option<String>,
    pub lc_all: Option<String>,
    pub lc_ctype: Option<String>,
    pub term: Option<String>,
    /// Whether `NO_COLOR` is set.
    pub no_color: bool,
    pub colorterm: Option<String>,
}

/// The value of a variable, empty when unset.
pub open spec fn var_text(v: Option<String>) -> Seq<char> {
    match v {
        Some(s) => s@,
        None => Seq::empty(),
    }
}

/// Whether a locale value names UTF-8.
pub open spec fn names_utf8(v: Seq<char>) -> bool {
    contains(v, "UTF-8"@) || contains(v, "utf-8"@)
}

/// Whether the terminal shows Unicode: `LANG` (or, when it is unset,
/// `LC_ALL`) or `LC_CTYPE` names UTF-8, and `TERM` is not "dumb" or "DUMB".
pub open spec fn unicode_supported(env: &TermEnv) -> bool {
    let has_utf8 = match env.lang {
        Some(l) => names_utf8(l@),
        None => match env.lc_all {
            Some(l) => names_utf8(l@),
            None => false,
        },
    };
    let has_flag = match env.lc_ctype {
        Some(l) => names_utf8(l@),
        None => false,
    };
    let is_dumb = match env.term {
        Some(t) => t@ == "dumb"@ || t@ == "DUMB"@,
        None => false,
    };
    (has_utf8 || has_flag) && !is_dumb
}

fn utf8_named(v: &str) -> (r: bool)
    ensures
        r == names_utf8(v@),
{
    let c = chars_of(v);
    let a = chars_of("UTF-8");
    let b = chars_of("utf-8");
    contains_exec(&c, &a) || contains_exec(&c, &b)
}

fn opt_str(v: &Option<String>) -> (r: Option<&str>)
    ensures
        match v {
            Some(s) => r is Some && r->0@ == s@,
            None => r is None,
        },
{
    match v {
        Some(s) => Some(s.as_str()),
        None => None,
    }
}

/// What the terminal can do.
#[derive(Debug, Clone)]
pub struct TerminalCapabilities {
    pub unicode: bool,
    pub color: bool,
    pub too_small: bool,
    pub width: u16,
    pub height: u16,
}

impl TerminalCapabilities {
    /// The capabilities of a terminal of size `size` (80×24 when it could
    /// not be read) with the environment `env`: too small under 60×20,
    /// Unicode as [`unicode_supported`] says, color as [`color_supported`]
    /// says.
    pub fn detect(size: Option<(u16, u16)>, env: &TermEnv) -> (r: Self)
        ensures
            (r.width, r.height) == (match size {
                Some(s) => s,
                None => (80u16, 24u16),
            }),
            r.too_small == (r.width < 60 || r.height < 20),
            r.unicode == unicode_supported(env),
            r.color == color_supported(env.no_color, var_text(env.term), var_text(env.colorterm)),
    {
        let (width, height) = match size {
            Some(s) => s,
            None => (80u16, 24u16),
        };
        let unicode = Self::detect_unicode(env);
        let color = Self::detect_color(env);
        TerminalCapabilities { unicode, color, too_small: width < 60 || height < 20, width, height }
    }

    /// Decides [`unicode_supported`].
    pub fn detect_unicode(env: &TermEnv) -> (r: bool)
        ensures
            r == unicode_supported(env),
    {
        let has_utf8 = match &env.lang {
            Some(l) => utf8_named(l.as_str()),
            None => match &env.lc_all {
                Some(l) => utf8_named(l.as_str()),
                None => false,
            },
        };
        let has_flag = match &env.lc_ctype {
            Some(l) => utf8_named(l.as_str()),
            None => false,
        };
        let is_dumb = match &env.term {
            Some(t) => str_eq(t.as_str(), "dumb") || str_eq(t.as_str(), "DUMB"),
            None => false,
        };
        (has_utf8 || has_flag) && !is_dumb
    }

    /// Decides color support: see [`color_supported`].
    pub fn detect_color(env: &TermEnv) -> (r: bool)
        ensures
            r == color_supported(env.no_color, var_text(env.term), var_text(env.colorterm)),
    {
        let t = opt_str(&env.term);
        let c = opt_str(&env.colorterm);
        term_supports_color(env.no_color, t, c)
    }

    /// Whether the terminal is monochrome.
    pub fn is_monochrome(&self) -> (r: bool)
        ensures
            r == !self.color,
    {
        !self.color
    }

    /// The smallest usable size: 60×20.
    pub fn minimum_size() -> (r: (u16, u16))
        ensures
            r == (60u16, 20u16),
    {
        (60, 20)
    }

    /// Whether the terminal is at least the minimum size.
    pub fn meets_minimum(&self) -> (r: bool)
        ensures
            r == !self.too_small,
    {
        !self.too_small
    }

    /// The layout for the terminal's width.
    pub fn layout_constraints(&self) -> (r: LayoutConstraints)
        ensures
            r == constraints_for(self.width),
    {
        let breakpoints = LayoutConstraints::new();
        breakpoints.select_for(self.width)
    }
}

/// Layout parameters for a width class.
#[derive(Debug, Clone, Copy, PartialEq, Eq, Structural)]
pub struct LayoutConstraints {
    pub width_threshold: u16,
    pub compact: bool,
    pub max_content_width: u16,
    pub show_labels: bool,
}

/// The layout for a terminal `w` columns wide: compact without labels
/// under 60 columns; content 4 columns narrower than the terminal under 80;
/// content 76 wide under 100; content 90 wide from 100 on.
pub open spec fn constraints_for(w: u16) -> LayoutConstraints {
    if w < 60 {
        LayoutConstraints {
            width_threshold: 40,
            compact: true,
            max_content_width: if w >= 4 { (w - 4) as u16 } else { 0 },
            show_labels: false,
        }
    } else if w < 80 {
        LayoutConstraints {
            width_threshold: 60,
            compact: false,
            max_content_width: (w - 4) as u16,
            show_labels: true,
        }
    } else if w < 100 {
        LayoutConstraints {
            width_threshold: 80,
            compact: false,
            max_content_width: 76,
            show_labels: true,
        }
    } else {
        LayoutConstraints {
            width_threshold: 100,
            compact: false,
            max_content_width: 90,
            show_labels: true,
        }
    }
}

impl LayoutConstraints {
    /// The default layout (that of an 80-column terminal).
    pub fn new() -> (r: Self)
        ensures
            r == (LayoutConstraints {
                width_threshold: 80,
                compact: false,
                max_content_width: 76,
                show_labels: true,
            }),
    {
        LayoutConstraints {
            width_threshold: 80,
            compact: false,
            max_content_width: 76,
            show_labels: true,
        }
    }

    /// The layout for a terminal `width` columns wide: see
    /// [`constraints_for`].
    pub fn select_for(&self, width: u16) -> (r: LayoutConstraints)
        ensures
            r == constraints_for(width),
    {
        if width < 60 {
            LayoutConstraints {
                width_threshold: 40,
                compact: true,
                max_content_width: width.saturating_sub(4),
                show_labels: false,
            }
        } else if width < 80 {
            LayoutConstraints {
                width_threshold: 60,
                compact: false,
                max_content_width: width - 4,
                show_labels: true,
            }
        } else if width < 100 {
            LayoutConstraints {
                width_threshold: 80,
                compact: false,
                max_content_width: 76,
                show_labels: true,
            }
        } else {
            LayoutConstraints {
                width_threshold: 100,
                compact: false,
                max_content_width: 90,
                show_labels: true,
            }
        }
    }
}

impl Default for LayoutConstraints {
    fn default() -> (r: Self)
        ensures
            r == constraints_for(80),
    {
        Self::new()
    }
}

/// The smallest terminal size the interface accepts.
pub struct LayoutEngine {
    pub min_width: u16,
    pub min_height: u16,
}

impl LayoutEngine {
    /// The default minimum, 60×20.
    pub fn new() -> (r: Self)
        ensures
            r.min_width == 60,
            r.min_height == 20,
    {
        LayoutEngine { min_width: 60, min_height: 20 }
    }

    /// Another minimum.
    pub fn with_minimum(self, width: u16, height: u16) -> (r: Self)
        ensures
            r.min_width == width,
            r.min_height == height,
    {
        LayoutEngine { min_width: width, min_height: height }
    }

    /// Whether a terminal of this size is below the minimum.
    pub fn is_terminal_too_small(&self, width: u16, height: u16) -> (r: bool)
        ensures
            r == (width < self.min_width || height < self.min_height),
    {
        width < self.min_width || height < self.min_height
    }

    /// The minimum size.
    pub fn minimum_size(&self) -> (r: (u16, u16))
        ensures
            r == (self.min_width, self.min_height),
    {
        (self.min_width, self.min_height)
    }

    /// Whether an area of this size needs a larger terminal.
    pub fn needs_resize(&self, width: u16, height: u16) -> (r: bool)
        ensures
            r == (width < self.min_width || height < self.min_height),
    {
        width < self.min_width || height < self.min_height
    }
}

impl Default for LayoutEngine {
    fn default() -> (r: Self)
        ensures
            r.min_width == 60,
            r.min_height == 20,
    {
        Self::new()
    }
}

} // verus!

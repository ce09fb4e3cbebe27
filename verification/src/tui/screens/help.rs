//! The help screen: a scrollable page of key bindings.

use vstd::prelude::*;
use crate::tui::app::Screen;
use crate::tui::keys::{KeyCode, KeyEvent};
use crate::tui::screens::ScreenResult;

verus! {

/// The help screen and how far it is scrolled.
pub struct HelpScreen {
    scroll_offset: usize,
}

/// What the help page, scrolled to the top, answers a key with: Esc goes
/// back to the welcome screen, Q quits, any other key stays.
pub open spec fn help_key(code: KeyCode) -> ScreenResult {
    match code {
        KeyCode::Esc => ScreenResult::NavigateTo(Screen::Welcome),
        KeyCode::Char(c) => if c == 'q' || c == 'Q' {
            ScreenResult::Quit
        } else {
            ScreenResult::Continue
        },
        _ => ScreenResult::Continue,
    }
}

impl HelpScreen {
    /// How many lines the page is scrolled.
    pub closed spec fn scroll(&self) -> usize {
        self.scroll_offset
    }

    /// The help page, scrolled to the top.
    pub fn new() -> (r: Self)
        ensures
            r.scroll() == 0,
    {
        HelpScreen { scroll_offset: 0 }
    }

    /// How many lines the page is scrolled.
    pub fn scroll_offset(&self) -> (r: usize)
        ensures
            r == self.scroll(),
    {
        self.scroll_offset
    }

    /// Answers a key press: Esc goes back to the welcome screen, Q quits;
    /// Up/k and Down/j scroll by a line, Page Up and Page Down by ten
    /// (never above the top), Home goes to the top.
    pub fn handle_key(&mut self, key: KeyEvent) -> (r: ScreenResult)
        requires
            old(self).scroll() + 10 <= usize::MAX,
        ensures
            r == help_key(key.code),
            ({
                let s = old(self).scroll() as int;
                let f = final(self).scroll() as int;
                match key.code {
                    KeyCode::Esc => r == ScreenResult::NavigateTo(Screen::Welcome) && f == s,
                    KeyCode::Up => r == ScreenResult::Continue && f == (if s >= 1 { s - 1 } else { 0 }),
                    KeyCode::Down => r == ScreenResult::Continue && f == s + 1,
                    KeyCode::PageUp => r == ScreenResult::Continue && f == (if s >= 10 {
                        s - 10
                    } else {
                        0
                    }),
                    KeyCode::PageDown => r == ScreenResult::Continue && f == s + 10,
                    KeyCode::Home => r == ScreenResult::Continue && f == 0,
                    KeyCode::Char(c) => if c == 'q' || c == 'Q' {
                        r == ScreenResult::Quit && f == s
                    } else if c == 'k' {
                        r == ScreenResult::Continue && f == (if s >= 1 { s - 1 } else { 0 })
                    } else if c == 'j' {
                        r == ScreenResult::Continue && f == s + 1
                    } else {
                        r == ScreenResult::Continue && f == s
                    },
                    _ => r == ScreenResult::Continue && f == s,
                }
            }),
    {
        match key.code {
            KeyCode::Esc => ScreenResult::NavigateTo(Screen::Welcome),
            KeyCode::Up => {
                self.scroll_offset = self.scroll_offset.saturating_sub(1);
                ScreenResult::Continue
            },
            KeyCode::Down => {
                self.scroll_offset = self.scroll_offset + 1;
                ScreenResult::Continue
            },
            KeyCode::PageUp => {
                self.scroll_offset = self.scroll_offset.saturating_sub(10);
                ScreenResult::Continue
            },
            KeyCode::PageDown => {
                self.scroll_offset = self.scroll_offset + 10;
                ScreenResult::Continue
            },
            KeyCode::Home => {
                self.scroll_offset = 0;
                ScreenResult::Continue
            },
            KeyCode::Char(c) => {
                if c == 'q' || c == 'Q' {
                    ScreenResult::Quit
                } else if c == 'k' {
                    self.scroll_offset = self.scroll_offset.saturating_sub(1);
                    ScreenResult::Continue
                } else if c == 'j' {
                    self.scroll_offset = self.scroll_offset + 1;
                    ScreenResult::Continue
                } else {
                    ScreenResult::Continue
                }
            },
            _ => ScreenResult::Continue,
        }
    }
}

impl Default for HelpScreen {
    fn default() -> (r: Self)
        ensures
            r.scroll() == 0,
    {
        Self::new()
    }
}

} // verus!

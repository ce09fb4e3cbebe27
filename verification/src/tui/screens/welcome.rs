//! The welcome screen: the main menu, or a loading indicator while
//! something is fetched.

use vstd::prelude::*;
use crate::text::{chars_of, extend, owned, string_of};
use crate::tui::app::Screen;
use crate::tui::components::spinner::{style_frames, texts, Spinner, SpinnerStyle};
use crate::tui::keys::{KeyCode, KeyEvent};
use crate::tui::screens::ScreenResult;

verus! {

/// What the welcome screen is doing.
#[derive(Debug, Clone, Copy, PartialEq, Eq, Structural)]
pub enum WelcomeState {
    Idle,
    FetchingVideoInfo,
    LoadingPlaylist,
    CheckingUpdates,
}

/// The welcome screen.
pub struct WelcomeScreen {
    state: WelcomeState,
    spinner: Spinner,
    /// The message shown while loading.
    pub loading_message: String,
}

/// The menu's answer to a key when idle: D or Enter opens the download
/// screen, S the settings, H or F1 the help, Q quits.
pub open spec fn welcome_key(code: KeyCode) -> ScreenResult {
    match code {
        KeyCode::Char(c) => if c == 'd' || c == 'D' {
            ScreenResult::NavigateTo(Screen::Download)
        } else if c == 's' || c == 'S' {
            ScreenResult::NavigateTo(Screen::Settings)
        } else if c == 'h' || c == 'H' {
            ScreenResult::NavigateTo(Screen::Help)
        } else if c == 'q' || c == 'Q' {
            ScreenResult::Quit
        } else {
            ScreenResult::Continue
        },
        KeyCode::Enter => ScreenResult::NavigateTo(Screen::Download),
        KeyCode::F(n) => if n == 1 {
            ScreenResult::NavigateTo(Screen::Help)
        } else {
            ScreenResult::Continue
        },
        _ => ScreenResult::Continue,
    }
}

impl WelcomeScreen {
    /// The screen's spinner is consistent.
    pub closed spec fn wf(&self) -> bool {
        self.spinner.wf()
    }

    /// The loading message.
    pub closed spec fn message(&self) -> Seq<char> {
        self.loading_message@
    }

    /// The spinner frame shown.
    pub closed spec fn frame(&self) -> Seq<char> {
        self.spinner.frame_text()
    }

    /// The screen's spinner.
    pub closed spec fn spinner_state(&self) -> Spinner {
        self.spinner
    }

    /// What the screen is doing.
    pub closed spec fn current_state(&self) -> WelcomeState {
        self.state
    }

    /// An idle welcome screen.
    pub fn new() -> (r: Self)
        ensures
            r.wf(),
            r.current_state() == WelcomeState::Idle,
            r.message() == Seq::<char>::empty(),
            r.spinner_state().style == SpinnerStyle::Vertical,
            texts(r.spinner_state().frames@) == style_frames(SpinnerStyle::Vertical),
            r.spinner_state().current == 0,
    {
        WelcomeScreen { state: WelcomeState::Idle, spinner: Spinner::new(), loading_message: String::new() }
    }

    /// Shows `message` in state `state`; the spinner restarts unless the
    /// state is idle.
    pub fn set_loading(&mut self, state: WelcomeState, message: &str)
        requires
            old(self).wf(),
        ensures
            final(self).wf(),
            final(self).current_state() == state,
            final(self).message() == message@,
            final(self).spinner_state().frames == old(self).spinner_state().frames,
            final(self).spinner_state().style == old(self).spinner_state().style,
            final(self).spinner_state().current == (if state != WelcomeState::Idle {
                0
            } else {
                old(self).spinner_state().current
            }),
    {
        self.loading_message = owned(message);
        if state != WelcomeState::Idle {
            self.spinner.reset();
        }
        self.state = state;
    }

    /// Back to idle; the message is cleared.
    pub fn set_idle(&mut self)
        requires
            old(self).wf(),
        ensures
            final(self).wf(),
            final(self).current_state() == WelcomeState::Idle,
            final(self).message() == Seq::<char>::empty(),
            final(self).spinner_state() == old(self).spinner_state(),
    {
        self.state = WelcomeState::Idle;
        self.loading_message = String::new();
    }

    /// Whether something is loading.
    pub fn is_loading(&self) -> (r: bool)
        ensures
            r == (self.current_state() != WelcomeState::Idle),
    {
        self.state != WelcomeState::Idle
    }

    /// What the screen is doing.
    pub fn state(&self) -> (r: &WelcomeState)
        ensures
            *r == self.current_state(),
    {
        &self.state
    }

    /// The loading line: the spinner's frame, a space and the message;
    /// the spinner then moves to its next frame.
    pub fn loading_line(&mut self) -> (r: String)
        requires
            old(self).wf(),
        ensures
            final(self).wf(),
            final(self).current_state() == old(self).current_state(),
            final(self).message() == old(self).message(),
            r@ == old(self).frame() + " "@ + old(self).message(),
    {
        let mut out = chars_of(self.spinner.current());
        out.push(' ');
        let m = chars_of(self.loading_message.as_str());
        extend(&mut out, &m);
        self.spinner.tick();
        proof {
            reveal_strlit(" ");
        }
        assert(out@ =~= old(self).spinner.frame_text() + " "@ + old(self).message());
        string_of(&out)
    }

    /// Answers a key press: nothing happens while loading; otherwise see
    /// [`welcome_key`].
    pub fn handle_key(&self, key: KeyEvent) -> (r: ScreenResult)
        ensures
            r == (if self.current_state() != WelcomeState::Idle {
                ScreenResult::Continue
            } else {
                welcome_key(key.code)
            }),
    {
        if self.is_loading() {
            return ScreenResult::Continue;
        }
        match key.code {
            KeyCode::Char(c) => if c == 'd' || c == 'D' {
                ScreenResult::NavigateTo(Screen::Download)
            } else if c == 's' || c == 'S' {
                ScreenResult::NavigateTo(Screen::Settings)
            } else if c == 'h' || c == 'H' {
                ScreenResult::NavigateTo(Screen::Help)
            } else if c == 'q' || c == 'Q' {
                ScreenResult::Quit
            } else {
                ScreenResult::Continue
            },
            KeyCode::Enter => ScreenResult::NavigateTo(Screen::Download),
            KeyCode::F(n) => if n == 1 {
                ScreenResult::NavigateTo(Screen::Help)
            } else {
                ScreenResult::Continue
            },
            _ => ScreenResult::Continue,
        }
    }
}

impl Default for WelcomeScreen {
    fn default() -> (r: Self)
        ensures
            r.wf(),
            r.current_state() == WelcomeState::Idle,
            r.message() == Seq::<char>::empty(),
            r.spinner_state().style == SpinnerStyle::Vertical,
            texts(r.spinner_state().frames@) == style_frames(SpinnerStyle::Vertical),
            r.spinner_state().current == 0,
    {
        Self::new()
    }
}

} // verus!

//! The progress screen: overall download progress.

use vstd::prelude::*;
use crate::text::{dec, owned, push_dec, push_str, string_of};
use crate::tui::app::Screen;
use crate::tui::keys::{KeyCode, KeyEvent};
use crate::tui::screens::ScreenResult;

verus! {

/// How much the progress screen shows.
#[derive(Debug, Clone, Copy, PartialEq, Eq, Structural)]
pub enum ProgressMode {
    Minimal,
    Detailed,
}

/// The progress screen.
pub struct ProgressScreen {
    pub progress: u8,
    pub status_message: String,
    pub completed: usize,
    pub total: usize,
    pub failed: usize,
    pub mode: ProgressMode,
}

/// The status line after an update with these counts, or `None` when the
/// update leaves it as it was (no downloads).
pub open spec fn status_after(completed: nat, total: nat, failed: nat) -> Option<Seq<char>> {
    if total == 0 {
        None
    } else if completed + failed + 1 <= total {
        Some("Downloading "@ + dec(completed + failed + 1) + "/"@ + dec(total))
    } else if failed > 0 {
        Some("Completed with "@ + dec(failed) + " errors"@)
    } else {
        Some("All downloads complete!"@)
    }
}

/// How the progress screen answers `key`: its state goes from `before` to `after` and it answers `r`.
pub open spec fn progress_step(before: ProgressScreen, key: KeyEvent, after: ProgressScreen, r: ScreenResult) -> bool {
    &&& after.progress == before.progress
    &&& after.status_message == before.status_message
    &&& after.completed == before.completed
    &&& after.total == before.total
    &&& after.failed == before.failed
    &&& ({
                    let toggled = if before.mode == ProgressMode::Minimal {
                        ProgressMode::Detailed
                    } else {
                        ProgressMode::Minimal
                    };
                    let done = before.complete();
                    match key.code {
                        KeyCode::Esc => after.mode == before.mode && r == (if done {
                            ScreenResult::NavigateTo(Screen::Welcome)
                        } else {
                            ScreenResult::Continue
                        }),
                        KeyCode::Enter => after.mode == before.mode && r == (if done {
                            ScreenResult::NavigateTo(Screen::Summary)
                        } else {
                            ScreenResult::Continue
                        }),
                        KeyCode::Char(c) => if c == 'p' || c == 'P' {
                            after.mode == toggled && r == ScreenResult::Continue
                        } else if c == 'q' || c == 'Q' {
                            after.mode == before.mode && r == (if done {
                                ScreenResult::Quit
                            } else {
                                ScreenResult::Continue
                            })
                        } else {
                            after.mode == before.mode && r == ScreenResult::Continue
                        },
                        _ => after.mode == before.mode && r == ScreenResult::Continue,
                    }
                })
}

impl ProgressScreen {
    /// Whether all downloads have ended: there are some and every one
    /// completed or failed.
    pub open spec fn complete(&self) -> bool {
        self.total > 0 && self.completed + self.failed >= self.total
    }

    /// A screen with nothing downloaded yet, in detailed mode.
    pub fn new() -> (r: Self)
        ensures
            r.progress == 0,
            r.status_message@ == Seq::<char>::empty(),
            r.completed == 0,
            r.total == 0,
            r.failed == 0,
            r.mode == ProgressMode::Detailed,
    {
        ProgressScreen {
            progress: 0,
            status_message: String::new(),
            completed: 0,
            total: 0,
            failed: 0,
            mode: ProgressMode::Detailed,
        }
    }

    /// Switches between minimal and detailed mode.
    pub fn toggle_mode(&mut self)
        ensures
            final(self).mode == (if old(self).mode == ProgressMode::Minimal {
                ProgressMode::Detailed
            } else {
                ProgressMode::Minimal
            }),
            final(self).progress == old(self).progress,
            final(self).status_message == old(self).status_message,
            final(self).completed == old(self).completed,
            final(self).total == old(self).total,
            final(self).failed == old(self).failed,
    {
        self.mode = match self.mode {
            ProgressMode::Minimal => ProgressMode::Detailed,
            ProgressMode::Detailed => ProgressMode::Minimal,
        };
    }

    /// Sets the mode.
    pub fn set_mode(&mut self, mode: ProgressMode)
        ensures
            final(self).mode == mode,
            final(self).progress == old(self).progress,
            final(self).status_message == old(self).status_message,
            final(self).completed == old(self).completed,
            final(self).total == old(self).total,
            final(self).failed == old(self).failed,
    {
        self.mode = mode;
    }

    /// The mode.
    pub fn mode(&self) -> (r: ProgressMode)
        ensures
            r == self.mode,
    {
        self.mode
    }

    /// Takes the download manager's figures and updates the status line
    /// (see [`status_after`]).
    pub fn update_from_manager(&mut self, percent: u8, completed: usize, total: usize, failed: usize)
        requires
            completed + failed + 1 <= usize::MAX,
        ensures
            final(self).progress == percent,
            final(self).completed == completed,
            final(self).total == total,
            final(self).failed == failed,
            final(self).mode == old(self).mode,
            final(self).status_message@ == match status_after(
                completed as nat,
                total as nat,
                failed as nat,
            ) {
                Some(m) => m,
                None => old(self).status_message@,
            },
    {
        self.progress = percent;
        self.completed = completed;
        self.total = total;
        self.failed = failed;
        if total > 0 {
            let current = completed + failed + 1;
            let mut out: Vec<char> = Vec::new();
            if current <= total {
                push_str(&mut out, "Downloading ");
                push_dec(&mut out, current as u64);
                push_str(&mut out, "/");
                push_dec(&mut out, total as u64);
            } else if failed > 0 {
                push_str(&mut out, "Completed with ");
                push_dec(&mut out, failed as u64);
                push_str(&mut out, " errors");
            } else {
                push_str(&mut out, "All downloads complete!");
            }
            self.status_message = string_of(&out);
        }
    }

    /// Sets the status line.
    pub fn set_status(&mut self, message: &str)
        ensures
            final(self).status_message@ == message@,
            final(self).progress == old(self).progress,
            final(self).completed == old(self).completed,
            final(self).total == old(self).total,
            final(self).failed == old(self).failed,
            final(self).mode == old(self).mode,
    {
        self.status_message = owned(message);
    }

    /// Whether all downloads have ended.
    pub fn is_complete(&self) -> (r: bool)
        ensures
            r == self.complete(),
    {
        self.total > 0 && (self.completed as u128) + (self.failed as u128) >= self.total as u128
    }

    /// The overall status line: the counts, or "Initializing..." before
    /// there are any downloads.
    pub fn status_text(&self) -> (r: String)
        ensures
            r@ == (if self.total > 0 {
                "Progress: "@ + dec(self.completed as nat) + " / "@ + dec(self.total as nat)
                    + " downloads complete | "@ + dec(self.failed as nat) + " errors"@
            } else {
                "Initializing..."@
            }),
    {
        let mut out: Vec<char> = Vec::new();
        if self.total > 0 {
            push_str(&mut out, "Progress: ");
            push_dec(&mut out, self.completed as u64);
            push_str(&mut out, " / ");
            push_dec(&mut out, self.total as u64);
            push_str(&mut out, " downloads complete | ");
            push_dec(&mut out, self.failed as u64);
            push_str(&mut out, " errors");
        } else {
            push_str(&mut out, "Initializing...");
        }
        string_of(&out)
    }

    /// The footer line: what Enter and Esc do now, and the mode.
    pub fn footer_text(&self) -> (r: String)
        ensures
            r@ == (if self.complete() { "Enter: Results | Esc: Back | P: Mode ("@ } else {
                "Esc: Cancel | P: Mode ("@
            }) + (if self.mode == ProgressMode::Detailed { "Detailed"@ } else { "Minimal"@ })
                + ")"@,
    {
        let mut out: Vec<char> = Vec::new();
        if self.is_complete() {
            push_str(&mut out, "Enter: Results | Esc: Back | P: Mode (");
        } else {
            push_str(&mut out, "Esc: Cancel | P: Mode (");
        }
        match self.mode {
            ProgressMode::Detailed => push_str(&mut out, "Detailed"),
            ProgressMode::Minimal => push_str(&mut out, "Minimal"),
        }
        push_str(&mut out, ")");
        string_of(&out)
    }

    /// Answers a key press: P toggles the mode; once all downloads have
    /// ended, Esc goes back to the welcome screen, Enter to the summary
    /// and Q quits; otherwise nothing happens.
    pub fn handle_key(&mut self, key: KeyEvent) -> (r: ScreenResult)
        ensures
            progress_step(*old(self), key, *final(self), r),
    {
        match key.code {
            KeyCode::Esc => {
                if self.is_complete() {
                    ScreenResult::NavigateTo(Screen::Welcome)
                } else {
                    ScreenResult::Continue
                }
            },
            KeyCode::Enter => {
                if self.is_complete() {
                    ScreenResult::NavigateTo(Screen::Summary)
                } else {
                    ScreenResult::Continue
                }
            },
            KeyCode::Char(c) => {
                if c == 'p' || c == 'P' {
                    self.toggle_mode();
                    ScreenResult::Continue
                } else if c == 'q' || c == 'Q' {
                    if self.is_complete() {
                        ScreenResult::Quit
                    } else {
                        ScreenResult::Continue
                    }
                } else {
                    ScreenResult::Continue
                }
            },
            _ => ScreenResult::Continue,
        }
    }
}

impl Default for ProgressScreen {
    fn default() -> (r: Self)
        ensures
            r.progress == 0,
            r.completed == 0,
            r.total == 0,
            r.failed == 0,
            r.mode == ProgressMode::Detailed,
    {
        Self::new()
    }
}

} // verus!

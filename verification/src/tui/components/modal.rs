//! Dialog boxes for confirmations, alerts and prompts.

use vstd::prelude::*;
use crate::text::owned;
use crate::tui::keys::{KeyCode, KeyEvent};

verus! {

/// Kind of dialog.
#[derive(Debug, Clone, Copy, PartialEq, Eq, Structural)]
pub enum ModalType {
    Info,
    Warning,
    Error,
    Confirm,
    Input,
}

/// State of a dialog.
#[derive(Debug, Clone, PartialEq, Eq)]
pub enum ModalState {
    /// Waiting for an answer.
    Waiting,
    /// Confirmed by the user.
    Confirmed,
    /// Cancelled by the user.
    Cancelled,
    /// Text entered by the user.
    Input(String),
}

/// A dialog box.
pub struct Modal {
    pub title: String,
    pub message: String,
    pub modal_type: ModalType,
    pub state: ModalState,
    pub buttons: Vec<String>,
    pub selected_button: usize,
}

/// The texts of a list of strings.
pub open spec fn button_texts(v: Seq<String>) -> Seq<Seq<char>> {
    v.map_values(|s: String| s@)
}

/// A dialog's answer to a key: its new state, its new selected button,
/// and whether the key was an answer.
///
/// Enter answers with the selected button (if it exists): the first button
/// confirms a confirmation dialog and cancels any other, the others
/// cancel. Esc and q cancel. Left and Right move between buttons and are
/// not answers. In a confirmation dialog y confirms and n cancels. Other
/// keys are ignored.
pub open spec fn modal_answer(m: Modal, code: KeyCode) -> (ModalState, usize, bool) {
    let confirm = m.modal_type == ModalType::Confirm;
    let sb = m.selected_button;
    match code {
        KeyCode::Enter => if sb < m.buttons@.len() {
            if sb == 0 && confirm {
                (ModalState::Confirmed, sb, true)
            } else {
                (ModalState::Cancelled, sb, true)
            }
        } else {
            (m.state, sb, true)
        },
        KeyCode::Esc => (ModalState::Cancelled, sb, true),
        KeyCode::Left => (m.state, if m.buttons@.len() > 0 && sb > 0 { (sb - 1) as usize } else { sb }, false),
        KeyCode::Right => (m.state, if sb + 1 < m.buttons@.len() { (sb + 1) as usize } else { sb }, false),
        KeyCode::Char(c) => if c == 'q' || c == 'Q' {
            (ModalState::Cancelled, sb, true)
        } else if (c == 'y' || c == 'Y') && confirm {
            (ModalState::Confirmed, sb, true)
        } else if (c == 'n' || c == 'N') && confirm {
            (ModalState::Cancelled, sb, true)
        } else {
            (m.state, sb, false)
        },
        _ => (m.state, sb, false),
    }
}

impl Modal {
    /// An information dialog, waiting, with one "OK" button selected.
    pub fn new(title: &str, message: &str) -> (r: Self)
        ensures
            r.title@ == title@,
            r.message@ == message@,
            r.modal_type == ModalType::Info,
            r.state is Waiting,
            button_texts(r.buttons@) == seq!["OK"@],
            r.selected_button == 0,
    {
        let buttons = vec![owned("OK")];
        assert(button_texts(buttons@) =~= seq!["OK"@]);
        Modal {
            title: owned(title),
            message: owned(message),
            modal_type: ModalType::Info,
            state: ModalState::Waiting,
            buttons,
            selected_button: 0,
        }
    }

    /// The dialog with another kind.
    pub fn with_type(self, modal_type: ModalType) -> (r: Self)
        ensures
            r.modal_type == modal_type,
            r.title == self.title,
            r.message == self.message,
            r.state == self.state,
            r.buttons == self.buttons,
            r.selected_button == self.selected_button,
    {
        let mut s = self;
        s.modal_type = modal_type;
        s
    }

    /// The dialog with these buttons; the first is selected when there are
    /// any, else the selection stays.
    pub fn with_buttons(self, buttons: Vec<&str>) -> (r: Self)
        ensures
            r.buttons@.len() == buttons@.len(),
            forall|i: int| 0 <= i < buttons@.len() ==> r.buttons@[i]@ == buttons@[i]@,
            r.selected_button == (if buttons@.len() > 0 { 0 } else { self.selected_button }),
            r.modal_type == self.modal_type,
            r.title == self.title,
            r.message == self.message,
            r.state == self.state,
    {
        let mut v: Vec<String> = Vec::new();
        let mut i: usize = 0;
        while i < buttons.len()
            invariant
                i <= buttons@.len(),
                v@.len() == i,
                forall|j: int| 0 <= j < i ==> v@[j]@ == buttons@[j]@,
            decreases buttons@.len() - i,
        {
            v.push(owned(buttons[i]));
            i = i + 1;
        }
        let mut s = self;
        s.buttons = v;
        if buttons.len() > 0 {
            s.selected_button = 0;
        }
        s
    }

    /// An information dialog.
    pub fn info(title: &str, message: &str) -> (r: Self)
        ensures
            r.title@ == title@,
            r.message@ == message@,
            r.modal_type == ModalType::Info,
            r.state is Waiting,
            button_texts(r.buttons@) == seq!["OK"@],
            r.selected_button == 0,
    {
        Self::new(title, message).with_type(ModalType::Info)
    }

    /// A warning dialog.
    pub fn warning(title: &str, message: &str) -> (r: Self)
        ensures
            r.title@ == title@,
            r.message@ == message@,
            r.modal_type == ModalType::Warning,
            r.state is Waiting,
            button_texts(r.buttons@) == seq!["OK"@],
            r.selected_button == 0,
    {
        Self::new(title, message).with_type(ModalType::Warning)
    }

    /// An error dialog.
    pub fn error(title: &str, message: &str) -> (r: Self)
        ensures
            r.title@ == title@,
            r.message@ == message@,
            r.modal_type == ModalType::Error,
            r.state is Waiting,
            button_texts(r.buttons@) == seq!["OK"@],
            r.selected_button == 0,
    {
        Self::new(title, message).with_type(ModalType::Error)
    }

    /// A confirmation dialog with the buttons "Yes" (selected) and "No".
    pub fn confirm(title: &str, message: &str) -> (r: Self)
        ensures
            r.title@ == title@,
            r.message@ == message@,
            r.modal_type == ModalType::Confirm,
            r.state is Waiting,
            button_texts(r.buttons@) == seq!["Yes"@, "No"@],
            r.selected_button == 0,
    {
        let r = Self::new(title, message).with_type(ModalType::Confirm).with_buttons(
            vec!["Yes", "No"],
        );
        assert(button_texts(r.buttons@) =~= seq!["Yes"@, "No"@]);
        r
    }

    /// The dialog's state.
    pub fn state(&self) -> (r: &ModalState)
        ensures
            *r == self.state,
    {
        &self.state
    }

    /// Whether the dialog still waits for an answer.
    pub fn is_waiting(&self) -> (r: bool)
        ensures
            r == (self.state is Waiting),
    {
        match self.state {
            ModalState::Waiting => true,
            _ => false,
        }
    }

    /// Handles a key press; returns whether the dialog took it as an answer.
    ///
    /// Enter answers with the selected button (if it exists): the first
    /// button confirms a confirmation dialog and closes any other, the
    /// others cancel. Esc and q cancel. Left and Right move between buttons
    /// and are not answers. In a confirmation dialog y confirms and n
    /// cancels. Other keys are ignored.
    pub fn handle_key(&mut self, key: KeyEvent) -> (r: bool)
        ensures
            final(self).title == old(self).title,
            final(self).message == old(self).message,
            final(self).modal_type == old(self).modal_type,
            final(self).buttons == old(self).buttons,
            (final(self).state, final(self).selected_button, r) == modal_answer(*old(self), key.code),
    {
        match key.code {
            KeyCode::Enter => {
                if self.selected_button < self.buttons.len() {
                    if self.selected_button == 0 {
                        match self.modal_type {
                            ModalType::Confirm => {
                                self.state = ModalState::Confirmed;
                            },
                            _ => {
                                self.state = ModalState::Cancelled;
                            },
                        }
                    } else {
                        self.state = ModalState::Cancelled;
                    }
                }
                true
            },
            KeyCode::Esc => {
                self.state = ModalState::Cancelled;
                true
            },
            KeyCode::Left => {
                if self.buttons.len() > 0 && self.selected_button > 0 {
                    self.selected_button = self.selected_button - 1;
                }
                false
            },
            KeyCode::Right => {
                let n = self.buttons.len();
                if n > 0 && self.selected_button < n - 1 {
                    self.selected_button = self.selected_button + 1;
                }
                false
            },
            KeyCode::Char(c) => {
                let confirm = match self.modal_type {
                    ModalType::Confirm => true,
                    _ => false,
                };
                if c == 'q' || c == 'Q' {
                    self.state = ModalState::Cancelled;
                    true
                } else if c == 'y' || c == 'Y' {
                    if confirm {
                        self.state = ModalState::Confirmed;
                        true
                    } else {
                        false
                    }
                } else if c == 'n' || c == 'N' {
                    if confirm {
                        self.state = ModalState::Cancelled;
                        true
                    } else {
                        false
                    }
                } else {
                    false
                }
            },
            _ => false,
        }
    }
}

} // verus!

//! The summary screen: the outcome of the last download and what to do
//! next.

use vstd::prelude::*;
use crate::text::{dec, owned, push_dec, push_str, chars_of, extend, string_of};
use crate::tui::app::{Screen, ScreenData};
use crate::tui::keys::{KeyCode, KeyEvent};
use crate::tui::screens::ScreenResult;

verus! {

/// The actions offered after a download.
#[derive(Debug, Clone, Copy, PartialEq, Eq, Structural)]
pub enum SummaryAction {
    OpenFolder,
    DownloadAnother,
    Quit,
}

/// The summary screen.
pub struct SummaryScreen {
    pub selected_action: SummaryAction,
}

/// What the summary screen asks for after a key press: where to go, and
/// the folder to open in the file manager, if any.
pub struct SummaryReply {
    pub result: ScreenResult,
    pub open_folder: Option<String>,
}

/// The action to the left of `a` (wrapping).
pub open spec fn action_left(a: SummaryAction) -> SummaryAction {
    match a {
        SummaryAction::OpenFolder => SummaryAction::Quit,
        SummaryAction::DownloadAnother => SummaryAction::OpenFolder,
        SummaryAction::Quit => SummaryAction::DownloadAnother,
    }
}

/// The action to the right of `a` (wrapping).
pub open spec fn action_right(a: SummaryAction) -> SummaryAction {
    match a {
        SummaryAction::OpenFolder => SummaryAction::DownloadAnother,
        SummaryAction::DownloadAnother => SummaryAction::Quit,
        SummaryAction::Quit => SummaryAction::OpenFolder,
    }
}

/// Left and right undo each other.
pub proof fn lemma_left_right_inverse(a: SummaryAction)
    ensures
        action_left(action_right(a)) == a,
        action_right(action_left(a)) == a,
{
}

/// The folder of a successful last download, if any.
pub open spec fn folder_to_open(data: &ScreenData) -> Option<Seq<char>> {
    match data.last_download_result {
        Some(r) => if r.success { Some(r.output_path@) } else { None },
        None => None,
    }
}

/// The data after "download another": no last result, inputs cleared.
pub open spec fn cleared_for_another(old_data: &ScreenData, new_data: &ScreenData) -> bool {
    &&& new_data.last_download_result is None
    &&& new_data.input_url@ == Seq::<char>::empty()
    &&& new_data.input_artist@ == Seq::<char>::empty()
    &&& new_data.input_album@ == Seq::<char>::empty()
    &&& new_data.download_status == old_data.download_status
    &&& new_data.error_message == old_data.error_message
    &&& new_data.dependency_status == old_data.dependency_status
    &&& new_data.metadata_autodetected == old_data.metadata_autodetected
}

fn open_request(data: &ScreenData) -> (r: Option<String>)
    ensures
        match r {
            Some(p) => folder_to_open(data) == Some(p@),
            None => folder_to_open(data) is None,
        },
{
    match &data.last_download_result {
        Some(res) => if res.success {
            Some(owned(res.output_path.as_str()))
        } else {
            None
        },
        None => None,
    }
}

fn clear_for_another(data: &mut ScreenData)
    ensures
        cleared_for_another(&*old(data), &*final(data)),
{
    data.last_download_result = None;
    data.input_url = String::new();
    data.input_artist = String::new();
    data.input_album = String::new();
}

/// Whether the last download succeeded with an output path.
pub fn data_has_output_path(data: &ScreenData) -> (r: bool)
    ensures
        r == match data.last_download_result {
            Some(res) => res.success && res.output_path@.len() > 0,
            None => false,
        },
{
    match &data.last_download_result {
        Some(res) => res.success && !res.output_path.as_str().is_empty(),
        None => false,
    }
}

/// How the summary screen answers `key`: its state goes from `before` to `after`, the shared data from `d0` to `d1`, and it answers `r`.
pub open spec fn summary_step(before: SummaryScreen, key: KeyEvent, d0: ScreenData, after: SummaryScreen, d1: ScreenData, r: SummaryReply) -> bool {
    &&& ({
                    let a = before.selected_action;
                    let unchanged = d1 == d0;
                    match key.code {
                        KeyCode::Left => after.selected_action == action_left(a) && unchanged
                            && r.result == ScreenResult::Continue && r.open_folder is None,
                        KeyCode::Right => after.selected_action == action_right(a) && unchanged
                            && r.result == ScreenResult::Continue && r.open_folder is None,
                        KeyCode::Enter => after.selected_action == a && match a {
                            SummaryAction::OpenFolder => unchanged && r.result == ScreenResult::Continue
                                && match r.open_folder {
                                Some(p) => folder_to_open(&d0) == Some(p@),
                                None => folder_to_open(&d0) is None,
                            },
                            SummaryAction::DownloadAnother => cleared_for_another(&d0, &d1)
                                && r.result == ScreenResult::NavigateTo(Screen::Welcome)
                                && r.open_folder is None,
                            SummaryAction::Quit => unchanged && r.result == ScreenResult::Quit
                                && r.open_folder is None,
                        },
                        KeyCode::Esc => after.selected_action == a && unchanged && r.result
                            == ScreenResult::NavigateTo(Screen::Welcome) && r.open_folder is None,
                        KeyCode::Char(c) => if c == 'o' || c == 'O' {
                            after.selected_action == SummaryAction::OpenFolder && unchanged
                                && r.result == ScreenResult::Continue && match r.open_folder {
                                Some(p) => folder_to_open(&d0) == Some(p@),
                                None => folder_to_open(&d0) is None,
                            }
                        } else if c == 'd' || c == 'D' {
                            after.selected_action == a && cleared_for_another(
                                &d0,
                                &d1,
                            ) && r.result == ScreenResult::NavigateTo(Screen::Welcome)
                                && r.open_folder is None
                        } else if c == 'q' || c == 'Q' {
                            after.selected_action == a && unchanged && r.result
                                == ScreenResult::Quit && r.open_folder is None
                        } else {
                            after.selected_action == a && unchanged && r.result
                                == ScreenResult::Continue && r.open_folder is None
                        },
                        _ => after.selected_action == a && unchanged && r.result
                            == ScreenResult::Continue && r.open_folder is None,
                    }
                })
}

impl SummaryScreen {
    /// A summary with "open folder" selected.
    pub fn new() -> (r: Self)
        ensures
            r.selected_action == SummaryAction::OpenFolder,
    {
        SummaryScreen { selected_action: SummaryAction::OpenFolder }
    }

    /// The lines describing the last download: its track count and folder,
    /// its error, or that there was none.
    pub fn build_content(&self, data: &ScreenData) -> (r: Vec<String>)
        ensures
            r@.len() > 0,
            match data.last_download_result {
                Some(res) => if res.success {
                    r@.len() == 8 && r@[1]@ == "✓ Download completed successfully!"@ && r@[3]@
                        == "  Tracks: "@ + dec(res.tracks_count as nat) && r@[4]@ == "  Location: "@
                        + res.output_path@
                } else {
                    r@.len() == 7 && r@[1]@ == "✗ Download failed!"@ && r@[3]@ == "  Error: "@
                        + match res.error {
                        Some(e) => e@,
                        None => "Unknown"@,
                    }
                },
                None => r@.len() == 5 && r@[1]@ == "No download has been performed yet."@,
            },
    {
        match &data.last_download_result {
            Some(res) => {
                if res.success {
                    let mut t: Vec<char> = Vec::new();
                    push_str(&mut t, "  Tracks: ");
                    push_dec(&mut t, res.tracks_count as u64);
                    let mut l: Vec<char> = Vec::new();
                    push_str(&mut l, "  Location: ");
                    let p = chars_of(res.output_path.as_str());
                    extend(&mut l, &p);
                    vec![
                        String::new(),
                        owned("✓ Download completed successfully!"),
                        String::new(),
                        string_of(&t),
                        string_of(&l),
                        String::new(),
                        owned("  Select an action below:"),
                        String::new(),
                    ]
                } else {
                    let mut e: Vec<char> = Vec::new();
                    push_str(&mut e, "  Error: ");
                    match &res.error {
                        Some(msg) => {
                            let m = chars_of(msg.as_str());
                            extend(&mut e, &m);
                        },
                        None => push_str(&mut e, "Unknown"),
                    }
                    vec![
                        String::new(),
                        owned("✗ Download failed!"),
                        String::new(),
                        string_of(&e),
                        String::new(),
                        owned("  You can try again or check the error above."),
                        String::new(),
                    ]
                }
            },
            None => vec![
                String::new(),
                owned("No download has been performed yet."),
                String::new(),
                owned("  Start a download from the main menu."),
                String::new(),
            ],
        }
    }

    /// Answers a key press. Left and Right move between the actions; O
    /// selects "open folder" and asks to open the folder of a successful
    /// download; D, or Enter on "download another", clears the inputs and
    /// the last result and goes back to the welcome screen; Enter on "open
    /// folder" asks to open the folder; Enter on "quit" and Q quit; Esc
    /// goes back to the welcome screen.
    pub fn handle_key(&mut self, key: KeyEvent, data: &mut ScreenData) -> (r: SummaryReply)
        ensures
            summary_step(*old(self), key, *old(data), *final(self), *final(data), r),
    {
        match key.code {
            KeyCode::Left => {
                self.selected_action = match self.selected_action {
                    SummaryAction::OpenFolder => SummaryAction::Quit,
                    SummaryAction::DownloadAnother => SummaryAction::OpenFolder,
                    SummaryAction::Quit => SummaryAction::DownloadAnother,
                };
                SummaryReply { result: ScreenResult::Continue, open_folder: None }
            },
            KeyCode::Right => {
                self.selected_action = match self.selected_action {
                    SummaryAction::OpenFolder => SummaryAction::DownloadAnother,
                    SummaryAction::DownloadAnother => SummaryAction::Quit,
                    SummaryAction::Quit => SummaryAction::OpenFolder,
                };
                SummaryReply { result: ScreenResult::Continue, open_folder: None }
            },
            KeyCode::Enter => match self.selected_action {
                SummaryAction::OpenFolder => SummaryReply {
                    result: ScreenResult::Continue,
                    open_folder: open_request(data),
                },
                SummaryAction::DownloadAnother => {
                    clear_for_another(data);
                    SummaryReply { result: ScreenResult::NavigateTo(Screen::Welcome), open_folder: None }
                },
                SummaryAction::Quit => SummaryReply { result: ScreenResult::Quit, open_folder: None },
            },
            KeyCode::Esc => SummaryReply {
                result: ScreenResult::NavigateTo(Screen::Welcome),
                open_folder: None,
            },
            KeyCode::Char(c) => {
                if c == 'o' || c == 'O' {
                    self.selected_action = SummaryAction::OpenFolder;
                    SummaryReply { result: ScreenResult::Continue, open_folder: open_request(data) }
                } else if c == 'd' || c == 'D' {
                    clear_for_another(data);
                    SummaryReply { result: ScreenResult::NavigateTo(Screen::Welcome), open_folder: None }
                } else if c == 'q' || c == 'Q' {
                    SummaryReply { result: ScreenResult::Quit, open_folder: None }
                } else {
                    SummaryReply { result: ScreenResult::Continue, open_folder: None }
                }
            },
            _ => SummaryReply { result: ScreenResult::Continue, open_folder: None },
        }
    }
}

impl Default for SummaryScreen {
    fn default() -> (r: Self)
        ensures
            r.selected_action == SummaryAction::OpenFolder,
    {
        Self::new()
    }
}

} // verus!

//! The download screen: the URL, artist and album inputs.
//!
//! Fetching a video's metadata is done by the front end: when
//! [`DownloadScreen::metadata_fetch_due`] names a URL, the front end calls
//! [`DownloadScreen::begin_metadata_fetch`], fetches, and hands the outcome
//! to [`DownloadScreen::finish_metadata_fetch`]. Times are milliseconds on
//! a clock of the front end's choosing.

use vstd::prelude::*;
use crate::playlist::is_playlist_url;
use crate::text::{byte_len, chars_of, contains, contains_exec, owned, string_of, trim, trim_chars, utf8_len};
use crate::tui::app::{Screen, ScreenData};
use crate::tui::components::input::{input_step, TextInput};
use crate::tui::keys::{KeyCode, KeyEvent};
use crate::tui::screens::ScreenResult;
use crate::utils::{parse_artist_album, parse_artist_album_spec};

verus! {

/// The field that has the focus.
#[derive(Debug, Clone, Copy, PartialEq, Eq, Structural)]
pub enum FocusedField {
    Url,
    Artist,
    Album,
    DownloadButton,
}

/// Where the download stands.
#[derive(Debug, Clone, PartialEq, Eq)]
pub enum DownloadState {
    Idle,
    Downloading,
    Error(String),
}

/// Where the metadata detection stands.
#[derive(Debug, Clone, PartialEq, Eq)]
pub enum MetadataState {
    Idle,
    Loading,
    Detected,
    Error(String),
}

/// The download screen.
pub struct DownloadScreen {
    pub url_input: TextInput,
    pub artist_input: TextInput,
    pub album_input: TextInput,
    pub focused_field: FocusedField,
    pub download_state: DownloadState,
    pub artist_modified: bool,
    pub album_modified: bool,
    pub metadata_state: MetadataState,
    /// When the URL last changed.
    pub last_url_change_ms: Option<u64>,
    pub metadata_debounce_ms: u64,
    pub last_fetched_url: Option<String>,
    pub metadata_error: Option<String>,
}

/// A URL that names YouTube: its trimmed text holds "youtube.com" or
/// "youtu.be".
pub open spec fn names_youtube(url: Seq<char>) -> bool {
    contains(trim(url), "youtube.com"@) || contains(trim(url), "youtu.be"@)
}

/// The message for a URL that is not a YouTube URL.
pub open spec fn invalid_url_message() -> Seq<char> {
    "Invalid YouTube URL. Use youtube.com or youtu.be links."@
}

/// Whether a key edits the text (rather than moving the cursor).
pub open spec fn edits_text(code: KeyCode) -> bool {
    code is Char || code is Backspace || code is Delete
}

/// Whether the input takes the key: it uses it and, for a character, the
/// value's length leaves room for it.
pub open spec fn takes_key(t: TextInput, code: KeyCode) -> bool {
    input_step(t, code).2 && !(code is Char && utf8_len(t.value@) + 4 > usize::MAX)
}

/// `new` is `old` edited by the key.
pub open spec fn input_edited(old: TextInput, new: TextInput, code: KeyCode) -> bool {
    let (v, c, _) = input_step(old, code);
    &&& new.wf()
    &&& new.value@ == v
    &&& new.cursor == c
    &&& new.placeholder == old.placeholder
    &&& new.title == old.title
    &&& new.focused == old.focused
    &&& new.max_length == old.max_length
}

/// The focused input, if the focus is on one.
pub open spec fn focused_input(s: DownloadScreen) -> Option<TextInput> {
    match s.focused_field {
        FocusedField::Url => Some(s.url_input),
        FocusedField::Artist => Some(s.artist_input),
        FocusedField::Album => Some(s.album_input),
        FocusedField::DownloadButton => None,
    }
}

/// The focus after Tab.
pub open spec fn next_field(f: FocusedField) -> FocusedField {
    match f {
        FocusedField::Url => FocusedField::Artist,
        FocusedField::Artist => FocusedField::Album,
        FocusedField::Album => FocusedField::Url,
        FocusedField::DownloadButton => FocusedField::Url,
    }
}

/// The focus after Shift+Tab.
pub open spec fn previous_field(f: FocusedField) -> FocusedField {
    match f {
        FocusedField::Url => FocusedField::Album,
        FocusedField::Artist => FocusedField::Url,
        FocusedField::Album => FocusedField::Artist,
        FocusedField::DownloadButton => FocusedField::Album,
    }
}

/// Tab and Shift+Tab undo each other between the three inputs.
pub proof fn lemma_tab_undo(f: FocusedField)
    requires
        f != FocusedField::DownloadButton,
    ensures
        previous_field(next_field(f)) == f,
        next_field(previous_field(f)) == f,
{
}

/// How the download screen answers `key` at time `now_ms`: its state goes from `before` to `after`, the shared data from `d0` to `d1`, and it answers `r`.
pub open spec fn download_step(before: DownloadScreen, key: KeyEvent, now_ms: u64, d0: ScreenData, after: DownloadScreen, d1: ScreenData, r: ScreenResult) -> bool {
    &&& after.wf()
    &&& after.metadata_debounce_ms == before.metadata_debounce_ms
    &&& ({
                    let s = before;
                    let f = after;
                    match focused_input(s) {
                        Some(t) => takes_key(t, key.code),
                        None => false,
                    }
                }) ==> {
                    let s = before;
                    let f = after;
                    let url_edit = s.focused_field == FocusedField::Url && edits_text(key.code);
                    &&& r == ScreenResult::Continue
                    &&& f.focused_field == s.focused_field
                    &&& (if s.focused_field == FocusedField::Url {
                        input_edited(s.url_input, f.url_input, key.code)
                    } else {
                        f.url_input == s.url_input
                    })
                    &&& (if s.focused_field == FocusedField::Artist {
                        input_edited(s.artist_input, f.artist_input, key.code)
                    } else {
                        f.artist_input == s.artist_input
                    })
                    &&& (if s.focused_field == FocusedField::Album {
                        input_edited(s.album_input, f.album_input, key.code)
                    } else {
                        f.album_input == s.album_input
                    })
                    &&& (if url_edit {
                        f.metadata_state == MetadataState::Idle && f.metadata_error is None
                            && f.last_url_change_ms == Some(now_ms)
                    } else {
                        f.metadata_state == s.metadata_state && f.metadata_error == s.metadata_error
                            && f.last_url_change_ms == s.last_url_change_ms
                    })
                    &&& f.artist_modified == (s.artist_modified || (s.focused_field == FocusedField::Artist
                        && edits_text(key.code)))
                    &&& f.album_modified == (s.album_modified || (s.focused_field == FocusedField::Album
                        && edits_text(key.code)))
                    &&& f.download_state == (if s.download_state is Error {
                        DownloadState::Idle
                    } else {
                        s.download_state
                    })
                    &&& f.last_fetched_url == s.last_fetched_url
                    &&& d1.input_url@ == f.url_input.value@
                    &&& d1.input_artist@ == f.artist_input.value@
                    &&& d1.input_album@ == f.album_input.value@
                    &&& d1 == (ScreenData {
                        input_url: d1.input_url,
                        input_artist: d1.input_artist,
                        input_album: d1.input_album,
                        ..d0
                    })
                }
    &&& !({
                    match focused_input(before) {
                        Some(t) => takes_key(t, key.code),
                        None => false,
                    }
                }) ==> {
                    let s = before;
                    let f = after;
                    let url = s.url_input.value@;
                    match key.code {
                        KeyCode::Tab => r == ScreenResult::Continue && f == DownloadScreen {
                            focused_field: next_field(s.focused_field),
                            ..s
                        } && d1 == d0,
                        KeyCode::BackTab => r == ScreenResult::Continue && f == DownloadScreen {
                            focused_field: previous_field(s.focused_field),
                            ..s
                        } && d1 == d0,
                        KeyCode::Enter => if (s.focused_field == FocusedField::Url && url.len() > 0
                            && names_youtube(url)) || s.focused_field == FocusedField::DownloadButton {
                            r == ScreenResult::NavigateTo(Screen::Progress) && f == DownloadScreen {
                                download_state: DownloadState::Downloading,
                                ..s
                            } && d1.input_url@ == trim(url) && d1.input_artist@ == trim(
                                s.artist_input.value@,
                            ) && d1.input_album@ == trim(s.album_input.value@) && d1
                                == (ScreenData {
                                input_url: d1.input_url,
                                input_artist: d1.input_artist,
                                input_album: d1.input_album,
                                ..d0
                            })
                        } else if s.focused_field == FocusedField::Url && url.len() > 0 {
                            r == ScreenResult::Continue && f.download_state is Error
                                && f.download_state->Error_0@ == invalid_url_message() && f == DownloadScreen {
                                download_state: f.download_state,
                                ..s
                            } && d1 == d0
                        } else {
                            r == ScreenResult::Continue && f == DownloadScreen {
                                focused_field: FocusedField::Url,
                                ..s
                            } && d1 == d0
                        },
                        KeyCode::Esc => r == ScreenResult::NavigateTo(Screen::Welcome) && f.url_input.value@
                            == Seq::<char>::empty() && f.artist_input.value@ == Seq::<char>::empty()
                            && f.album_input.value@ == Seq::<char>::empty() && f.focused_field
                            == FocusedField::Url && f.download_state == DownloadState::Idle
                            && f.metadata_state == MetadataState::Idle && !f.artist_modified
                            && !f.album_modified && f.last_url_change_ms is None && f.last_fetched_url
                            is None && f.metadata_error is None && d1 == d0,
                        KeyCode::Char(c) => (if c == 'q' || c == 'Q' {
                            r == ScreenResult::Quit
                        } else {
                            r == ScreenResult::Continue
                        }) && f == s && d1 == d0,
                        _ => r == ScreenResult::Continue && f == s && d1 == d0,
                    }
                }
}

/// The download screen `after` is `before` cleared: empty inputs, no flags, the URL input focused.
pub open spec fn download_cleared(before: DownloadScreen, after: DownloadScreen) -> bool {
    &&& after.wf()
    &&& after.url_input.value@ == Seq::<char>::empty()
    &&& after.artist_input.value@ == Seq::<char>::empty()
    &&& after.album_input.value@ == Seq::<char>::empty()
    &&& after.url_input.cursor == 0
    &&& after.artist_input.cursor == 0
    &&& after.album_input.cursor == 0
    &&& after.url_input.placeholder == before.url_input.placeholder
    &&& after.url_input.title == before.url_input.title
    &&& after.url_input.focused == before.url_input.focused
    &&& after.focused_field == FocusedField::Url
    &&& after.download_state == DownloadState::Idle
    &&& !after.artist_modified
    &&& !after.album_modified
    &&& after.metadata_state == MetadataState::Idle
    &&& after.last_url_change_ms is None
    &&& after.metadata_debounce_ms == before.metadata_debounce_ms
    &&& after.last_fetched_url is None
    &&& after.metadata_error is None
}

impl DownloadScreen {
    /// The three inputs are consistent.
    pub open spec fn wf(&self) -> bool {
        self.url_input.wf() && self.artist_input.wf() && self.album_input.wf()
    }

    /// An empty screen with the URL input focused.
    pub fn new() -> (r: Self)
        ensures
            r.wf(),
            r.url_input.value@ == Seq::<char>::empty(),
            r.url_input.placeholder@ == "Enter YouTube URL here..."@,
            r.url_input.title@ == "URL"@,
            r.url_input.focused,
            r.artist_input.value@ == Seq::<char>::empty(),
            r.artist_input.placeholder@ == "Leave empty to auto-detect"@,
            r.artist_input.title@ == "Artist (optional)"@,
            r.album_input.value@ == Seq::<char>::empty(),
            r.album_input.placeholder@ == "Leave empty to auto-detect"@,
            r.album_input.title@ == "Album (optional)"@,
            r.focused_field == FocusedField::Url,
            r.download_state == DownloadState::Idle,
            !r.artist_modified,
            !r.album_modified,
            r.metadata_state == MetadataState::Idle,
            r.last_url_change_ms is None,
            r.metadata_debounce_ms == 700,
            r.last_fetched_url is None,
            r.metadata_error is None,
            r.url_input.cursor == 0,
            r.url_input.max_length == 0,
            r.artist_input.cursor == 0,
            !r.artist_input.focused,
            r.artist_input.max_length == 0,
            r.album_input.cursor == 0,
            !r.album_input.focused,
            r.album_input.max_length == 0,
    {
        DownloadScreen {
            url_input: TextInput::new().with_placeholder("Enter YouTube URL here...").with_title(
                "URL",
            ).with_focused(true),
            artist_input: TextInput::new().with_placeholder("Leave empty to auto-detect").with_title(
                "Artist (optional)",
            ),
            album_input: TextInput::new().with_placeholder("Leave empty to auto-detect").with_title(
                "Album (optional)",
            ),
            focused_field: FocusedField::Url,
            download_state: DownloadState::Idle,
            artist_modified: false,
            album_modified: false,
            metadata_state: MetadataState::Idle,
            last_url_change_ms: None,
            metadata_debounce_ms: 700,
            last_fetched_url: None,
            metadata_error: None,
        }
    }

    /// Clears the inputs and every flag, and focuses the URL input.
    pub fn reset(&mut self)
        requires
            old(self).wf(),
        ensures
            download_cleared(*old(self), *final(self)),
    {
        self.url_input.clear();
        self.artist_input.clear();
        self.album_input.clear();
        self.focused_field = FocusedField::Url;
        self.download_state = DownloadState::Idle;
        self.artist_modified = false;
        self.album_modified = false;
        self.metadata_state = MetadataState::Idle;
        self.last_url_change_ms = None;
        self.last_fetched_url = None;
        self.metadata_error = None;
    }

    /// Whether `url` names YouTube: see [`names_youtube`].
    pub fn is_valid_youtube_url(&self, url: &str) -> (r: bool)
        ensures
            r == names_youtube(url@),
    {
        let v = chars_of(url);
        let t = trim_chars(&v);
        let a = chars_of("youtube.com");
        let b = chars_of("youtu.be");
        contains_exec(&t, &a) || contains_exec(&t, &b)
    }

    /// Answers a key press at time `now_ms`.
    ///
    /// The focused input takes the keys it uses: then an edit of the URL
    /// resets the metadata detection and notes the time, an edit of the
    /// artist or album marks it as set by hand, a shown error is cleared,
    /// and the three values are copied to the shared data. Otherwise Tab
    /// and Shift+Tab move the focus; Enter on a YouTube URL (or on the
    /// download button) copies the trimmed values to the shared data and
    /// goes to the progress screen, on another URL shows an error, and
    /// elsewhere focuses the URL input; Esc clears the screen and goes back
    /// to the welcome screen; Q quits.
    pub fn handle_key(&mut self, key: KeyEvent, now_ms: u64, data: &mut ScreenData) -> (r: ScreenResult)
        requires
            old(self).wf(),
        ensures
            download_step(*old(self), key, now_ms, *old(data), *final(self), *final(data), r),
    {
        let taken = match self.focused_field {
            FocusedField::Url => {
                let room = match key.code {
                    KeyCode::Char(_) => byte_len(self.url_input.value.as_str()) <= usize::MAX - 4,
                    _ => true,
                };
                room && self.url_input.handle_key_event(key)
            },
            FocusedField::Artist => {
                let room = match key.code {
                    KeyCode::Char(_) => byte_len(self.artist_input.value.as_str()) <= usize::MAX - 4,
                    _ => true,
                };
                room && self.artist_input.handle_key_event(key)
            },
            FocusedField::Album => {
                let room = match key.code {
                    KeyCode::Char(_) => byte_len(self.album_input.value.as_str()) <= usize::MAX - 4,
                    _ => true,
                };
                room && self.album_input.handle_key_event(key)
            },
            FocusedField::DownloadButton => false,
        };
        if taken {
            let edit = match key.code {
                KeyCode::Char(_) | KeyCode::Backspace | KeyCode::Delete => true,
                _ => false,
            };
            if self.focused_field == FocusedField::Url && edit {
                self.metadata_state = MetadataState::Idle;
                self.metadata_error = None;
                self.last_url_change_ms = Some(now_ms);
            }
            if self.focused_field == FocusedField::Artist && edit {
                self.artist_modified = true;
            }
            if self.focused_field == FocusedField::Album && edit {
                self.album_modified = true;
            }
            match self.download_state {
                DownloadState::Error(_) => {
                    self.download_state = DownloadState::Idle;
                },
                _ => {},
            }
            data.input_url = owned(self.url_input.value.as_str());
            data.input_artist = owned(self.artist_input.value.as_str());
            data.input_album = owned(self.album_input.value.as_str());
            return ScreenResult::Continue;
        }
        match key.code {
            KeyCode::Tab => {
                self.focused_field = match self.focused_field {
                    FocusedField::Url => FocusedField::Artist,
                    FocusedField::Artist => FocusedField::Album,
                    FocusedField::Album => FocusedField::Url,
                    FocusedField::DownloadButton => FocusedField::Url,
                };
                ScreenResult::Continue
            },
            KeyCode::BackTab => {
                self.focused_field = match self.focused_field {
                    FocusedField::Url => FocusedField::Album,
                    FocusedField::Artist => FocusedField::Url,
                    FocusedField::Album => FocusedField::Artist,
                    FocusedField::DownloadButton => FocusedField::Album,
                };
                ScreenResult::Continue
            },
            KeyCode::Enter => {
                if self.focused_field == FocusedField::Url && !self.url_input.is_empty() {
                    let uv = chars_of(self.url_input.value.as_str());
                    let trimmed = trim_chars(&uv);
                    let a = chars_of("youtube.com");
                    let b = chars_of("youtu.be");
                    if !contains_exec(&trimmed, &a) && !contains_exec(&trimmed, &b) {
                        self.download_state = DownloadState::Error(
                            owned("Invalid YouTube URL. Use youtube.com or youtu.be links."),
                        );
                        return ScreenResult::Continue;
                    }
                    let url = string_of(&trimmed);
                    match is_playlist_url(url.as_str()) {
                        Some(_) => {
                            data.input_url = url;
                            data.input_artist = owned(self.artist_input.value.as_str());
                            data.input_album = owned(self.album_input.value.as_str());
                            return ScreenResult::NavigateTo(Screen::Playlist);
                        },
                        None => {},
                    }
                    self.start_download(data);
                    ScreenResult::NavigateTo(Screen::Progress)
                } else if self.focused_field == FocusedField::DownloadButton {
                    self.start_download(data);
                    ScreenResult::NavigateTo(Screen::Progress)
                } else {
                    self.focused_field = FocusedField::Url;
                    ScreenResult::Continue
                }
            },
            KeyCode::Esc => {
                self.reset();
                ScreenResult::NavigateTo(Screen::Welcome)
            },
            KeyCode::Char(c) => {
                if c == 'q' || c == 'Q' {
                    ScreenResult::Quit
                } else {
                    ScreenResult::Continue
                }
            },
            _ => ScreenResult::Continue,
        }
    }

    fn start_download(&mut self, data: &mut ScreenData)
        ensures
            *final(self) == (DownloadScreen { download_state: DownloadState::Downloading, ..*old(self) }),
            final(data).input_url@ == trim(old(self).url_input.value@),
            final(data).input_artist@ == trim(old(self).artist_input.value@),
            final(data).input_album@ == trim(old(self).album_input.value@),
            *final(data) == (ScreenData {
                input_url: final(data).input_url,
                input_artist: final(data).input_artist,
                input_album: final(data).input_album,
                ..*old(data)
            }),
    {
        let u = chars_of(self.url_input.value.as_str());
        let a = chars_of(self.artist_input.value.as_str());
        let b = chars_of(self.album_input.value.as_str());
        data.input_url = string_of(&trim_chars(&u));
        data.input_artist = string_of(&trim_chars(&a));
        data.input_album = string_of(&trim_chars(&b));
        self.download_state = DownloadState::Downloading;
    }
}

/// An input showing `value`: the cursor stays where it was when that is
/// between two characters of the new value, and goes to its end otherwise.
pub open spec fn shows_value(old: TextInput, new: TextInput, value: Seq<char>) -> bool {
    &&& new.wf()
    &&& new.value@ == value
    &&& new.cursor == (if crate::tui::components::input::is_boundary(value, old.cursor as int) {
        old.cursor as int
    } else {
        utf8_len(value) as int
    })
    &&& new.placeholder == old.placeholder
    &&& new.title == old.title
    &&& new.focused == old.focused
    &&& new.max_length == old.max_length
}

fn show_value(input: &mut TextInput, value: &str)
    ensures
        shows_value(*old(input), *final(input), value@),
{
    let v = chars_of(value);
    let b = crate::tui::components::input::boundary_position(&v, input.cursor);
    input.value = owned(value);
    match b {
        Some(_) => {},
        None => {
            input.cursor = byte_len(value);
            proof {
                assert(value@.take(value@.len() as int) =~= value@);
                assert(crate::tui::components::input::byte_pos(value@, value@.len() as int)
                    == input.cursor);
            }
        },
    }
}

impl DownloadScreen {
    /// Brings the inputs in line with the shared data: the URL when it
    /// differs, and, when the metadata was detected, the artist and album
    /// not set by hand.
    pub fn sync_from_data(&mut self, data: &ScreenData)
        requires
            old(self).wf(),
        ensures
            final(self).wf(),
            if old(self).url_input.value@ != data.input_url@ {
                shows_value(old(self).url_input, final(self).url_input, data.input_url@)
            } else {
                final(self).url_input == old(self).url_input
            },
            if data.metadata_autodetected && !old(self).artist_modified
                && old(self).artist_input.value@ != data.input_artist@ {
                shows_value(old(self).artist_input, final(self).artist_input, data.input_artist@)
            } else {
                final(self).artist_input == old(self).artist_input
            },
            if data.metadata_autodetected && !old(self).album_modified
                && old(self).album_input.value@ != data.input_album@ {
                shows_value(old(self).album_input, final(self).album_input, data.input_album@)
            } else {
                final(self).album_input == old(self).album_input
            },
            *final(self) == (DownloadScreen {
                url_input: final(self).url_input,
                artist_input: final(self).artist_input,
                album_input: final(self).album_input,
                ..*old(self)
            }),
    {
        if !crate::text::str_eq(self.url_input.value.as_str(), data.input_url.as_str()) {
            show_value(&mut self.url_input, data.input_url.as_str());
        }
        if data.metadata_autodetected && !self.artist_modified && !crate::text::str_eq(
            self.artist_input.value.as_str(),
            data.input_artist.as_str(),
        ) {
            show_value(&mut self.artist_input, data.input_artist.as_str());
        }
        if data.metadata_autodetected && !self.album_modified && !crate::text::str_eq(
            self.album_input.value.as_str(),
            data.input_album.as_str(),
        ) {
            show_value(&mut self.album_input, data.input_album.as_str());
        }
    }

    /// The URL whose metadata should be fetched now, if any: when no fetch
    /// is under way or done, the URL last changed at least the debounce
    /// time ago, and its trimmed text names YouTube and was not fetched
    /// last.
    pub fn metadata_fetch_due(&self, now_ms: u64) -> (r: Option<String>)
        ensures
            ({
                let ready = (self.metadata_state == MetadataState::Idle || self.metadata_state is Error)
                    && match self.last_url_change_ms {
                    Some(t) => now_ms >= t && now_ms - t >= self.metadata_debounce_ms,
                    None => false,
                };
                let url = trim(self.url_input.value@);
                let fresh = match self.last_fetched_url {
                    Some(u) => u@ != url,
                    None => true,
                };
                if ready && names_youtube(url) && fresh {
                    r is Some && r->0@ == url
                } else {
                    r is None
                }
            }),
    {
        let idle = match self.metadata_state {
            MetadataState::Idle | MetadataState::Error(_) => true,
            _ => false,
        };
        let ready = idle && match self.last_url_change_ms {
            Some(t) => now_ms >= t && now_ms - t >= self.metadata_debounce_ms,
            None => false,
        };
        if !ready {
            return None;
        }
        let v = chars_of(self.url_input.value.as_str());
        let t = trim_chars(&v);
        let url = string_of(&t);
        proof {
            assert(trim(t@) == trim(trim(v@))) ;
            crate::text::lemma_trim_idempotent(v@);
        }
        if !self.is_valid_youtube_url(url.as_str()) {
            return None;
        }
        let fresh = match &self.last_fetched_url {
            Some(u) => !crate::text::str_eq(u.as_str(), url.as_str()),
            None => true,
        };
        if fresh {
            Some(url)
        } else {
            None
        }
    }

    /// Marks a metadata fetch as under way.
    pub fn begin_metadata_fetch(&mut self)
        ensures
            *final(self) == (DownloadScreen {
                metadata_state: MetadataState::Loading,
                metadata_error: None,
                ..*old(self)
            }),
    {
        self.metadata_state = MetadataState::Loading;
        self.metadata_error = None;
    }

    /// Takes the outcome of fetching the metadata of `url`: the video's
    /// title, whose artist and album (see
    /// [`crate::utils::parse_artist_album`]) fill the inputs with the cursor
    /// at their end, or the error.
    pub fn finish_metadata_fetch(&mut self, url: &str, result: Result<String, String>)
        requires
            old(self).wf(),
        ensures
            final(self).wf(),
            match result {
                Ok(title) => {
                    let (artist, album) = parse_artist_album_spec(title@);
                    &&& final(self).artist_input.value@ == artist
                    &&& final(self).artist_input.cursor == utf8_len(artist)
                    &&& final(self).album_input.value@ == album
                    &&& final(self).album_input.cursor == utf8_len(album)
                    &&& final(self).metadata_state == MetadataState::Detected
                    &&& final(self).last_fetched_url is Some
                    &&& final(self).last_fetched_url->0@ == url@
                    &&& final(self).metadata_error == old(self).metadata_error
                    &&& final(self).url_input == old(self).url_input
                    &&& final(self).focused_field == old(self).focused_field
                    &&& final(self).download_state == old(self).download_state
                },
                Err(e) => *final(self) == (DownloadScreen {
                    metadata_state: MetadataState::Error(e),
                    metadata_error: Some(e),
                    ..*old(self)
                }),
            },
    {
        match result {
            Ok(title) => {
                let (artist, album) = parse_artist_album(title.as_str());
                let ac = byte_len(artist.as_str());
                let bc = byte_len(album.as_str());
                self.artist_input.value = artist;
                self.artist_input.cursor = ac;
                self.album_input.value = album;
                self.album_input.cursor = bc;
                proof {
                    let a = self.artist_input.value@;
                    let b = self.album_input.value@;
                    assert(a.take(a.len() as int) =~= a);
                    assert(b.take(b.len() as int) =~= b);
                    assert(crate::tui::components::input::byte_pos(a, a.len() as int) == ac);
                    assert(crate::tui::components::input::byte_pos(b, b.len() as int) == bc);
                }
                self.metadata_state = MetadataState::Detected;
                self.last_fetched_url = Some(owned(url));
            },
            Err(e) => {
                self.metadata_state = MetadataState::Error(e.clone());
                self.metadata_error = Some(e);
            },
        }
    }
}

} // verus!

//! The playlist screen: choosing which videos of a playlist to download.
//!
//! Fetching the playlist is done by the front end: it calls
//! [`PlaylistScreen::begin_load`], fetches, and hands the outcome to
//! [`PlaylistScreen::finish_load`].

use vstd::prelude::*;
use crate::playlist::{PlaylistInfo, PlaylistVideo};
use crate::text::{chars_of, dec, dec2, extend, owned, push_dec, push_dec2, push_str, string_of};
use crate::tui::app::{Screen, ScreenData};
use crate::tui::components::input::join_lines;
use crate::tui::components::spinner::Spinner;
use crate::tui::keys::{KeyCode, KeyEvent};
use crate::tui::screens::ScreenResult;

verus! {

/// Where the playlist is.
pub enum PlaylistState {
    Loading,
    Loaded { playlist: PlaylistInfo },
    Error(String),
}

/// The playlist screen.
pub struct PlaylistScreen {
    pub state: PlaylistState,
    /// Which videos are chosen, by position.
    pub selected_videos: Vec<bool>,
    pub focused_index: usize,
    pub offset: usize,
    pub spinner: Spinner,
}

/// How many entries are true.
pub open spec fn count_true(s: Seq<bool>) -> nat
    decreases s.len(),
{
    if s.len() == 0 {
        0
    } else {
        count_true(s.drop_last()) + if s.last() { 1nat } else { 0nat }
    }
}

/// The URLs of the chosen videos among the first `n`, in order.
pub open spec fn chosen_urls(videos: Seq<PlaylistVideo>, sel: Seq<bool>, n: int) -> Seq<Seq<char>>
    decreases n,
{
    if n <= 0 {
        Seq::empty()
    } else {
        let rest = chosen_urls(videos, sel, n - 1);
        if n - 1 < sel.len() && sel[n - 1] {
            rest.push(videos[n - 1].url@)
        } else {
            rest
        }
    }
}

/// A duration as `MM:SS`, or `HH:MM:SS` from an hour on.
pub open spec fn clock_text(secs: nat) -> Seq<char> {
    let h = secs / 3600;
    let m = (secs / 60) % 60;
    let s = secs % 60;
    if h > 0 {
        dec2(h) + ":"@ + dec2(m) + ":"@ + dec2(s)
    } else {
        dec2(m) + ":"@ + dec2(s)
    }
}

/// How the playlist screen answers `key`: its state goes from `before` to `after`, the shared data from `d0` to `d1`, and it answers `r`.
pub open spec fn playlist_step(before: PlaylistScreen, key: KeyEvent, d0: ScreenData, after: PlaylistScreen, d1: ScreenData, r: ScreenResult) -> bool {
    &&& after.wf()
    &&& after.state == before.state
    &&& after.offset == before.offset
    &&& after.spinner == before.spinner
    &&& ({
                    let n = before.video_count() as int;
                    let f = before.focused_index as int;
                    let esc = key.code == KeyCode::Esc || key.code == KeyCode::Char('q') || key.code
                        == KeyCode::Char('Q');
                    let same_sel = after.selected_videos == before.selected_videos;
                    let same_focus = after.focused_index == before.focused_index;
                    let same_data = d1 == d0;
                    if esc {
                        r == ScreenResult::NavigateTo(Screen::Download) && same_sel && same_focus && same_data
                    } else {
                        match before.state {
                            PlaylistState::Loading => r == ScreenResult::Continue && same_sel && same_focus
                                && same_data,
                            PlaylistState::Error(_) => r == ScreenResult::NavigateTo(Screen::Download)
                                && same_sel && same_focus && same_data,
                            PlaylistState::Loaded { playlist } => match key.code {
                                KeyCode::Down => r == ScreenResult::Continue && same_sel && same_data
                                    && after.focused_index == (if f + 1 < n { f + 1 } else { f }),
                                KeyCode::Up => r == ScreenResult::Continue && same_sel && same_data
                                    && after.focused_index == (if f > 0 { f - 1 } else { f }),
                                KeyCode::PageDown => r == ScreenResult::Continue && same_sel && same_data
                                    && after.focused_index == (if f + 10 < n - 1 { f + 10 } else { n - 1 }),
                                KeyCode::PageUp => r == ScreenResult::Continue && same_sel && same_data
                                    && after.focused_index == (if f >= 10 { f - 10 } else { 0 }),
                                KeyCode::Home => r == ScreenResult::Continue && same_sel && same_data
                                    && after.focused_index == 0,
                                KeyCode::End => r == ScreenResult::Continue && same_sel && same_data
                                    && after.focused_index == (if n >= 1 { n - 1 } else { 0 }),
                                KeyCode::Enter => same_sel && same_focus && if count_true(
                                    before.selected_videos@,
                                ) > 0 {
                                    r == ScreenResult::NavigateTo(Screen::Summary) && d1.input_url@
                                        == join_lines(
                                        chosen_urls(
                                            playlist.videos@,
                                            before.selected_videos@,
                                            playlist.videos@.len() as int,
                                        ),
                                    ) && d1 == (ScreenData {
                                        input_url: d1.input_url,
                                        ..d0
                                    })
                                } else {
                                    r == ScreenResult::Continue && same_data
                                },
                                KeyCode::Char(c) => r == ScreenResult::Continue && same_data && if c == 'j' {
                                    same_sel && after.focused_index == (if f + 1 < n { f + 1 } else { f })
                                } else if c == 'k' {
                                    same_sel && after.focused_index == (if f > 0 { f - 1 } else { f })
                                } else if c == ' ' {
                                    same_focus && after.selected_videos@ == (if f < n {
                                        before.selected_videos@.update(f, !before.selected_videos@[f])
                                    } else {
                                        before.selected_videos@
                                    })
                                } else if c == 'a' || c == 'A' {
                                    same_focus && after.selected_videos@ == Seq::new(
                                        before.selected_videos@.len(),
                                        |_i: int| true,
                                    )
                                } else if c == 'd' || c == 'D' {
                                    same_focus && after.selected_videos@ == Seq::new(
                                        before.selected_videos@.len(),
                                        |_i: int| false,
                                    )
                                } else {
                                    same_sel && same_focus
                                },
                                _ => r == ScreenResult::Continue && same_sel && same_focus && same_data,
                            },
                        }
                    }
                })
}

/// The playlist screen `after` is `before` waiting for a playlist: nothing chosen, focus and scroll at the top.
pub open spec fn load_begun(before: PlaylistScreen, after: PlaylistScreen) -> bool {
    &&& after.wf()
    &&& after.state is Loading
    &&& after.selected_videos@.len() == 0
    &&& after.focused_index == 0
    &&& after.offset == 0
    &&& after.spinner == before.spinner
}

impl PlaylistScreen {
    /// The selection matches the loaded playlist and the focus is on one
    /// of its videos (or at 0 when it has none).
    pub open spec fn wf(&self) -> bool {
        &&& self.spinner.wf()
        &&& match self.state {
            PlaylistState::Loaded { playlist } => {
                &&& self.selected_videos@.len() == playlist.videos@.len()
                &&& (self.focused_index < playlist.videos@.len() || self.focused_index == 0)
            },
            _ => true,
        }
    }

    /// The number of videos of the loaded playlist, 0 when none is loaded.
    pub open spec fn video_count(&self) -> nat {
        match self.state {
            PlaylistState::Loaded { playlist } => playlist.videos@.len(),
            _ => 0,
        }
    }

    /// A screen waiting for a playlist.
    pub fn new() -> (r: Self)
        ensures
            r.wf(),
            r.state is Loading,
            r.selected_videos@.len() == 0,
            r.focused_index == 0,
            r.offset == 0,
            r.spinner.style == crate::tui::components::spinner::SpinnerStyle::Vertical,
            crate::tui::components::spinner::texts(r.spinner.frames@) == crate::tui::components::spinner::style_frames(
                crate::tui::components::spinner::SpinnerStyle::Vertical,
            ),
            r.spinner.current == 0,
    {
        PlaylistScreen {
            state: PlaylistState::Loading,
            selected_videos: Vec::new(),
            focused_index: 0,
            offset: 0,
            spinner: Spinner::new(),
        }
    }

    /// Starts loading a playlist: nothing chosen, focus and scroll at the
    /// top.
    pub fn begin_load(&mut self)
        requires
            old(self).wf(),
        ensures
            load_begun(*old(self), *final(self)),
    {
        self.state = PlaylistState::Loading;
        self.selected_videos = Vec::new();
        self.focused_index = 0;
        self.offset = 0;
    }

    /// Takes the fetched playlist, with every video chosen, or the error
    /// that stopped the fetch.
    pub fn finish_load(&mut self, result: Result<PlaylistInfo, String>)
        requires
            old(self).wf(),
        ensures
            final(self).wf(),
            final(self).focused_index == old(self).focused_index || final(self).focused_index == 0,
            final(self).offset == old(self).offset,
            match result {
                Ok(p) => final(self).state == (PlaylistState::Loaded { playlist: p })
                    && final(self).selected_videos@ == Seq::new(p.videos@.len(), |_i: int| true)
                    && final(self).focused_index == 0,
                Err(e) => final(self).state == PlaylistState::Error(e) && final(self).selected_videos
                    == old(self).selected_videos && final(self).focused_index == old(self).focused_index,
            },
    {
        match result {
            Ok(playlist) => {
                let count = playlist.videos.len();
                let mut sel: Vec<bool> = Vec::new();
                let mut i: usize = 0;
                while i < count
                    invariant
                        i <= count,
                        sel@ == Seq::new(i as nat, |_i: int| true),
                    decreases count - i,
                {
                    sel.push(true);
                    i = i + 1;
                    assert(sel@ =~= Seq::new(i as nat, |_i: int| true));
                }
                self.selected_videos = sel;
                self.focused_index = 0;
                self.state = PlaylistState::Loaded { playlist };
            },
            Err(e) => {
                self.state = PlaylistState::Error(e);
            },
        }
    }

    /// How many videos are chosen.
    pub fn selected_count(&self) -> (r: usize)
        ensures
            r == count_true(self.selected_videos@),
    {
        let mut n: usize = 0;
        let mut i: usize = 0;
        while i < self.selected_videos.len()
            invariant
                i <= self.selected_videos@.len(),
                n == count_true(self.selected_videos@.take(i as int)),
                n <= i,
            decreases self.selected_videos@.len() - i,
        {
            assert(self.selected_videos@.take(i + 1).drop_last() =~= self.selected_videos@.take(
                i as int,
            ));
            if self.selected_videos[i] {
                n = n + 1;
            }
            i = i + 1;
        }
        assert(self.selected_videos@.take(i as int) =~= self.selected_videos@);
        n
    }

    /// Flips the choice of the focused video of the loaded playlist.
    pub fn toggle_selection(&mut self)
        requires
            old(self).wf(),
        ensures
            final(self).wf(),
            final(self).selected_videos@ == (if (old(self).focused_index as int) < old(self).video_count() {
                old(self).selected_videos@.update(
                    old(self).focused_index as int,
                    !old(self).selected_videos@[old(self).focused_index as int],
                )
            } else {
                old(self).selected_videos@
            }),
            final(self).state == old(self).state,
            final(self).focused_index == old(self).focused_index,
            final(self).offset == old(self).offset,
            final(self).spinner == old(self).spinner,
    {
        let n = match &self.state {
            PlaylistState::Loaded { playlist } => playlist.videos.len(),
            _ => 0,
        };
        if self.focused_index < n {
            let i = self.focused_index;
            let v = !self.selected_videos[i];
            self.selected_videos.set(i, v);
        }
    }

    /// Chooses every video.
    pub fn select_all(&mut self)
        requires
            old(self).wf(),
        ensures
            final(self).wf(),
            final(self).selected_videos@ == Seq::new(old(self).selected_videos@.len(), |_i: int| true),
            final(self).state == old(self).state,
            final(self).focused_index == old(self).focused_index,
            final(self).offset == old(self).offset,
            final(self).spinner == old(self).spinner,
    {
        self.set_all(true);
    }

    /// Chooses no video.
    pub fn deselect_all(&mut self)
        requires
            old(self).wf(),
        ensures
            final(self).wf(),
            final(self).selected_videos@ == Seq::new(old(self).selected_videos@.len(), |_i: int| false),
            final(self).state == old(self).state,
            final(self).focused_index == old(self).focused_index,
            final(self).offset == old(self).offset,
            final(self).spinner == old(self).spinner,
    {
        self.set_all(false);
    }

    fn set_all(&mut self, v: bool)
        requires
            old(self).wf(),
        ensures
            final(self).wf(),
            final(self).selected_videos@ == Seq::new(old(self).selected_videos@.len(), |_i: int| v),
            final(self).state == old(self).state,
            final(self).focused_index == old(self).focused_index,
            final(self).offset == old(self).offset,
            final(self).spinner == old(self).spinner,
    {
        let n = self.selected_videos.len();
        let mut i: usize = 0;
        while i < n
            invariant
                i <= n,
                n == self.selected_videos@.len(),
                n == old(self).selected_videos@.len(),
                forall|j: int| 0 <= j < i ==> self.selected_videos@[j] == v,
                self.state == old(self).state,
                self.focused_index == old(self).focused_index,
                self.offset == old(self).offset,
                self.spinner == old(self).spinner,
            decreases n - i,
        {
            self.selected_videos.set(i, v);
            i = i + 1;
        }
        assert(self.selected_videos@ =~= Seq::new(n as nat, |_i: int| v));
    }

    /// The URLs of the chosen videos of the loaded playlist, in order
    /// (none when no playlist is loaded).
    pub fn get_selected_urls(&self) -> (r: Vec<String>)
        ensures
            r@.map_values(|s: String| s@) == match self.state {
                PlaylistState::Loaded { playlist } => chosen_urls(
                    playlist.videos@,
                    self.selected_videos@,
                    playlist.videos@.len() as int,
                ),
                _ => Seq::empty(),
            },
    {
        let mut out: Vec<String> = Vec::new();
        match &self.state {
            PlaylistState::Loaded { playlist } => {
                let mut i: usize = 0;
                while i < playlist.videos.len()
                    invariant
                        i <= playlist.videos@.len(),
                        out@.map_values(|s: String| s@) == chosen_urls(
                            playlist.videos@,
                            self.selected_videos@,
                            i as int,
                        ),
                    decreases playlist.videos@.len() - i,
                {
                    if i < self.selected_videos.len() && self.selected_videos[i] {
                        let ghost before = out@.map_values(|s: String| s@);
                        out.push(owned(playlist.videos[i].url.as_str()));
                        assert(out@.map_values(|s: String| s@) =~= before.push(
                            playlist.videos@[i as int].url@,
                        ));
                    }
                    i = i + 1;
                }
            },
            _ => {
                assert(out@.map_values(|s: String| s@) =~= Seq::<Seq<char>>::empty());
            },
        }
        out
    }

    /// A duration in whole seconds as `MM:SS`, or `HH:MM:SS` from an hour
    /// on.
    pub fn format_duration(seconds: u64) -> (r: String)
        ensures
            r@ == clock_text(seconds as nat),
    {
        let mins = seconds / 60;
        let secs = seconds % 60;
        let hours = mins / 60;
        let mins = mins % 60;
        let mut out: Vec<char> = Vec::new();
        if hours > 0 {
            push_dec2(&mut out, hours);
            push_str(&mut out, ":");
        }
        push_dec2(&mut out, mins);
        push_str(&mut out, ":");
        push_dec2(&mut out, secs);
        proof {
            assert(seconds / 3600 == (seconds / 60) / 60) by (nonlinear_arith);
        }
        string_of(&out)
    }

    /// The header lines: "Playlist: <title>" and "<n> videos | <k>
    /// selected" (for a loaded playlist).
    pub fn header_lines(&self, playlist: &PlaylistInfo) -> (r: (String, String))
        ensures
            r.0@ == "Playlist: "@ + playlist.title@,
            r.1@ == dec(playlist.videos@.len()) + " videos | "@ + dec(count_true(self.selected_videos@))
                + " selected"@,
    {
        let mut t: Vec<char> = Vec::new();
        push_str(&mut t, "Playlist: ");
        let tv = chars_of(playlist.title.as_str());
        extend(&mut t, &tv);
        let mut i: Vec<char> = Vec::new();
        push_dec(&mut i, playlist.videos.len() as u64);
        push_str(&mut i, " videos | ");
        push_dec(&mut i, self.selected_count() as u64);
        push_str(&mut i, " selected");
        (string_of(&t), string_of(&i))
    }

    /// Answers a key press. Esc and Q go back to the download screen from
    /// any state; while loading nothing happens; after an error any key
    /// goes back. With a playlist: Down/j and Up/k move the focus, Page
    /// Down and Page Up by ten, Home and End to the ends; Space flips the
    /// focused video, A chooses all and D none; Enter, when some are
    /// chosen, puts their URLs (one per line) in the URL input and goes to
    /// the summary.
    pub fn handle_key(&mut self, key: KeyEvent, data: &mut ScreenData) -> (r: ScreenResult)
        requires
            old(self).wf(),
            old(self).state is Loaded && key.code == KeyCode::PageDown ==> old(self).video_count() > 0,
        ensures
            playlist_step(*old(self), key, *old(data), *final(self), *final(data), r),
    {
        match key.code {
            KeyCode::Esc => {
                return ScreenResult::NavigateTo(Screen::Download);
            },
            KeyCode::Char(c) => {
                if c == 'q' || c == 'Q' {
                    return ScreenResult::NavigateTo(Screen::Download);
                }
            },
            _ => {},
        }
        let n: usize = match &self.state {
            PlaylistState::Loading => {
                return ScreenResult::Continue;
            },
            PlaylistState::Error(_) => {
                return ScreenResult::NavigateTo(Screen::Download);
            },
            PlaylistState::Loaded { playlist } => playlist.videos.len(),
        };
        match key.code {
            KeyCode::Down => {
                if n > 0 && self.focused_index < n - 1 {
                    self.focused_index = self.focused_index + 1;
                }
                ScreenResult::Continue
            },
            KeyCode::Up => {
                if self.focused_index > 0 {
                    self.focused_index = self.focused_index - 1;
                }
                ScreenResult::Continue
            },
            KeyCode::PageDown => {
                let last = n - 1;
                self.focused_index = if last - self.focused_index > 10 {
                    self.focused_index + 10
                } else {
                    last
                };
                ScreenResult::Continue
            },
            KeyCode::PageUp => {
                self.focused_index = self.focused_index.saturating_sub(10);
                ScreenResult::Continue
            },
            KeyCode::Home => {
                self.focused_index = 0;
                ScreenResult::Continue
            },
            KeyCode::End => {
                self.focused_index = n.saturating_sub(1);
                ScreenResult::Continue
            },
            KeyCode::Enter => {
                if self.selected_count() > 0 {
                    let urls = self.get_selected_urls();
                    let mut out: Vec<char> = Vec::new();
                    let mut i: usize = 0;
                    let ghost texts = urls@.map_values(|s: String| s@);
                    while i < urls.len()
                        invariant
                            i <= urls@.len(),
                            texts == urls@.map_values(|s: String| s@),
                            out@ == join_lines(texts.take(i as int)),
                        decreases urls@.len() - i,
                    {
                        if i > 0 {
                            out.push('\n');
                        }
                        let u = chars_of(urls[i].as_str());
                        extend(&mut out, &u);
                        proof {
                            assert(texts.take(i + 1).drop_last() =~= texts.take(i as int));
                            if i == 0 {
                                assert(out@ =~= texts.take(1)[0]);
                            } else {
                                assert(out@ =~= join_lines(texts.take(i as int)) + seq!['\n'] + texts.take(
                                    i + 1,
                                ).last());
                            }
                        }
                        i = i + 1;
                    }
                    assert(texts.take(urls@.len() as int) =~= texts);
                    data.input_url = string_of(&out);
                    ScreenResult::NavigateTo(Screen::Summary)
                } else {
                    ScreenResult::Continue
                }
            },
            KeyCode::Char(c) => {
                if c == 'j' {
                    if n > 0 && self.focused_index < n - 1 {
                        self.focused_index = self.focused_index + 1;
                    }
                } else if c == 'k' {
                    if self.focused_index > 0 {
                        self.focused_index = self.focused_index - 1;
                    }
                } else if c == ' ' {
                    self.toggle_selection();
                } else if c == 'a' || c == 'A' {
                    self.select_all();
                } else if c == 'd' || c == 'D' {
                    self.deselect_all();
                }
                ScreenResult::Continue
            },
            _ => ScreenResult::Continue,
        }
    }

    /// The footer's key hints, with the number of chosen videos.
    pub fn footer_text(&self) -> (r: String)
        ensures
            r@ == "↑↓: Navigate  |  Space: Toggle  |  A: Select All  |  D: Deselect All  |  Enter: Download ("@
                + dec(count_true(self.selected_videos@)) + ")  |  Esc: Cancel"@,
    {
        let mut out: Vec<char> = Vec::new();
        push_str(
            &mut out,
            "↑↓: Navigate  |  Space: Toggle  |  A: Select All  |  D: Deselect All  |  Enter: Download (",
        );
        push_dec(&mut out, self.selected_count() as u64);
        push_str(&mut out, ")  |  Esc: Cancel");
        string_of(&out)
    }
}

impl Default for PlaylistScreen {
    fn default() -> (r: Self)
        ensures
            r.wf(),
            r.state is Loading,
            r.selected_videos@.len() == 0,
            r.focused_index == 0,
            r.offset == 0,
            r.spinner.style == crate::tui::components::spinner::SpinnerStyle::Vertical,
            crate::tui::components::spinner::texts(r.spinner.frames@) == crate::tui::components::spinner::style_frames(
                crate::tui::components::spinner::SpinnerStyle::Vertical,
            ),
            r.spinner.current == 0,
    {
        Self::new()
    }
}

} // verus!

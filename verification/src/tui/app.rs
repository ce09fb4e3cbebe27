//! The screens of the interface and the data they share.

use vstd::prelude::*;
use crate::config::Config;
use crate::dependency::DependencyState;
use crate::error::YtcsError;
use crate::playlist::{char_or_end, char_or_end_pub};
use crate::text::{chars_of, owned, slice, string_of, trim, trim_chars};
use crate::tui::download_manager::{polled, count_pending, DownloadManager, DownloadStatus, TaskStart};
use crate::tui::download_manager::DownloadResult as TaskResult;
use crate::tui::keys::{KeyCode, KeyEvent};
use crate::tui::layout::TerminalCapabilities;
use crate::tui::screens::download::{download_cleared, download_step, DownloadScreen};
use crate::tui::screens::help::{help_key, HelpScreen};
use crate::tui::screens::playlist::{load_begun, playlist_step, PlaylistScreen};
use crate::tui::screens::progress::{progress_step, ProgressScreen};
use crate::tui::screens::settings::{settings_step, SaveRequest, SettingsScreen};
use crate::tui::screens::summary::{summary_step, SummaryScreen};
use crate::tui::screens::welcome::{welcome_key, WelcomeScreen, WelcomeState};
use crate::tui::screens::ScreenResult;

verus! {

/// The screens of the interface.
#[derive(Debug, Clone, Copy, PartialEq, Eq, Structural)]
pub enum Screen {
    Welcome,
    Download,
    Playlist,
    Progress,
    Settings,
    Help,
    Summary,
}

/// Result of the dependency check.
#[derive(Debug, Clone, Copy, PartialEq, Eq, Structural)]
pub enum DependencyStatus {
    /// All dependencies are present.
    AllPresent,
    /// Some are missing: downloads are blocked.
    MissingDependencies { ytdlp: bool, ffmpeg: bool },
}

/// The outcome of the last download, for the summary.
#[derive(Clone)]
pub struct DownloadResult {
    pub success: bool,
    pub tracks_count: usize,
    pub output_path: String,
    pub error: Option<String>,
}

impl Default for DownloadResult {
    fn default() -> (r: Self)
        ensures
            !r.success,
            r.tracks_count == 0,
            r.output_path@ == Seq::<char>::empty(),
            r.error is None,
    {
        DownloadResult { success: false, tracks_count: 0, output_path: String::new(), error: None }
    }
}

/// Data shared between screens.
pub struct ScreenData {
    pub input_url: String,
    pub input_artist: String,
    pub input_album: String,
    pub download_status: String,
    pub error_message: Option<String>,
    pub last_download_result: Option<DownloadResult>,
    /// The dependency check's result (`None` before it ran).
    pub dependency_status: Option<DependencyStatus>,
    /// Whether artist and album were detected from the video's metadata.
    pub metadata_autodetected: bool,
}

impl Default for ScreenData {
    fn default() -> (r: Self)
        ensures
            r.input_url@ == Seq::<char>::empty(),
            r.input_artist@ == Seq::<char>::empty(),
            r.input_album@ == Seq::<char>::empty(),
            r.download_status@ == Seq::<char>::empty(),
            r.error_message is None,
            r.last_download_result is None,
            r.dependency_status is None,
            !r.metadata_autodetected,
    {
        ScreenData {
            input_url: String::new(),
            input_artist: String::new(),
            input_album: String::new(),
            download_status: String::new(),
            error_message: None,
            last_download_result: None,
            dependency_status: None,
            metadata_autodetected: false,
        }
    }
}


/// The main application state: the current screen, the persistent state of
/// each screen, the configuration and the download queue.
pub struct App {
    pub current_screen: Screen,
    pub should_quit: bool,
    pub config: Config,
    pub screen_data: ScreenData,
    /// The terminal's capabilities.
    pub capabilities: TerminalCapabilities,
    pub welcome_screen: WelcomeScreen,
    pub playlist_screen: PlaylistScreen,
    pub progress_screen: ProgressScreen,
    pub settings_screen: SettingsScreen,
    pub summary_screen: SummaryScreen,
    pub download_screen: DownloadScreen,
    pub download_manager: DownloadManager,
    /// How many Esc presses came in quick succession.
    pub esc_press_count: u8,
    /// When the last Esc was pressed, in milliseconds.
    pub last_esc_ms: Option<u64>,
    /// Whether the terminal was resized.
    pub resized: bool,
}

/// What the front end does after a key press.
pub struct AppReply {
    /// The answer of the screen that had the key; `None` when Ctrl+C or a
    /// third quick Esc took it.
    pub routed: Option<ScreenResult>,
    /// The configuration to save, from the settings screen.
    pub save: Option<SaveRequest>,
    /// The folder to open, from the summary screen.
    pub open_folder: Option<String>,
    /// The playlist URL to load into the playlist screen.
    pub load_playlist: Option<String>,
}

/// Ctrl+C.
pub open spec fn is_ctrl_c(key: KeyEvent) -> bool {
    key.code == KeyCode::Char('c') && key.ctrl
}

/// Whether an Esc at `now_ms` comes within 800 ms of the last one.
pub open spec fn esc_is_rapid(last: Option<u64>, now_ms: u64) -> bool {
    match last {
        Some(t) => now_ms < t + 800,
        None => false,
    }
}

/// The number of quick Esc presses once an Esc at `now_ms` is counted.
pub open spec fn esc_count_after(count: u8, last: Option<u64>, now_ms: u64) -> int {
    if esc_is_rapid(last, now_ms) {
        count + 1
    } else {
        1
    }
}

/// The message shown when a download is asked for with tools missing.
pub open spec fn missing_dependencies_message() -> Seq<char> {
    "Missing dependencies. Please install yt-dlp and ffmpeg."@
}

/// The non-empty pieces of `s` from `start` on, split at line feeds.
pub open spec fn nonempty_pieces(s: Seq<char>, start: int) -> Seq<Seq<char>>
    decreases s.len() - start,
{
    if start < 0 || start >= s.len() {
        Seq::empty()
    } else {
        let e = char_or_end(s, '\n', start);
        proof {
            crate::tui::components::input::lemma_char_or_end_bounds(s, '\n', start);
        }
        let piece = s.subrange(start, e);
        let rest = if e >= s.len() {
            Seq::<Seq<char>>::empty()
        } else {
            nonempty_pieces(s, e + 1)
        };
        if piece.len() > 0 {
            seq![piece] + rest
        } else {
            rest
        }
    }
}

/// The views of an optional string.
pub open spec fn opt_chars(o: Option<String>) -> Option<Seq<char>> {
    match o {
        Some(s) => Some(s@),
        None => None,
    }
}

/// `None` for an empty text, else the text.
pub open spec fn unless_empty(s: Seq<char>) -> Option<Seq<char>> {
    if s.len() == 0 {
        None
    } else {
        Some(s)
    }
}

/// The queue `after` is `before` with tasks for `jobs` (URL, artist,
/// album) appended, pending, and started from its beginning.
pub open spec fn queued_and_started(
    before: DownloadManager,
    after: DownloadManager,
    jobs: Seq<(Seq<char>, Option<Seq<char>>, Option<Seq<char>>)>,
) -> bool {
    &&& after.wf()
    &&& after.tasks@.len() == before.tasks@.len() + jobs.len()
    &&& after.tasks@.take(before.tasks@.len() as int) == before.tasks@
    &&& forall|i: int|
        0 <= i < jobs.len() ==> {
            let t = #[trigger] after.tasks@[before.tasks@.len() + i];
            &&& t.url@ == jobs[i].0
            &&& opt_chars(t.artist) == jobs[i].1
            &&& opt_chars(t.album) == jobs[i].2
            &&& t.status == DownloadStatus::Pending
            &&& t.result is None
        }
    &&& after.is_active
    &&& after.current_index == 0
    &&& after.processing_task_index == before.processing_task_index
    &&& after.download_running == before.download_running
    &&& after.config == before.config
}

impl App {
    /// The screens and the queue are consistent, and at most two quick Esc
    /// presses are pending.
    pub open spec fn wf(&self) -> bool {
        &&& self.esc_press_count <= 2
        &&& self.welcome_screen.wf()
        &&& self.playlist_screen.wf()
        &&& self.settings_screen.wf()
        &&& self.download_screen.wf()
        &&& self.download_manager.wf()
    }
}

/// The state once the Esc bookkeeping of `key` is done: an Esc is counted,
/// any other key clears the count.
pub open spec fn esc_counted(s: App, key: KeyEvent, now_ms: u64) -> App {
    if key.code == KeyCode::Esc {
        App { esc_press_count: esc_count_after(s.esc_press_count, s.last_esc_ms, now_ms) as u8, last_esc_ms: Some(now_ms), ..s }
    } else {
        App { esc_press_count: 0, last_esc_ms: None, ..s }
    }
}

/// The screen that is shown hands the key on: `m` is `e` after that
/// screen answered `res`, with `r`'s save request and folder its own.
pub open spec fn handled(e: App, key: KeyEvent, now_ms: u64, m: App, res: ScreenResult, r: AppReply) -> bool {
    match e.current_screen {
        Screen::Welcome => m == e && res == (if e.welcome_screen.current_state() != WelcomeState::Idle {
            ScreenResult::Continue
        } else {
            welcome_key(key.code)
        }) && r.save is None && r.open_folder is None,
        Screen::Download => download_step(e.download_screen, key, now_ms, e.screen_data, m.download_screen, m.screen_data, res)
            && m == (App { download_screen: m.download_screen, screen_data: m.screen_data, ..e })
            && r.save is None && r.open_folder is None,
        Screen::Playlist => playlist_step(e.playlist_screen, key, e.screen_data, m.playlist_screen, m.screen_data, res)
            && m == (App { playlist_screen: m.playlist_screen, screen_data: m.screen_data, ..e })
            && r.save is None && r.open_folder is None,
        Screen::Progress => progress_step(e.progress_screen, key, m.progress_screen, res)
            && m == (App { progress_screen: m.progress_screen, ..e }) && r.save is None && r.open_folder is None,
        Screen::Settings => exists|sr: crate::tui::screens::settings::SettingsReply|
            settings_step(e.settings_screen, key, e.config@, m.settings_screen, m.config@, sr) && res == sr.result
                && r.save == sr.save && m == (App { settings_screen: m.settings_screen, config: m.config, ..e })
                && r.open_folder is None,
        Screen::Help => m == e && res == help_key(key.code) && r.save is None && r.open_folder is None,
        Screen::Summary => exists|sr: crate::tui::screens::summary::SummaryReply|
            summary_step(e.summary_screen, key, e.screen_data, m.summary_screen, m.screen_data, sr) && res == sr.result
                && r.open_folder == sr.open_folder && m == (App { summary_screen: m.summary_screen, screen_data: m.screen_data, ..e })
                && r.save is None,
    }
}

/// The state once the screen's answer is followed: another screen is shown
/// (and the Esc count cleared), or the application is to quit.
pub open spec fn navigated(m: App, res: ScreenResult) -> App {
    match res {
        ScreenResult::Continue => m,
        ScreenResult::NavigateTo(x) => App { current_screen: x, esc_press_count: 0, last_esc_ms: None, ..m },
        ScreenResult::Quit => App { should_quit: true, ..m },
    }
}

/// What a change of screen from `prev` sets off, from `n` to `f`.
/// Leaving the download screen for the welcome screen clears it; going to
/// the playlist screen starts loading the playlist of the URL; going to the
/// progress screen queues the URL (or the chosen playlist URLs) and starts
/// the queue, unless tools are missing: then the error is shown and the
/// screen stays.
pub open spec fn transition(prev: Screen, n: App, f: App, load: Option<String>) -> bool {
    let blocked = n.screen_data.dependency_status matches Some(DependencyStatus::MissingDependencies { .. });
    if n.current_screen == prev {
        f == n && load is None
    } else if prev == Screen::Download && n.current_screen == Screen::Welcome {
        &&& download_cleared(n.download_screen, f.download_screen)
        &&& f == (App { download_screen: f.download_screen, screen_data: ScreenData { metadata_autodetected: false, ..n.screen_data }, ..n })
        &&& load is None
    } else if prev == Screen::Download && n.current_screen == Screen::Playlist {
        &&& load_begun(n.playlist_screen, f.playlist_screen)
        &&& f == (App { playlist_screen: f.playlist_screen, ..n })
        &&& load is Some
        &&& load->0@ == n.screen_data.input_url@
    } else if (prev == Screen::Download || prev == Screen::Playlist) && n.current_screen == Screen::Progress {
        &&& load is None
        &&& if blocked {
            &&& f.screen_data.error_message is Some
            &&& f.screen_data.error_message->0@ == missing_dependencies_message()
            &&& f == (App {
                current_screen: prev,
                screen_data: ScreenData { error_message: f.screen_data.error_message, ..n.screen_data },
                ..n
            })
        } else if prev == Screen::Download {
            let url = trim(n.screen_data.input_url@);
            if url.len() > 0 {
                &&& queued_and_started(
                    n.download_manager,
                    f.download_manager,
                    seq![(url, unless_empty(n.screen_data.input_artist@), unless_empty(n.screen_data.input_album@))],
                )
                &&& f == (App { download_manager: f.download_manager, ..n })
            } else {
                f == n
            }
        } else {
            let urls = nonempty_pieces(n.screen_data.input_url@, 0);
            if urls.len() > 0 {
                &&& queued_and_started(
                    n.download_manager,
                    f.download_manager,
                    urls.map_values(|u: Seq<char>| (u, None::<Seq<char>>, None::<Seq<char>>)),
                )
                &&& f == (App { download_manager: f.download_manager, ..n })
            } else {
                f == n
            }
        }
    } else {
        f == n && load is None
    }
}

/// The answer to a key that only the application handles.
pub open spec fn quiet(r: AppReply) -> bool {
    r.routed is None && r.save is None && r.open_folder is None && r.load_playlist is None
}

/// How the application answers `key` at `now_ms`, from `s` to `f`: Ctrl+C
/// quits; a third Esc within 800 ms of the one before goes back to the
/// welcome screen; any other key is counted (see [`esc_counted`]), handed
/// to the screen shown (see [`handled`]), whose answer is followed (see
/// [`navigated`]) with what a change of screen sets off (see
/// [`transition`]).
pub open spec fn key_handled(s: App, key: KeyEvent, now_ms: u64, f: App, r: AppReply) -> bool {
    if is_ctrl_c(key) {
        f == (App { should_quit: true, ..s }) && quiet(r)
    } else if key.code == KeyCode::Esc && esc_count_after(s.esc_press_count, s.last_esc_ms, now_ms) >= 3 {
        f == (App { current_screen: Screen::Welcome, esc_press_count: 0, last_esc_ms: None, ..s }) && quiet(r)
    } else {
        exists|m: App, res: ScreenResult|
            #[trigger] handled(esc_counted(s, key, now_ms), key, now_ms, m, res, r) && r.routed == Some(res)
                && transition(s.current_screen, navigated(m, res), f, r.load_playlist)
    }
}

impl App {
    /// The application on the welcome screen, with the configuration, the
    /// terminal's capabilities and the result of the dependency check.
    pub fn new(config: Config, capabilities: TerminalCapabilities, deps: DependencyState) -> (r: Result<Self, YtcsError>)
        ensures
            r is Ok,
            ({
                let a = r->Ok_0;
                &&& a.wf()
                &&& a.current_screen == Screen::Welcome
                &&& !a.should_quit
                &&& a.config == config
                &&& a.capabilities == capabilities
                &&& a.screen_data.input_url@ == Seq::<char>::empty()
                &&& a.screen_data.input_artist@ == Seq::<char>::empty()
                &&& a.screen_data.input_album@ == Seq::<char>::empty()
                &&& a.screen_data.error_message is None
                &&& a.screen_data.last_download_result is None
                &&& !a.screen_data.metadata_autodetected
                &&& a.screen_data.dependency_status == Some(if deps.ytdlp.installed && deps.ffmpeg.installed {
                    DependencyStatus::AllPresent
                } else {
                    DependencyStatus::MissingDependencies { ytdlp: !deps.ytdlp.installed, ffmpeg: !deps.ffmpeg.installed }
                })
                &&& a.welcome_screen.current_state() == WelcomeState::Idle
                &&& a.playlist_screen.state is Loading
                &&& a.download_screen.focused_field == crate::tui::screens::download::FocusedField::Url
                &&& a.download_manager.tasks@.len() == 0
                &&& !a.download_manager.is_active
                &&& a.download_manager.config@ == config@
                &&& a.esc_press_count == 0
                &&& a.last_esc_ms is None
                &&& !a.resized
                &&& a.screen_data.download_status@ == Seq::<char>::empty()
                &&& a.welcome_screen.message() == Seq::<char>::empty()
                &&& a.playlist_screen.selected_videos@.len() == 0
                &&& a.playlist_screen.focused_index == 0
                &&& a.playlist_screen.offset == 0
                &&& a.progress_screen.progress == 0
                &&& a.progress_screen.status_message@ == Seq::<char>::empty()
                &&& a.progress_screen.completed == 0
                &&& a.progress_screen.total == 0
                &&& a.progress_screen.failed == 0
                &&& a.progress_screen.mode == crate::tui::screens::progress::ProgressMode::Detailed
                &&& a.settings_screen.items@.len() == 0
                &&& a.settings_screen.selected == 0
                &&& a.settings_screen.offset == 0
                &&& a.settings_screen.state == crate::tui::screens::settings::SettingsState::Browsing
                &&& !a.settings_screen.pending_changes
                &&& a.settings_screen.config_snapshot is None
                &&& a.settings_screen.modal is None
                &&& a.summary_screen.selected_action == crate::tui::screens::summary::SummaryAction::OpenFolder
                &&& a.download_screen.download_state == crate::tui::screens::download::DownloadState::Idle
                &&& a.download_screen.metadata_state == crate::tui::screens::download::MetadataState::Idle
                &&& a.download_screen.url_input.value@ == Seq::<char>::empty()
                &&& a.download_manager.current_index == 0
                &&& a.download_manager.processing_task_index is None
                &&& !a.download_manager.download_running
            }),
    {
        let dependency_status = if deps.all_present() {
            Some(DependencyStatus::AllPresent)
        } else {
            Some(DependencyStatus::MissingDependencies { ytdlp: !deps.ytdlp.installed, ffmpeg: !deps.ffmpeg.installed })
        };
        let mut screen_data = ScreenData::default();
        screen_data.dependency_status = dependency_status;
        let manager_config = config.duplicate();
        Ok(App {
            current_screen: Screen::Welcome,
            should_quit: false,
            config,
            screen_data,
            capabilities,
            welcome_screen: WelcomeScreen::new(),
            playlist_screen: PlaylistScreen::new(),
            progress_screen: ProgressScreen::new(),
            settings_screen: SettingsScreen::new(),
            summary_screen: SummaryScreen::new(),
            download_screen: DownloadScreen::new(),
            download_manager: DownloadManager::new(manager_config),
            esc_press_count: 0,
            last_esc_ms: None,
            resized: false,
        })
    }

    /// Forgets the Esc presses counted so far.
    fn reset_esc_tracking(&mut self)
        ensures
            *final(self) == (App { esc_press_count: 0, last_esc_ms: None, ..*old(self) }),
    {
        self.esc_press_count = 0;
        self.last_esc_ms = None;
    }

    /// Counts an Esc pressed at `now_ms`; on the third within 800 ms of
    /// each other goes back to the welcome screen and returns `true`.
    fn handle_esc_press(&mut self, now_ms: u64) -> (r: bool)
        requires
            old(self).esc_press_count <= 2,
        ensures
            r == (esc_count_after(old(self).esc_press_count, old(self).last_esc_ms, now_ms) >= 3),
            r ==> *final(self) == (App {
                current_screen: Screen::Welcome,
                esc_press_count: 0,
                last_esc_ms: None,
                ..*old(self)
            }),
            !r ==> *final(self) == esc_counted(*old(self), KeyEvent { code: KeyCode::Esc, ctrl: false }, now_ms),
    {
        let rapid = match self.last_esc_ms {
            Some(t) => now_ms < t || now_ms - t < 800,
            None => false,
        };
        if rapid {
            self.esc_press_count = self.esc_press_count + 1;
        } else {
            self.esc_press_count = 1;
        }
        self.last_esc_ms = Some(now_ms);
        if self.esc_press_count >= 3 {
            self.reset_esc_tracking();
            self.current_screen = Screen::Welcome;
            return true;
        }
        false
    }

    /// Hands the key to the screen shown and returns its answer, with the
    /// settings screen's save request or the summary screen's folder.
    fn route_key(&mut self, key: KeyEvent, now_ms: u64) -> (r: AppReply)
        requires
            old(self).wf(),
            old(self).current_screen == Screen::Playlist && old(self).playlist_screen.state is Loaded && key.code
                == KeyCode::PageDown ==> old(self).playlist_screen.video_count() > 0,
        ensures
            final(self).wf(),
            r.routed is Some,
            r.load_playlist is None,
            handled(*old(self), key, now_ms, *final(self), r.routed->0, r),
    {
        let ghost e = *self;
        let mut save: Option<SaveRequest> = None;
        let mut open_folder: Option<String> = None;
        let ghost mut settings_answer: Option<crate::tui::screens::settings::SettingsReply> = None;
        let ghost mut summary_answer: Option<crate::tui::screens::summary::SummaryReply> = None;
        let res = match self.current_screen {
            Screen::Welcome => self.welcome_screen.handle_key(key),
            Screen::Download => self.download_screen.handle_key(key, now_ms, &mut self.screen_data),
            Screen::Playlist => self.playlist_screen.handle_key(key, &mut self.screen_data),
            Screen::Progress => self.progress_screen.handle_key(key),
            Screen::Settings => {
                let sr = self.settings_screen.handle_key(key, &mut self.config);
                proof {
                    settings_answer = Some(sr);
                }
                save = sr.save;
                sr.result
            },
            Screen::Help => {
                let mut help = HelpScreen::new();
                help.handle_key(key)
            },
            Screen::Summary => {
                let sr = self.summary_screen.handle_key(key, &mut self.screen_data);
                proof {
                    summary_answer = Some(sr);
                }
                open_folder = sr.open_folder;
                sr.result
            },
        };
        let r = AppReply { routed: Some(res), save, open_folder, load_playlist: None };
        proof {
            match e.current_screen {
                Screen::Settings => {
                    let sr = settings_answer->0;
                    assert(settings_step(e.settings_screen, key, e.config@, self.settings_screen, self.config@, sr));
                },
                Screen::Summary => {
                    let sr = summary_answer->0;
                    assert(summary_step(e.summary_screen, key, e.screen_data, self.summary_screen, self.screen_data, sr));
                },
                _ => {},
            }
        }
        r
    }

    /// Follows a screen's answer: see [`navigated`].
    fn follow(&mut self, res: ScreenResult)
        ensures
            *final(self) == navigated(*old(self), res),
    {
        match res {
            ScreenResult::Continue => {},
            ScreenResult::NavigateTo(screen) => {
                self.current_screen = screen;
                self.reset_esc_tracking();
            },
            ScreenResult::Quit => {
                self.should_quit = true;
            },
        }
    }

    /// Queues the URL typed on the download screen, trimmed, with the
    /// artist and album typed (when not empty), and starts the queue; an
    /// empty URL queues nothing.
    fn queue_typed_url(&mut self)
        requires
            old(self).download_manager.wf(),
        ensures
            ({
                let url = trim(old(self).screen_data.input_url@);
                if url.len() > 0 {
                    &&& queued_and_started(
                        old(self).download_manager,
                        final(self).download_manager,
                        seq![(url, unless_empty(old(self).screen_data.input_artist@), unless_empty(old(self).screen_data.input_album@))],
                    )
                    &&& *final(self) == (App { download_manager: final(self).download_manager, ..*old(self) })
                } else {
                    *final(self) == *old(self)
                }
            }),
    {
        let raw = chars_of(self.screen_data.input_url.as_str());
        let url = trim_chars(&raw);
        if url.len() > 0 {
            let artist_chars = chars_of(self.screen_data.input_artist.as_str());
            let artist = if artist_chars.len() == 0 {
                None
            } else {
                Some(owned(self.screen_data.input_artist.as_str()))
            };
            let album_chars = chars_of(self.screen_data.input_album.as_str());
            let album = if album_chars.len() == 0 {
                None
            } else {
                Some(owned(self.screen_data.input_album.as_str()))
            };
            let ghost d0 = self.download_manager;
            self.download_manager.add_url(string_of(&url), artist, album);
            self.download_manager.start();
            proof {
                assert(self.download_manager.tasks@.take(d0.tasks@.len() as int) =~= d0.tasks@);
            }
        }
    }

    /// Queues the chosen playlist URLs (the non-empty lines of the shared
    /// URL text) and starts the queue; with none, queues nothing.
    fn queue_chosen_urls(&mut self)
        requires
            old(self).download_manager.wf(),
        ensures
            ({
                let urls = nonempty_pieces(old(self).screen_data.input_url@, 0);
                if urls.len() > 0 {
                    &&& queued_and_started(
                        old(self).download_manager,
                        final(self).download_manager,
                        urls.map_values(|u: Seq<char>| (u, None::<Seq<char>>, None::<Seq<char>>)),
                    )
                    &&& *final(self) == (App { download_manager: final(self).download_manager, ..*old(self) })
                } else {
                    *final(self) == *old(self)
                }
            }),
    {
        let urls = split_nonempty_lines(self.screen_data.input_url.as_str());
        if urls.len() > 0 {
            let ghost d0 = self.download_manager;
            let ghost uv = urls@;
            self.download_manager.add_playlist_urls(urls);
            self.download_manager.start();
            proof {
                let pieces = nonempty_pieces(old(self).screen_data.input_url@, 0);
                let jobs = pieces.map_values(|u: Seq<char>| (u, None::<Seq<char>>, None::<Seq<char>>));
                assert forall|i: int| 0 <= i < jobs.len() implies {
                    let t = #[trigger] self.download_manager.tasks@[d0.tasks@.len() + i];
                    &&& t.url@ == jobs[i].0
                    &&& opt_chars(t.artist) == jobs[i].1
                    &&& opt_chars(t.album) == jobs[i].2
                    &&& t.status == DownloadStatus::Pending
                    &&& t.result is None
                } by {
                    assert(uv.map_values(|u: String| u@)[i] == uv[i]@);
                }
            }
        }
    }

    /// Does what a change of screen from `previous` sets off: see
    /// [`transition`]. Returns the playlist URL to load, if any.
    fn on_screen_change(&mut self, previous: Screen) -> (load: Option<String>)
        requires
            old(self).wf(),
        ensures
            final(self).wf(),
            transition(previous, *old(self), *final(self), load),
    {
        let mut load_playlist: Option<String> = None;
        if previous != self.current_screen {
            let blocked = match self.screen_data.dependency_status {
                Some(DependencyStatus::MissingDependencies { .. }) => true,
                _ => false,
            };
            if previous == Screen::Download && self.current_screen == Screen::Welcome {
                self.screen_data.metadata_autodetected = false;
                self.download_screen.reset();
            } else if previous == Screen::Download && self.current_screen == Screen::Playlist {
                self.playlist_screen.begin_load();
                load_playlist = Some(owned(self.screen_data.input_url.as_str()));
            } else if (previous == Screen::Download || previous == Screen::Playlist) && self.current_screen
                == Screen::Progress {
                if blocked {
                    self.screen_data.error_message = Some(owned("Missing dependencies. Please install yt-dlp and ffmpeg."));
                    self.current_screen = previous;
                } else if previous == Screen::Download {
                    self.queue_typed_url();
                } else {
                    self.queue_chosen_urls();
                }
            }
        }
        load_playlist
    }

    /// Answers a key press at `now_ms`: see [`key_handled`]. Page Down on a
    /// loaded playlist needs one video at least.
    pub fn handle_key_event(&mut self, key: KeyEvent, now_ms: u64) -> (r: AppReply)
        requires
            old(self).wf(),
            old(self).current_screen == Screen::Playlist && old(self).playlist_screen.state is Loaded && key.code
                == KeyCode::PageDown ==> old(self).playlist_screen.video_count() > 0,
        ensures
            final(self).wf(),
            key_handled(*old(self), key, now_ms, *final(self), r),
    {
        if key.code == KeyCode::Char('c') && key.ctrl {
            self.should_quit = true;
            return AppReply { routed: None, save: None, open_folder: None, load_playlist: None };
        }
        if key.code == KeyCode::Esc {
            if self.handle_esc_press(now_ms) {
                return AppReply { routed: None, save: None, open_folder: None, load_playlist: None };
            }
        } else {
            self.reset_esc_tracking();
        }
        let ghost e = *self;
        assert(e == esc_counted(*old(self), key, now_ms));
        let previous = self.current_screen;
        let routed = self.route_key(key, now_ms);
        let res = routed.routed.unwrap();
        let ghost m = *self;
        self.follow(res);
        let ghost n = *self;
        let load = self.on_screen_change(previous);
        let r = AppReply { load_playlist: load, ..routed };
        assert(handled(e, key, now_ms, m, res, r));
        assert(transition(previous, n, *self, r.load_playlist));
        r
    }
}

/// The summary's record of a finished task's outcome.
pub open spec fn result_copied(res: TaskResult, d: DownloadResult) -> bool {
    &&& d.success == res.success
    &&& d.tracks_count == res.tracks_count
    &&& d.output_path@ == res.output_path@
    &&& opt_chars(d.error) == opt_chars(res.error)
}

impl App {
    /// Moves the download queue along (see [`polled`]) with the outcome of
    /// the task being run, if it ended. When the queue was active and is
    /// now done (nothing pending, stopped), the outcome of its last task is
    /// kept for the summary, which is shown. Returns the queue's answer:
    /// whether work remains and the task to start.
    pub fn update(&mut self, finished: Option<Result<TaskResult, String>>) -> (r: (bool, Option<TaskStart>))
        requires
            old(self).wf(),
        ensures
            final(self).wf(),
            !old(self).download_manager.is_active ==> *final(self) == *old(self) && !r.0 && r.1 is None,
            old(self).download_manager.is_active ==> {
                let s = *old(self);
                let f = *final(self);
                let q = f.download_manager;
                &&& polled(s.download_manager, finished, q, r)
                &&& if count_pending(q.tasks@) == 0 && !q.is_active {
                    &&& f.current_screen == Screen::Summary
                    &&& if q.tasks@.len() > 0 && q.tasks@.last().result is Some {
                        &&& f.screen_data.last_download_result is Some
                        &&& result_copied(q.tasks@.last().result->0, f.screen_data.last_download_result->0)
                        &&& f == (App {
                            download_manager: q,
                            current_screen: Screen::Summary,
                            screen_data: ScreenData { last_download_result: f.screen_data.last_download_result, ..s.screen_data },
                            ..s
                        })
                    } else {
                        f == (App { download_manager: q, current_screen: Screen::Summary, ..s })
                    }
                } else {
                    f == (App { download_manager: q, ..s })
                }
            },
    {
        if !self.download_manager.is_active() {
            return (false, None);
        }
        let r = self.download_manager.poll_downloads(finished);
        if self.download_manager.pending_count() == 0 && !self.download_manager.is_active() {
            let n = self.download_manager.tasks().len();
            if n > 0 {
                let last = &self.download_manager.tasks()[n - 1];
                match &last.result {
                    Some(res) => {
                        let error = match &res.error {
                            Some(e) => Some(owned(e.as_str())),
                            None => None,
                        };
                        self.screen_data.last_download_result = Some(
                            DownloadResult {
                                success: res.success,
                                tracks_count: res.tracks_count,
                                output_path: owned(res.output_path.as_str()),
                                error,
                            },
                        );
                    },
                    None => {},
                }
            }
            self.current_screen = Screen::Summary;
        }
        r
    }
}

/// The non-empty lines of `text`, split at line feeds.
pub fn split_nonempty_lines(text: &str) -> (r: Vec<String>)
    ensures
        r@.map_values(|u: String| u@) == nonempty_pieces(text@, 0),
{
    let v = chars_of(text);
    let mut out: Vec<String> = Vec::new();
    let mut start: usize = 0;
    while start < v.len()
        invariant
            start <= v@.len(),
            out@.map_values(|u: String| u@) + nonempty_pieces(v@, start as int) == nonempty_pieces(v@, 0),
        decreases v@.len() - start,
    {
        let e = char_or_end_pub(&v, '\n', start);
        proof {
            crate::tui::components::input::lemma_char_or_end_bounds(v@, '\n', start as int);
        }
        let ghost before = out@.map_values(|u: String| u@);
        let piece = slice(&v, start, e);
        if piece.len() > 0 {
            out.push(string_of(&piece));
            proof {
                assert(out@.map_values(|u: String| u@) =~= before.push(piece@));
            }
        }
        if e >= v.len() {
            proof {
                assert(nonempty_pieces(v@, e as int) =~= Seq::<Seq<char>>::empty());
                assert(out@.map_values(|u: String| u@) + nonempty_pieces(v@, e as int) =~= before
                    + nonempty_pieces(v@, start as int));
            }
            start = e;
        } else {
            proof {
                assert(out@.map_values(|u: String| u@) + nonempty_pieces(v@, e + 1) =~= before
                    + nonempty_pieces(v@, start as int));
            }
            start = e + 1;
        }
    }
    proof {
        assert(nonempty_pieces(v@, start as int) =~= Seq::<Seq<char>>::empty());
    }
    out
}

} // verus!

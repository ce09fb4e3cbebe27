use youtube_chapter_splitter::config::Config;
use youtube_chapter_splitter::dependency::detect::{DependencyStatus, InstallMethod};
use youtube_chapter_splitter::dependency::DependencyState;
use youtube_chapter_splitter::tui::app::{split_nonempty_lines, App, DependencyStatus as Deps, Screen};
use youtube_chapter_splitter::tui::keys::{KeyCode, KeyEvent};
use youtube_chapter_splitter::tui::layout::{TermEnv, TerminalCapabilities};
use youtube_chapter_splitter::tui::screens::ScreenResult;

fn app(ytdlp: bool) -> App {
    let env = TermEnv { lang: None, lc_all: None, lc_ctype: None, term: None, no_color: true, colorterm: None };
    let caps = TerminalCapabilities::detect(Some((100, 40)), &env);
    let deps = DependencyState::check_all(
        DependencyStatus::check(ytdlp, None, InstallMethod::Pip),
        DependencyStatus::check(true, None, InstallMethod::Apt),
    );
    App::new(Config::default(), caps, deps).unwrap()
}

fn key(c: KeyCode) -> KeyEvent {
    KeyEvent::new(c)
}

#[test]
fn ctrl_c_quits_from_anywhere() {
    let mut a = app(true);
    let r = a.handle_key_event(KeyEvent::with_ctrl(KeyCode::Char('c')), 0);
    assert!(a.should_quit);
    assert!(r.routed.is_none());
}

#[test]
fn three_quick_escapes_go_home() {
    let mut a = app(true);
    a.handle_key_event(key(KeyCode::Char('h')), 0);
    assert_eq!(a.current_screen, Screen::Help);
    a.current_screen = Screen::Progress;
    a.handle_key_event(key(KeyCode::Esc), 1_000);
    assert_eq!(a.current_screen, Screen::Progress);
    a.handle_key_event(key(KeyCode::Esc), 1_500);
    assert_eq!(a.esc_press_count, 2);
    let r = a.handle_key_event(key(KeyCode::Esc), 2_000);
    assert!(r.routed.is_none());
    assert_eq!(a.current_screen, Screen::Welcome);
}

#[test]
fn slow_escapes_are_handed_to_the_screen() {
    let mut a = app(true);
    a.handle_key_event(key(KeyCode::Char('h')), 0);
    let r = a.handle_key_event(key(KeyCode::Esc), 10_000);
    assert_eq!(r.routed, Some(ScreenResult::NavigateTo(Screen::Welcome)));
    assert_eq!(a.current_screen, Screen::Welcome);
}

#[test]
fn downloads_are_queued_when_the_tools_are_there() {
    let mut a = app(true);
    a.handle_key_event(key(KeyCode::Enter), 0);
    assert_eq!(a.current_screen, Screen::Download);
    for c in "https://youtu.be/dQw4w9WgXcQ".chars() {
        a.handle_key_event(key(KeyCode::Char(c)), 10);
    }
    a.handle_key_event(key(KeyCode::Enter), 20);
    assert_eq!(a.current_screen, Screen::Progress);
    assert_eq!(a.download_manager.tasks.len(), 1);
    assert!(a.download_manager.is_active);
    let (more, start) = a.update(None);
    assert!(more);
    assert_eq!(start.unwrap().url, "https://youtu.be/dQw4w9WgXcQ");
}

#[test]
fn downloads_are_refused_without_the_tools() {
    let mut a = app(false);
    assert!(matches!(a.screen_data.dependency_status, Some(Deps::MissingDependencies { ytdlp: true, ffmpeg: false })));
    a.handle_key_event(key(KeyCode::Char('d')), 0);
    for c in "https://youtu.be/dQw4w9WgXcQ".chars() {
        a.handle_key_event(key(KeyCode::Char(c)), 10);
    }
    a.handle_key_event(key(KeyCode::Enter), 20);
    assert_eq!(a.current_screen, Screen::Download);
    assert_eq!(a.screen_data.error_message.as_deref(), Some("Missing dependencies. Please install yt-dlp and ffmpeg."));
    assert!(a.download_manager.tasks.is_empty());
}

#[test]
fn chosen_urls_are_split_into_lines() {
    assert_eq!(split_nonempty_lines("a\n\nb\n"), vec!["a".to_string(), "b".to_string()]);
    assert!(split_nonempty_lines("").is_empty());
}

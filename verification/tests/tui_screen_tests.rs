use youtube_chapter_splitter::config::{AudioFormat, AutoInstallBehavior, PlaylistBehavior};
use youtube_chapter_splitter::config::Config;
use youtube_chapter_splitter::playlist::{PlaylistInfo, PlaylistVideo};
use youtube_chapter_splitter::tui::screens::settings::SaveRequest;
use youtube_chapter_splitter::tui::app::{Screen, ScreenData};
use youtube_chapter_splitter::tui::keys::{KeyCode, KeyEvent};
use youtube_chapter_splitter::tui::layout::{LayoutConstraints, LayoutEngine, TermEnv, TerminalCapabilities};
use youtube_chapter_splitter::tui::screens::help::HelpScreen;
use youtube_chapter_splitter::tui::screens::playlist::{PlaylistScreen, PlaylistState};
use youtube_chapter_splitter::tui::screens::progress::{ProgressMode, ProgressScreen};
use youtube_chapter_splitter::tui::screens::settings::{
    format_value_display, SettingItem, SettingType, SettingsScreen,
};
use youtube_chapter_splitter::tui::screens::summary::{SummaryAction, SummaryScreen};
use youtube_chapter_splitter::tui::screens::welcome::{WelcomeScreen, WelcomeState};
use youtube_chapter_splitter::tui::screens::ScreenResult;

#[test]
fn test_layout_engine_new() {
    let engine = LayoutEngine::new();
    assert_eq!(engine.min_width, 60);
    assert_eq!(engine.min_height, 20);
}

#[test]
fn test_is_terminal_too_small() {
    let engine = LayoutEngine::new();
    assert!(engine.is_terminal_too_small(40, 15));
    assert!(engine.is_terminal_too_small(80, 15));
    assert!(engine.is_terminal_too_small(40, 24));
    assert!(!engine.is_terminal_too_small(80, 24));
}

#[test]
fn test_minimum_size() {
    let engine = LayoutEngine::new();
    assert_eq!(engine.minimum_size(), (60, 20));
}

#[test]
fn test_layout_constraints_small() {
    let constraints = LayoutConstraints::new();
    let small = constraints.select_for(50);
    assert!(small.compact);
    assert!(!small.show_labels);
}

#[test]
fn test_layout_constraints_medium() {
    let constraints = LayoutConstraints::new();
    let medium = constraints.select_for(70);
    assert!(!medium.compact);
    assert!(medium.show_labels);
}

#[test]
fn test_layout_constraints_large() {
    let constraints = LayoutConstraints::new();
    let large = constraints.select_for(100);
    assert!(!large.compact);
    assert!(large.show_labels);
    assert_eq!(large.max_content_width, 90);
}

#[test]
fn terminal_capabilities_from_environment() {
    let env = TermEnv {
        lang: Some("en_US.UTF-8".to_string()),
        lc_all: None,
        lc_ctype: None,
        term: Some("xterm".to_string()),
        no_color: false,
        colorterm: None,
    };
    let caps = TerminalCapabilities::detect(None, &env);
    assert_eq!((caps.width, caps.height), (80, 24));
    assert!(caps.unicode && caps.color && !caps.too_small);
    let small = TerminalCapabilities::detect(Some((50, 30)), &env);
    assert!(small.too_small);
    assert_eq!(small.layout_constraints().max_content_width, 46);
}

#[test]
fn test_progress_screen_new() {
    let screen = ProgressScreen::new();
    assert_eq!(screen.progress, 0);
    assert_eq!(screen.completed, 0);
    assert_eq!(screen.total, 0);
    assert!(!screen.is_complete());
}

#[test]
fn test_progress_screen_update() {
    let mut screen = ProgressScreen::new();
    screen.update_from_manager(50, 1, 2, 0);
    assert_eq!(screen.progress, 50);
    assert_eq!(screen.completed, 1);
    assert_eq!(screen.total, 2);
    assert!(!screen.is_complete());
}

#[test]
fn test_progress_screen_complete() {
    let mut screen = ProgressScreen::new();
    screen.update_from_manager(100, 5, 5, 0);
    assert_eq!(screen.progress, 100);
    assert_eq!(screen.completed, 5);
    assert_eq!(screen.total, 5);
    assert!(screen.is_complete());
}

#[test]
fn test_progress_screen_with_failures() {
    let mut screen = ProgressScreen::new();
    screen.update_from_manager(100, 3, 5, 2);
    assert_eq!(screen.completed, 3);
    assert_eq!(screen.failed, 2);
    assert!(screen.is_complete());
}

#[test]
fn progress_screen_status_and_keys() {
    let mut screen = ProgressScreen::new();
    screen.update_from_manager(50, 1, 3, 0);
    assert_eq!(screen.status_message, "Downloading 2/3");
    assert_eq!(screen.handle_key(KeyEvent::new(KeyCode::Enter)), ScreenResult::Continue);
    screen.update_from_manager(100, 2, 3, 1);
    assert_eq!(screen.status_message, "Completed with 1 errors");
    assert_eq!(
        screen.handle_key(KeyEvent::new(KeyCode::Enter)),
        ScreenResult::NavigateTo(Screen::Summary)
    );
    screen.handle_key(KeyEvent::new(KeyCode::Char('p')));
    assert_eq!(screen.mode(), ProgressMode::Minimal);
    assert_eq!(screen.footer_text(), "Enter: Results | Esc: Back | P: Mode (Minimal)");
}

#[test]
fn test_summary_screen_new() {
    let screen = SummaryScreen::new();
    assert_eq!(screen.selected_action, SummaryAction::OpenFolder);
}

#[test]
fn test_action_navigation() {
    let mut screen = SummaryScreen::new();
    assert_eq!(screen.selected_action, SummaryAction::OpenFolder);
    screen.selected_action = match screen.selected_action {
        SummaryAction::OpenFolder => SummaryAction::DownloadAnother,
        _ => screen.selected_action,
    };
    assert_eq!(screen.selected_action, SummaryAction::DownloadAnother);
    screen.selected_action = match screen.selected_action {
        SummaryAction::DownloadAnother => SummaryAction::Quit,
        _ => screen.selected_action,
    };
    assert_eq!(screen.selected_action, SummaryAction::Quit);
}

#[test]
fn summary_download_another_clears_inputs() {
    let mut screen = SummaryScreen::new();
    let mut data = ScreenData::default();
    data.input_url = "https://youtu.be/x".to_string();
    let reply = screen.handle_key(KeyEvent::new(KeyCode::Char('d')), &mut data);
    assert_eq!(reply.result, ScreenResult::NavigateTo(Screen::Welcome));
    assert!(data.input_url.is_empty());
    assert!(reply.open_folder.is_none());
    screen.handle_key(KeyEvent::new(KeyCode::Left), &mut data);
    assert_eq!(screen.selected_action, SummaryAction::Quit);
}

#[test]
fn test_welcome_screen_new() {
    let screen = WelcomeScreen::new();
    assert_eq!(screen.state(), &WelcomeState::Idle);
    assert!(!screen.is_loading());
}

#[test]
fn test_welcome_screen_loading() {
    let mut screen = WelcomeScreen::new();
    screen.set_loading(WelcomeState::FetchingVideoInfo, "Fetching video info...");
    assert!(screen.is_loading());
    assert_eq!(screen.loading_message, "Fetching video info...");
}

#[test]
fn test_welcome_screen_set_idle() {
    let mut screen = WelcomeScreen::new();
    screen.set_loading(WelcomeState::FetchingVideoInfo, "Loading...");
    screen.set_idle();
    assert!(!screen.is_loading());
}

#[test]
fn welcome_menu_keys() {
    let screen = WelcomeScreen::new();
    assert_eq!(
        screen.handle_key(KeyEvent::new(KeyCode::Char('s'))),
        ScreenResult::NavigateTo(Screen::Settings)
    );
    assert_eq!(screen.handle_key(KeyEvent::new(KeyCode::F(1))), ScreenResult::NavigateTo(Screen::Help));
    assert_eq!(screen.handle_key(KeyEvent::new(KeyCode::Char('Q'))), ScreenResult::Quit);
}

#[test]
fn help_screen_scrolls() {
    let mut help = HelpScreen::new();
    help.handle_key(KeyEvent::new(KeyCode::PageDown));
    help.handle_key(KeyEvent::new(KeyCode::Up));
    assert_eq!(help.scroll_offset(), 9);
    assert_eq!(help.handle_key(KeyEvent::new(KeyCode::Esc)), ScreenResult::NavigateTo(Screen::Welcome));
}

#[test]
fn test_settings_screen_new() {
    let screen = SettingsScreen::new();
    assert!(screen.items.is_empty());
    assert_eq!(screen.selected, 0);
    assert!(!screen.pending_changes);
}

#[test]
fn test_select_navigation() {
    let mut screen = SettingsScreen::new();
    screen.items = vec![
        SettingItem::new("1", "One", "", SettingType::Boolean, "false"),
        SettingItem::new("2", "Two", "", SettingType::Boolean, "true"),
    ];
    screen.select_next();
    assert_eq!(screen.selected, 1);
    screen.select_previous();
    assert_eq!(screen.selected, 0);
}

#[test]
fn test_toggle_boolean() {
    let mut screen = SettingsScreen::new();
    screen.selected = 0;
    screen.items = vec![SettingItem::new("1", "One", "", SettingType::Boolean, "false")];
    screen.toggle_boolean();
    assert_eq!(screen.items[0].value_string, "true");
    assert!(screen.pending_changes);
    screen.toggle_boolean();
    assert_eq!(screen.items[0].value_string, "false");
}

#[test]
fn test_cycle_enum() {
    let mut screen = SettingsScreen::new();
    screen.selected = 0;
    screen.items = vec![SettingItem::new(
        "1",
        "One",
        "",
        SettingType::Enum(&["128", "192", "320"]),
        "128",
    )];
    screen.cycle_enum(true);
    assert_eq!(screen.items[0].value_string, "192");
    screen.cycle_enum(true);
    assert_eq!(screen.items[0].value_string, "320");
    screen.cycle_enum(true);
    assert_eq!(screen.items[0].value_string, "128");
    screen.cycle_enum(false);
    assert_eq!(screen.items[0].value_string, "320");
}

#[test]
fn test_format_value_display() {
    assert_eq!(format_value_display("hello", 10), "hello");
    assert_eq!(format_value_display("", 10), "(empty)");
    assert_eq!(
        format_value_display("this is a very long string", 15),
        "this is a ve..."
    );
}

#[test]
fn settings_load_apply_and_save_request() {
    let mut config = Config::default();
    let mut screen = SettingsScreen::new();
    screen.load_config(&config);
    assert_eq!(screen.items.len(), 13);
    assert_eq!(screen.items[1].value_string, "192");
    assert_eq!(screen.items[8].value_string, "Video Only");
    // Change the audio quality, then save.
    screen.selected = 1;
    let r = screen.handle_key(KeyEvent::new(KeyCode::Right), &mut config);
    assert_eq!(r.result, ScreenResult::Continue);
    assert_eq!(screen.items[1].value_string, "320");
    let r = screen.handle_key(KeyEvent::new(KeyCode::Char('s')), &mut config);
    assert_eq!(r.save, Some(SaveRequest::AfterApply));
    assert_eq!(config.audio_quality, 320);
    screen.finish_save(SaveRequest::AfterApply, None, &config);
    assert!(!screen.pending_changes);
    assert_eq!(screen.modal.as_ref().unwrap().title, "Settings Saved");
}

#[test]
fn playlist_screen_selection() {
    let video = |id: &str, secs: u64| PlaylistVideo {
        id: id.to_string(),
        title: format!("Video {}", id),
        url: format!("https://www.youtube.com/watch?v={}", id),
        duration_ms: secs * 1000,
    };
    let info = PlaylistInfo {
        id: "PL".to_string(),
        title: "Mix".to_string(),
        videos: vec![video("a", 10), video("b", 20), video("c", 30)],
    };
    let mut screen = PlaylistScreen::new();
    screen.begin_load();
    screen.finish_load(Ok(info));
    assert_eq!(screen.selected_count(), 3);
    let mut data = ScreenData::default();
    screen.handle_key(KeyEvent::new(KeyCode::Down), &mut data);
    screen.handle_key(KeyEvent::new(KeyCode::Char(' ')), &mut data);
    assert_eq!(screen.selected_count(), 2);
    let r = screen.handle_key(KeyEvent::new(KeyCode::Enter), &mut data);
    assert_eq!(r, ScreenResult::NavigateTo(Screen::Summary));
    assert_eq!(
        data.input_url,
        "https://www.youtube.com/watch?v=a\nhttps://www.youtube.com/watch?v=c"
    );
}

#[test]
fn playlist_test_format_duration() {
    assert_eq!(PlaylistScreen::format_duration(45.0_f64 as u64), "00:45");
    assert_eq!(PlaylistScreen::format_duration(125.0_f64 as u64), "02:05");
    assert_eq!(PlaylistScreen::format_duration(3665.0_f64 as u64), "01:01:05");
}

#[test]
fn test_new_playlist_screen() {
    let screen = PlaylistScreen::new();
    assert!(matches!(screen.state, PlaylistState::Loading));
    assert_eq!(screen.focused_index, 0);
    assert!(screen.selected_videos.is_empty());
}

#[test]
fn test_selection_count() {
    let mut screen = PlaylistScreen::new();
    screen.selected_videos = vec![true, false, true, false, true];
    assert_eq!(screen.selected_count(), 3);
}

#[test]
fn saving_listed_settings_onto_another_config_takes_their_values() {
    let mut source = Config::default();
    source.default_output_dir = Some("/music".to_string());
    source.cookies_from_browser = Some("firefox".to_string());
    source.audio_quality = 128;
    source.max_retries = 7;
    source.playlist_behavior = PlaylistBehavior::VideoOnly;
    source.dependency_auto_install = AutoInstallBehavior::Never;
    source.ytdlp_update_interval_days = 3;
    let mut target = Config::default();
    target.audio_format = AudioFormat::Opus;
    target.download_timeout = 99;
    target.download_cover = !source.download_cover;
    let mut screen = SettingsScreen::new();
    screen.load_config(&source);
    assert!(screen.apply_changes(&mut target).is_ok());
    assert_eq!(target.default_output_dir, Some("/music".to_string()));
    assert_eq!(target.cookies_from_browser, Some("firefox".to_string()));
    assert_eq!(target.audio_quality, 128);
    assert_eq!(target.max_retries, 7);
    assert_eq!(target.download_cover, source.download_cover);
    assert!(target.playlist_behavior == PlaylistBehavior::VideoOnly);
    assert!(target.dependency_auto_install == AutoInstallBehavior::Never);
    assert_eq!(target.ytdlp_update_interval_days, 3);
    assert!(target.audio_format == AudioFormat::Opus);
    assert_eq!(target.download_timeout, 99);
}

#[test]
fn saving_the_listed_settings_keeps_the_config() {
    let mut config = Config::default();
    config.default_output_dir = Some("/music".to_string());
    config.cookies_from_browser = Some("firefox".to_string());
    config.audio_quality = 320;
    config.audio_format = AudioFormat::Opus;
    config.playlist_behavior = PlaylistBehavior::VideoOnly;
    config.dependency_auto_install = AutoInstallBehavior::Always;
    config.download_cover = false;
    let before = config.clone();
    let mut screen = SettingsScreen::new();
    screen.load_config(&config);
    assert!(screen.apply_changes(&mut config).is_ok());
    assert_eq!(config.default_output_dir, before.default_output_dir);
    assert_eq!(config.download_cover, before.download_cover);
    assert_eq!(config.filename_format, before.filename_format);
    assert_eq!(config.directory_format, before.directory_format);
    assert_eq!(config.audio_quality, before.audio_quality);
    assert!(config.audio_format == before.audio_format);
    assert_eq!(config.overwrite_existing, before.overwrite_existing);
    assert_eq!(config.max_retries, before.max_retries);
    assert_eq!(config.create_playlist, before.create_playlist);
    assert!(config.playlist_behavior == before.playlist_behavior);
    assert_eq!(config.cookies_from_browser, before.cookies_from_browser);
    assert_eq!(config.download_timeout, before.download_timeout);
    assert!(config.dependency_auto_install == before.dependency_auto_install);
}

#[test]
fn fresh_screens_start_blank() {
    let settings = SettingsScreen::new();
    assert_eq!(settings.text_input.value, "");
    assert_eq!(settings.text_input.cursor, 0);
    assert!(!settings.text_input.focused);
    let playlist = PlaylistScreen::new();
    assert_eq!(playlist.spinner.current, 0);
    assert_eq!(playlist.spinner.frames[0], "⏳");
    assert_eq!(playlist.offset, 0);
}

use youtube_chapter_splitter::config_wizard::{config_summary_from, config_summary_lines};
use youtube_chapter_splitter::config::{AudioFormat, AutoInstallBehavior, Config, PlaylistBehavior};
use youtube_chapter_splitter::config_wizard::{prompt_labels, ConfigWizard, WIZARD_STEPS};
use youtube_chapter_splitter::error::YtcsError;

fn refused(r: Result<(), YtcsError>) -> String {
    match r {
        Err(YtcsError::ConfigError(m)) => m,
        _ => panic!("expected a refusal"),
    }
}

#[test]
fn empty_answers_keep_every_value() {
    let mut w = ConfigWizard::new(Config::default());
    let mut steps = 0;
    while !w.is_done() {
        w.answer("   ", None).unwrap();
        steps += 1;
    }
    assert_eq!(steps, WIZARD_STEPS);
    assert_eq!(w.config.audio_quality, 192);
    assert_eq!(w.config.refine_noise_millidb, -35_000);
    assert!(w.config.download_cover);
}

#[test]
fn prompts_show_current_values() {
    let mut w = ConfigWizard::new(Config::default());
    let (label, help, shown) = w.prompt();
    assert_eq!(label, "Default output directory");
    assert_eq!(help, "Path for albums, or 'none' to use the system Music folder.");
    assert_eq!(shown, "(none — use system Music folder)");
    for _ in 0..10 {
        w.answer("", None).unwrap();
    }
    assert_eq!(w.prompt().2, "5");
    w.answer("", None).unwrap();
    assert_eq!(w.prompt().2, "-35");
    w.answer("", None).unwrap();
    assert_eq!(w.prompt().2, "1.2");
    assert_eq!(prompt_labels(5).1, "1 = mp3 (default)  2 = opus  3 = m4a");
}

#[test]
fn answers_set_values() {
    let mut w = ConfigWizard::new(Config::default());
    w.answer(" /music ", None).unwrap();
    assert_eq!(w.config.default_output_dir.as_deref(), Some("/music"));
    w.answer("NO", None).unwrap();
    assert!(!w.config.download_cover);
    w.answer("%t", None).unwrap();
    w.answer("", None).unwrap();
    assert_eq!(refused(w.answer("256", None)), "Audio quality must be 128, 192, or 320 kbps");
    assert_eq!(refused(w.answer("abc", None)), "Audio quality must be 128, 192, or 320");
    w.answer("320", None).unwrap();
    assert_eq!(w.config.audio_quality, 320);
    assert_eq!(refused(w.answer("4", None)), "Enter 1, 2, or 3 (or leave empty to keep)");
    w.answer("2", None).unwrap();
    assert_eq!(w.config.audio_format, AudioFormat::Opus);
    assert_eq!(refused(w.answer("maybe", None)), "Enter y/n, or leave empty to keep the current value");
    w.answer("yes", None).unwrap();
    assert!(w.config.overwrite_existing);
    w.answer("+7", None).unwrap();
    assert_eq!(w.config.max_retries, 7);
    w.answer("1", None).unwrap();
    w.answer("true", None).unwrap();
    assert_eq!(refused(w.answer("x", None)), "refine_silence_window must be a number");
    w.answer("2.25", Some(2_250)).unwrap();
    assert_eq!(w.config.refine_silence_window_ms, 2_250);
    w.answer("-40", Some(-40_000)).unwrap();
    assert_eq!(w.config.refine_noise_millidb, -40_000);
    w.answer("", None).unwrap();
    w.answer("3", None).unwrap();
    assert_eq!(w.config.playlist_behavior, PlaylistBehavior::PlaylistOnly);
    w.answer("n", None).unwrap();
    assert_eq!(
        refused(w.answer("netscape", None)),
        "Unknown browser. Use one of: chrome, firefox, safari, edge, chromium, brave, opera, vivaldi"
    );
    w.answer("FireFox", None).unwrap();
    assert_eq!(w.config.cookies_from_browser.as_deref(), Some("firefox"));
    w.answer("0", None).unwrap();
    w.answer("3", None).unwrap();
    assert_eq!(w.config.dependency_auto_install, AutoInstallBehavior::Never);
    w.answer("0", None).unwrap();
    assert!(!w.config.ytdlp_auto_update);
    w.answer("14", None).unwrap();
    assert_eq!(w.config.ytdlp_update_interval_days, 14);
    assert!(w.is_done());
}

#[test]
fn none_clears_the_output_folder() {
    let mut c = Config::default();
    c.default_output_dir = Some("/x".to_string());
    let mut w = ConfigWizard::new(c);
    assert_eq!(w.prompt().2, "/x");
    w.answer("NoNe", None).unwrap();
    assert!(w.config.default_output_dir.is_none());
}

#[test]
fn config_summary_shows_every_setting() {
    let config = Config::default();
    let lines = config_summary_lines(&config);
    assert_eq!(lines.len(), 20);
    assert_eq!(lines[0], "  default_output_dir          = \"(system Music directory)\"");
    assert_eq!(lines[1], "  download_cover        = true");
    assert_eq!(lines[2], "  filename_format             = \"%n. %t\"");
    assert_eq!(lines[4], "  audio_quality               = 192 kbps");
    assert_eq!(lines[5], "  audio_format                = Mp3");
    assert_eq!(lines[10], "  refine_silence_window       = 5 s");
    assert_eq!(lines[11], "  refine_noise_db             = -35");
    assert_eq!(lines[12], "  refine_min_silence          = 1.2 s");
    assert_eq!(lines[14], "  playlist_behavior           = VideoOnly");
    assert_eq!(lines[15], "  cookies_from_browser        = \"(none)\"");
    assert_eq!(lines[16], "  download_timeout            = 300 s (0 = no timeout)");
    assert_eq!(lines[19], "  ytdlp_update_interval_days  = 1");
}

#[test]
fn config_summary_quotes_folder_and_browser() {
    let mut config = Config::default();
    config.default_output_dir = Some("C:\\Music \"mine\"".to_string());
    config.cookies_from_browser = Some("firefox".to_string());
    let lines = config_summary_lines(&config);
    assert_eq!(lines[0], "  default_output_dir          = \"C:\\\\Music \\\"mine\\\"\"");
    assert_eq!(lines[15], "  cookies_from_browser        = \"firefox\"");
    let shown = config_summary_from(&config, "X", "Y");
    assert_eq!(shown[0], "  default_output_dir          = X");
    assert_eq!(shown[15], "  cookies_from_browser        = Y");
}

use youtube_chapter_splitter::error::{HostOs, MissingToolsError};
use youtube_chapter_splitter::error_handler::{
    auth_required_error, dependency_missing_error, download_failed_error, terminal_too_small_error,
    AppError,
};

#[test]
fn test_dependency_missing_display() {
    let err = AppError::DependencyMissing {
        name: "yt-dlp".to_string(),
        install_suggestion: "sudo apt install yt-dlp".to_string(),
    };
    assert!(err.display().contains("yt-dlp"));
    assert!(err.suggestion().is_some());
}

#[test]
fn test_terminal_too_small() {
    let err = AppError::TerminalTooSmall {
        current: (30, 10),
        required: (40, 12),
    };
    assert!(err.is_modal());
    assert!(err.is_critical());
}

#[test]
fn terminal_too_small_message() {
    let err = terminal_too_small_error((30, 10));
    assert_eq!(err.display(), "⚠ Terminal too small (30×10). Minimum: 40×12");
}

#[test]
fn download_failed_suggestions() {
    assert_eq!(
        download_failed_error("boom", true).suggestion(),
        Some("Press 'r' to retry or 'q' to quit".to_string())
    );
    assert_eq!(
        download_failed_error("boom", false).suggestion(),
        Some("Press 'q' to quit".to_string())
    );
    assert_eq!(download_failed_error("boom", false).display(), "❌ Download failed: boom");
}

#[test]
fn auth_required_is_modal_not_critical() {
    let e = auth_required_error();
    assert!(e.is_modal());
    assert!(!e.is_critical());
}

#[test]
fn dependency_missing_for_macos() {
    let e = dependency_missing_error("ffmpeg", "macos");
    assert_eq!(
        e.suggestion(),
        Some("Install manually:\n  brew install yt-dlp ffmpeg".to_string())
    );
}

#[test]
fn missing_tools_message_lists_each_tool() {
    let e = MissingToolsError { missing_ytdlp: true, missing_ffmpeg: true, missing_deno: true };
    assert_eq!(
        e.message(HostOs::Linux),
        "Missing dependencies:\n  - yt-dlp: pip install yt-dlp\n  - ffmpeg: sudo apt install ffmpeg\n  - deno: curl -fsSL https://deno.land/install.sh | sh\n"
    );
    assert_eq!(e.tools_to_install(), vec!["yt-dlp", "ffmpeg", "deno"]);
    let only_deno = MissingToolsError { missing_ytdlp: false, missing_ffmpeg: false, missing_deno: true };
    assert_eq!(only_deno.message(HostOs::Other), "Missing dependencies:\n  - deno: see https://deno.land/#installation\n");
}

use std::time::Duration;
use youtube_chapter_splitter::error::YtcsError;
use youtube_chapter_splitter::yt_dlp_progress::{extract_error_message, extract_error_message_checked};
use youtube_chapter_splitter::yt_dlp_update::{should_check_for_update, update_after_failure, UpdateConfig};

#[test]
fn test_extract_error_message() {
    let stderr = "WARNING: Some warning\nERROR: unable to download video data: HTTP Error 403: Forbidden\n";
    let msg = extract_error_message(stderr);
    assert!(msg.contains("403"));
    assert!(msg.contains("Forbidden"));
}

#[test]
fn test_extract_error_message_outdated() {
    let stderr = "WARNING: Your yt-dlp version is older than 90 days\nSome other output\n";
    let msg = extract_error_message(stderr);
    assert!(msg.contains("outdated"));
}

#[test]
fn error_message_exact_values() {
    assert_eq!(
        extract_error_message("x\nERROR: unable: HTTP Error 403: Forbidden\n"),
        "unable: HTTP Error 403: Forbidden"
    );
    assert_eq!(extract_error_message("  ERROR: x  \n"), "yt-dlp failed: ERROR: x");
    assert_eq!(extract_error_message("ERROR: boom  \n"), "ERROR: boom");
    assert_eq!(extract_error_message(" odd \n"), "yt-dlp failed: odd");
    let long = "y".repeat(300);
    assert_eq!(
        extract_error_message(&long),
        format!("yt-dlp failed. Last error: {}...", "y".repeat(200))
    );
}

#[test]
fn checked_message_refuses_a_cut_inside_a_character() {
    let mut s = "é".repeat(150);
    s.push('a');
    assert!(extract_error_message_checked(&s).is_none());
    assert_eq!(extract_error_message_checked("ERROR: x").unwrap(), "ERROR: x");
}

#[test]
fn test_update_config_default() {
    let config = UpdateConfig::default();
    assert_eq!(config.min_update_interval, Duration::from_secs(24 * 60 * 60));
    assert!(config.force_on_failure);
}

#[test]
fn test_should_check_when_no_previous_update() {
    let config = UpdateConfig::default();
    assert!(should_check_for_update(&config, None));
}

#[test]
fn update_checks_wait_for_the_interval() {
    let config = UpdateConfig::default();
    assert!(!should_check_for_update(&config, Some(Duration::from_secs(3600))));
    assert!(should_check_for_update(&config, Some(Duration::from_secs(86400))));
    let e = YtcsError::DownloadError("x".to_string());
    assert!(update_after_failure(&e, &config, None));
    assert!(!update_after_failure(&YtcsError::Other("x".to_string()), &config, None));
}

#[test]
fn update_checks_compare_elapsed_time_by_seconds_then_nanoseconds() {
    let config = UpdateConfig::default();
    assert!(should_check_for_update(&config, Some(Duration::from_secs(2 * 86_400))));
    assert!(should_check_for_update(&config, Some(Duration::new(86_400, 0))));
    assert!(!should_check_for_update(&config, Some(Duration::new(86_399, 999_999_999))));
    assert!(!should_check_for_update(&config, Some(Duration::from_secs(3_600))));
    assert!(should_check_for_update(&config, None));
}

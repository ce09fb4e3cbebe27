use youtube_chapter_splitter::ytdlp_error_parser::{
    clean_error_message, error_reply, parse_ytdlp_error, parse_ytdlp_error_checked,
};

#[test]
fn test_members_only_error() {
    let error = "ERROR: [youtube] This video is only available for members";
    let (msg, suggestion) = parse_ytdlp_error(error, None, false);
    assert!(msg.contains("authentication"));
    assert!(suggestion.is_some());
}

#[test]
fn test_age_restricted_error() {
    let error = "ERROR: This video is age-restricted";
    let (msg, suggestion) = parse_ytdlp_error(error, None, false);
    assert!(msg.contains("age-restricted"));
    assert!(suggestion.is_some());
}

#[test]
fn test_geo_restricted_error() {
    let error = "ERROR: This video is not available in your country";
    let (msg, suggestion) = parse_ytdlp_error(error, None, false);
    assert!(msg.contains("geo-restricted"));
    assert!(suggestion.is_some());
}

#[test]
fn test_video_unavailable() {
    let error = "ERROR: Video unavailable";
    let (msg, _) = parse_ytdlp_error(error, None, false);
    assert!(msg.contains("no longer available"));
}

#[test]
fn test_network_error() {
    let error = "ERROR: HTTP Error 500: Internal Server Error";
    let (msg, suggestion) = parse_ytdlp_error(error, None, false);
    assert!(msg.contains("Network error"));
    assert!(suggestion.is_some());
}

#[test]
fn test_bot_detection_error() {
    let error = "ERROR: [youtube] 0cLebDx4CJc: Sign in to confirm you're not a bot.";
    let (msg, suggestion) = parse_ytdlp_error(error, None, false);
    assert!(msg.contains("rate-limiting"));
    assert!(suggestion.is_some());
}

#[test]
fn test_rate_limit_error() {
    let error = "WARNING: HTTP Error 429: Too Many Requests";
    let (msg, suggestion) = parse_ytdlp_error(error, None, false);
    assert!(msg.contains("rate-limiting"));
    assert!(suggestion.is_some());
}

#[test]
fn test_js_runtime_missing_error() {
    let error = "WARNING: [youtube] n challenge solving failed: Some formats may be missing. Ensure you have a supported JavaScript runtime";
    let (msg, suggestion) = parse_ytdlp_error(error, None, false);
    assert!(msg.contains("JavaScript runtime"));
    assert!(suggestion.unwrap().contains("deno"));
}

#[test]
fn test_only_images_available_error() {
    let error = "WARNING: Only images are available for download\nERROR: Requested format is not available";
    let (msg, suggestion) = parse_ytdlp_error(error, None, false);
    assert!(msg.contains("JavaScript runtime"));
    assert!(suggestion.is_some());
}

#[test]
fn test_clean_error_message() {
    let error = "ERROR: [youtube] Something went wrong with the download";
    let cleaned = clean_error_message(error);
    assert!(!cleaned.contains("ERROR:"));
    assert!(!cleaned.contains("[youtube]"));
}

#[test]
fn clean_error_message_exact_values() {
    assert_eq!(
        clean_error_message("ERROR: [youtube] abc: boom\nsecond\r\nthird\nfourth"),
        "abc: boom second third"
    );
    assert_eq!(clean_error_message("  \n"), "yt-dlp failed with an unknown error");
    let long = "x".repeat(250);
    let cleaned = clean_error_message(&long);
    assert_eq!(cleaned.len(), 200);
    assert!(cleaned.ends_with("..."));
}

#[test]
fn suggestions_depend_on_cookies() {
    let (_, with) = parse_ytdlp_error("ERROR: age restricted", Some("firefox"), false);
    assert!(with.unwrap().starts_with("Your cookies may not have"));
    let (_, file) = parse_ytdlp_error("ERROR: age restricted", None, true);
    assert!(file.unwrap().starts_with("Your cookies may not have"));
    let (_, without) = parse_ytdlp_error("ERROR: age restricted", None, false);
    assert!(without.unwrap().starts_with("You need to authenticate with an age-verified"));
}

#[test]
fn reply_checks_kinds_in_order() {
    // "HTTP Error 429" is both a rate limit and a network error: the rate limit wins.
    let (msg, _) = error_reply("HTTP Error 429", "http error 429", false);
    assert_eq!(msg, "YouTube is rate-limiting this IP and asks for a signed-in session to continue.");
    let (msg, s) = error_reply("Unsupported URL: x", "unsupported url: x", false);
    assert_eq!(msg, "Invalid or unsupported YouTube URL");
    assert_eq!(s.unwrap(), "Make sure you're using a valid YouTube video URL.");
    let (msg, s) = error_reply("ERROR: odd", "error: odd", true);
    assert_eq!(msg, "odd");
    assert!(s.is_none());
}

#[test]
fn lowercasing_finds_upper_case_errors() {
    let (msg, _) = parse_ytdlp_error("ERROR: VIDEO UNAVAILABLE", None, false);
    assert_eq!(msg, "This video is no longer available (deleted or made private)");
}

#[test]
fn checked_parse_refuses_a_cut_inside_a_character() {
    let mut long = "a".repeat(196);
    long.push_str(&"é".repeat(10));
    assert!(parse_ytdlp_error_checked(&long, None, false).is_none());
    let ok = parse_ytdlp_error_checked("ERROR: timeout", None, false).unwrap();
    assert_eq!(ok.0, "Network error while downloading");
}

use youtube_chapter_splitter::chapters::{parse_chapters_from_json, ChapterEntry};
use youtube_chapter_splitter::downloader::{
    extract_video_id, fetch_outcome, full_error_message, install_command, redact_url_query,
    thumbnail_candidate_urls, FetchOutcome, ThumbnailFetch, ThumbnailStep, VideoInfo,
};
use youtube_chapter_splitter::error::{HostOs, YtcsError};

#[test]
fn redact_strips_query_string() {
    assert_eq!(
        redact_url_query("https://i.ytimg.com/vi/abc/maxresdefault.jpg?sig=SECRET&pot=TOKEN"),
        "https://i.ytimg.com/vi/abc/maxresdefault.jpg"
    );
}

#[test]
fn redact_passes_through_when_no_query() {
    let url = "https://i.ytimg.com/vi/abc/hqdefault.jpg";
    assert_eq!(redact_url_query(url), url);
}

#[test]
fn redact_handles_empty_query() {
    assert_eq!(redact_url_query("https://example.com/x?"), "https://example.com/x");
}

#[test]
fn test_extract_video_id() {
    assert_eq!(
        extract_video_id("https://www.youtube.com/watch?v=dQw4w9WgXcQ").unwrap(),
        "dQw4w9WgXcQ"
    );
    assert_eq!(extract_video_id("https://youtu.be/dQw4w9WgXcQ").unwrap(), "dQw4w9WgXcQ");
    assert!(extract_video_id("invalid_url").is_err());
}

#[test]
fn video_id_skips_a_prefix_without_an_id() {
    assert_eq!(
        extract_video_id("youtu.be/short youtube.com/watch?v=abcdefghijk&list=x").unwrap(),
        "abcdefghijk"
    );
    match extract_video_id("https://youtu.be/abc") {
        Err(YtcsError::InvalidUrl(m)) => {
            assert_eq!(m, "Unable to extract video ID from: https://youtu.be/abc")
        }
        _ => panic!("expected an invalid URL"),
    }
}

fn info(id: &str, thumbnail: Option<&str>) -> VideoInfo {
    VideoInfo::from_metadata(
        None,
        0,
        Some(id.to_string()),
        None,
        None,
        None,
        None,
        thumbnail.map(|t| t.to_string()),
        None,
    )
}

#[test]
fn candidate_urls_put_the_reported_thumbnail_first_once() {
    let i = info("abcdefghijk", Some("  https://i.ytimg.com/vi/abcdefghijk/hqdefault.jpg "));
    let urls = thumbnail_candidate_urls(&i, "").unwrap();
    assert_eq!(urls.len(), 6);
    assert_eq!(urls[0], "https://i.ytimg.com/vi/abcdefghijk/hqdefault.jpg");
    assert_eq!(urls[1], "https://i.ytimg.com/vi/abcdefghijk/maxresdefault.jpg");
    assert_eq!(urls[5], "https://img.youtube.com/vi/abcdefghijk/mqdefault.jpg");
}

#[test]
fn candidate_urls_take_the_id_from_the_page() {
    let i = info("", Some("ftp://x"));
    let urls = thumbnail_candidate_urls(&i, "https://youtu.be/dQw4w9WgXcQ").unwrap();
    assert_eq!(urls.len(), 6);
    assert_eq!(urls[0], "https://i.ytimg.com/vi/dQw4w9WgXcQ/maxresdefault.jpg");
    assert!(thumbnail_candidate_urls(&i, "nothing").is_err());
}

#[test]
fn fetch_replies_are_classified() {
    assert!(matches!(fetch_outcome(Ok((200, Ok(vec![1, 2])))), FetchOutcome::Body(b) if b == vec![1, 2]));
    match fetch_outcome(Ok((503, Ok(vec![])))) {
        FetchOutcome::Retryable(m) => assert_eq!(m, "HTTP 503"),
        _ => panic!(),
    }
    match fetch_outcome(Ok((404, Ok(vec![])))) {
        FetchOutcome::Permanent(m) => assert_eq!(m, "HTTP 404"),
        _ => panic!(),
    }
    match fetch_outcome(Ok((200, Ok(vec![])))) {
        FetchOutcome::Permanent(m) => assert_eq!(m, "empty body"),
        _ => panic!(),
    }
    match fetch_outcome(Err("dns".to_string())) {
        FetchOutcome::Retryable(m) => assert_eq!(m, "transport error: dns"),
        _ => panic!(),
    }
}

#[test]
fn each_url_is_tried_three_times_at_most() {
    let mut f = ThumbnailFetch::new(vec!["https://a/x.jpg?t=1".to_string(), "https://b/y.jpg".to_string()]);
    assert_eq!(f.next_url().unwrap(), "https://a/x.jpg?t=1");
    assert!(matches!(f.record(FetchOutcome::Retryable("HTTP 500".to_string())), ThumbnailStep::RetryAfterPause));
    assert!(matches!(f.record(FetchOutcome::Retryable("HTTP 500".to_string())), ThumbnailStep::RetryAfterPause));
    assert!(matches!(f.record(FetchOutcome::Retryable("HTTP 500".to_string())), ThumbnailStep::NextUrl));
    assert_eq!(f.last_error.as_deref(), Some("HTTP 500 (https://a/x.jpg)"));
    assert_eq!(f.next_url().unwrap(), "https://b/y.jpg");
    assert!(matches!(f.record(FetchOutcome::Permanent("HTTP 404".to_string())), ThumbnailStep::NextUrl));
    assert!(f.next_url().is_none());
    match f.failure("no cover".to_string()) {
        YtcsError::ThumbnailFailed { http, ytdlp } => {
            assert_eq!(http, "HTTP 404 (https://b/y.jpg)");
            assert_eq!(ytdlp, "no cover");
        }
        _ => panic!(),
    }
    let empty = ThumbnailFetch::new(vec![]);
    match empty.failure("x".to_string()) {
        YtcsError::ThumbnailFailed { http, .. } => assert_eq!(http, "no candidate URLs"),
        _ => panic!(),
    }
}

#[test]
fn error_text_joins_the_suggestion() {
    assert_eq!(full_error_message("a".to_string(), Some("b".to_string())), "a\n\nb");
    assert_eq!(full_error_message("a".to_string(), None), "a");
}

#[test]
fn install_commands_per_host() {
    assert_eq!(install_command("yt-dlp", HostOs::Other).unwrap(), "pip install yt-dlp");
    assert_eq!(install_command("ffmpeg", HostOs::Linux).unwrap(), "sudo apt install -y ffmpeg");
    assert_eq!(install_command("ffmpeg", HostOs::MacOs).unwrap(), "brew install ffmpeg");
    assert!(install_command("ffmpeg", HostOs::Other).is_err());
    assert!(install_command("deno", HostOs::MacOs).unwrap().starts_with("curl -fsSL"));
    match install_command("vlc", HostOs::Linux) {
        Err(YtcsError::Other(m)) => assert_eq!(m, "Unknown tool: vlc"),
        _ => panic!(),
    }
}

#[test]
fn video_info_defaults_and_genre() {
    let v = VideoInfo::from_metadata(
        None,
        61_000,
        None,
        Some("desc".to_string()),
        Some("20240101".to_string()),
        Some(vec!["Music".to_string(), "".to_string(), "Rock".to_string()]),
        None,
        Some("   ".to_string()),
        Some(vec![
            ChapterEntry { title: Some("Intro".to_string()), start_ms: Some(0), end_ms: Some(1000) },
            ChapterEntry { title: None, start_ms: Some(1000), end_ms: Some(2000) },
        ]),
    );
    assert_eq!(v.title, "Untitled Video");
    assert_eq!(v.video_id, "");
    assert_eq!(v.genre.as_deref(), Some("Music, Rock"));
    assert!(v.thumbnail.is_none());
    assert_eq!(v.chapters.len(), 2);
    assert_eq!(v.chapters[1].title, "Track 2");
    let broken = VideoInfo::from_metadata(
        Some("t".to_string()),
        0,
        None,
        None,
        None,
        Some(vec!["".to_string()]),
        None,
        None,
        Some(vec![ChapterEntry { title: None, start_ms: None, end_ms: Some(5) }]),
    );
    assert!(broken.chapters.is_empty());
    assert!(broken.genre.is_none());
}

#[test]
fn chapters_ending_before_they_start_are_an_error() {
    let r = parse_chapters_from_json(Some(vec![ChapterEntry {
        title: Some("A".to_string()),
        start_ms: Some(10_000),
        end_ms: Some(5_000),
    }]));
    match r {
        Err(YtcsError::ChapterError(m)) => assert_eq!(m, "Invalid end_time"),
        _ => panic!("expected an error"),
    }
    let v = VideoInfo::from_metadata(
        None,
        0,
        None,
        None,
        None,
        None,
        None,
        None,
        Some(vec![ChapterEntry { title: None, start_ms: Some(3), end_ms: Some(3) }]),
    );
    assert!(v.chapters.is_empty());
}

use youtube_chapter_splitter::config::Config;
use youtube_chapter_splitter::tui::download_manager::{manual_progress, DownloadManager};
use youtube_chapter_splitter::yt_dlp_progress::{
    parse_download_line, DownloadProgress, NoProgressCallback, ProgressCallback,
};

/// Percentages are in thousandths of a percent.
fn near(value: u64, expected: u64, tolerance: u64) -> bool {
    value.abs_diff(expected) < tolerance
}

#[test]
fn test_parse_percentage_line() {
    let line = "[download]  45.0% of  120.00MiB at  2.34MiB/s ETA 00:12";
    let progress = parse_download_line(line).unwrap();
    assert!(near(progress.percentage, 45_000, 100));
    assert_eq!(progress.eta, "00:12");
}

#[test]
fn test_parse_size_line() {
    let line = "[download]  23.5MiB of  52.3MiB at  2.34MiB/s ETA 00:12";
    let progress = parse_download_line(line).unwrap();
    // 23.5 / 52.3 ≈ 44.9%
    assert!(near(progress.percentage, 44_900, 1_000));
    assert_eq!(progress.downloaded, "23.5");
    assert_eq!(progress.total, "52.3");
}

#[test]
fn test_parse_gib_line() {
    let line = "[download]  1.2GiB of  2.4GiB at  5.6MiB/s ETA 03:45";
    let progress = parse_download_line(line).unwrap();
    assert!(near(progress.percentage, 50_000, 1_000));
    assert_eq!(progress.eta, "03:45");
}

#[test]
fn test_ignore_non_download_lines() {
    assert!(parse_download_line("[info] Downloading video").is_none());
    assert!(parse_download_line("[debug] Some debug info").is_none());
}

#[test]
fn test_parse_download_progress_callback() {
    let progress = DownloadProgress {
        percentage: 75_500,
        downloaded: "75.5".to_string(),
        total: "100.0".to_string(),
        speed: "2.5MiB/s".to_string(),
        eta: "00:30".to_string(),
    };
    assert!(near(progress.percentage, 75_500, 10));
    assert_eq!(progress.downloaded, "75.5");
    assert_eq!(progress.total, "100.0");
    assert_eq!(progress.speed, "2.5MiB/s");
    assert_eq!(progress.eta, "00:30");
}

#[test]
fn test_parse_download_line_kib() {
    let line = "[download]  512.0KiB of  1.0MiB at  128.0KiB/s ETA 00:04";
    let progress = parse_download_line(line).unwrap();
    // 512 KiB / 1 MiB = 50%
    assert!(near(progress.percentage, 50_000, 1_000));
}

#[test]
fn test_parse_download_line_no_percentage() {
    let line = "[download]  15.0MiB of  60.0MiB at  3.0MiB/s ETA 00:15";
    let progress = parse_download_line(line).unwrap();
    // 15 / 60 = 25%
    assert!(near(progress.percentage, 25_000, 1_000));
    assert_eq!(progress.downloaded, "15.0");
    assert_eq!(progress.total, "60.0");
}

#[test]
fn test_parse_download_line_ignores_complete() {
    let line = "[download] 100% of  120.00MiB at  2.34MiB/s ETA 00:00";
    assert!(parse_download_line(line).is_none());
}

#[test]
fn test_parse_download_line_extracts_speed_and_eta() {
    let line = "[download]  45.0% of  120.00MiB at  5.67MiB/s ETA 01:23";
    let progress = parse_download_line(line).unwrap();
    assert_eq!(progress.speed, "5.67 MiB/s");
    assert_eq!(progress.eta, "01:23");
}

#[test]
fn progress_line_exact_values() {
    let p = parse_download_line("[download]  15.0MiB of  60.0MiB at  3.0MiB/s ETA 00:15").unwrap();
    assert_eq!(p.percentage, 25_000);
    assert_eq!(p.speed, "3.0 MiB/s");
    // A percentage line with a single size has no total.
    let q = parse_download_line("[download]   3.0% at  450.00KiB/s ETA 02:34").unwrap();
    assert_eq!(q.percentage, 3_000);
    assert_eq!((q.downloaded.as_str(), q.total.as_str()), ("?", "?"));
    assert_eq!(q.speed, "450.00 KiB/s");
    // Capped at 99.9 %; a zero total counts as done.
    let r = parse_download_line("[download]  99.95% of 1.0MiB").unwrap();
    assert_eq!(r.percentage, 99_900);
    let z = parse_download_line("[download] 5.0MiB of 0.0MiB").unwrap();
    assert_eq!(z.percentage, 99_900);
    assert_eq!(z.eta, "");
    // No percentage and fewer than two sizes: nothing to show.
    assert!(parse_download_line("[download] Destination: a.webm").is_none());
}

#[test]
fn no_progress_callback_ignores_everything() {
    let cb = NoProgressCallback;
    let p = DownloadProgress {
        percentage: 1_000,
        downloaded: "1.0".to_string(),
        total: "2.0".to_string(),
        speed: String::new(),
        eta: String::new(),
    };
    cb.on_start();
    cb.on_progress(&p);
    cb.on_complete();
}

#[test]
fn download_manager_shows_reported_progress() {
    let manager = DownloadManager::new(Config::default());
    assert_eq!(manager.current_progress(None), None);
    assert_eq!(manager.current_progress_message(None), None);
    let p = parse_download_line("[download]  45.0% of  120.00MiB at  2.34MiB/s ETA 00:12").unwrap();
    assert_eq!(manager.current_progress(Some(&p)), Some(45));
    assert_eq!(
        manager.current_progress_message(Some(&p)).unwrap(),
        "120.00 | 2.34 MiB/s | ETA: 00:12"
    );
    // The task's own steps show only until yt-dlp reports 1 %.
    let step = manual_progress(None, 25, "Downloading audio...").unwrap();
    assert_eq!(step.percentage, 25_000);
    assert_eq!(manager.current_progress_message(Some(&step)).unwrap(), "Downloading audio...");
    assert!(manual_progress(Some(&p), 75, "Downloading cover art...").is_none());
}

#[test]
fn a_percentage_in_other_digits_is_no_number() {
    assert!(parse_download_line("[download]  ٤٥.٠% of 10.00MiB at 1.00MiB/s ETA 00:05 then 12.5%").is_none());
    assert!(parse_download_line("[download]  45.0% of 10.00MiB at 1.00MiB/s ETA 00:05").is_some());
}

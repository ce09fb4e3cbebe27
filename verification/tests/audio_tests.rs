use youtube_chapter_splitter::audio::{
    chapters_from_split_points, cut_args, decimal_ms_exec, detect_silence_chapters, detect_silence_chapters_checked,
    m3u_text, silences_from_output, track_cut, track_filename,
};
use youtube_chapter_splitter::config::{AudioFormat, Config};
use youtube_chapter_splitter::chapters::Chapter;
use youtube_chapter_splitter::ytdlp_helper::{
    check_ytdlp_update_needed, declines_update, update_method, is_outdated_error, release_date, update_question, version_info,
    YtdlpVersionInfo,
};

#[test]
fn silences_are_read_from_ffmpeg_output() {
    let out = "[silencedetect @ 0x1] silence_start: 10.5\n[silencedetect @ 0x1] silence_end: 12 | silence_duration: 1.5\nsilence_end: 20\nsilence_start: x\nsilence_start: 30.25\r\nsilence_end: 31.0\n";
    assert_eq!(silences_from_output(out), vec![(10_500, 12_000), (30_250, 31_000)]);
    assert_eq!(decimal_ms_exec(&"1.2345".chars().collect()), Some(1_234));
    assert_eq!(decimal_ms_exec(&".5".chars().collect()), Some(500));
    assert_eq!(decimal_ms_exec(&"1.2.3".chars().collect()), None);
    assert_eq!(decimal_ms_exec(&".".chars().collect()), None);
}

#[test]
fn chapters_are_cut_at_split_points() {
    let cs = chapters_from_split_points(&vec![10_000, 25_000], 40_000).unwrap();
    assert_eq!(cs.len(), 3);
    assert_eq!((cs[0].start_ms, cs[0].end_ms), (0, 10_000));
    assert_eq!((cs[2].start_ms, cs[2].end_ms), (25_000, 40_000));
    assert_eq!(cs[2].title, "Track 3");
    assert!(chapters_from_split_points(&vec![], 40_000).is_err());
}

#[test]
fn track_files_and_ffmpeg_arguments() {
    let c = Chapter::new("Intro: Part 1".to_string(), 1_500, 61_500);
    assert_eq!(track_filename("%n. %t", 3, &c, "Art", "Alb", AudioFormat::Mp3), format!("03. {}.mp3", c.sanitize_title()));
    let args = cut_args("in.mp3", &c, "Art", "Alb", 3, 10, AudioFormat::Mp3, 192, "out.mp3");
    assert_eq!(args[3], "1.5");
    assert_eq!(args[5], "60");
    assert_eq!((args[7].as_str(), args[8].as_str(), args[9].as_str()), ("libmp3lame", "-b:a", "192k"));
    assert_eq!(args[11], "title=Intro: Part 1");
    assert_eq!(args[17], "track=3/10");
    assert_eq!(args[18], "-y");
    assert_eq!(args.len(), 20);
}

#[test]
fn versions_are_dated() {
    assert_eq!(release_date("2025.10.22"), Some((2025, 10, 22)));
    assert_eq!(release_date("v 2024.01.05-nightly"), Some((2024, 1, 5)));
    assert_eq!(release_date("1.2.3"), None);
    assert!(version_info("2025.02.30".to_string(), 2_460_000).is_none());
    let info = version_info("2025.01.01".to_string(), 2_460_677 + 100).unwrap();
    assert_eq!(info.days_since_release, Some(100));
    assert!(info.is_outdated);
    assert_eq!(
        check_ytdlp_update_needed(Some(&info)).unwrap(),
        "Your yt-dlp version (2025.01.01 / 100 days old) is outdated. Consider updating: pip install --upgrade yt-dlp"
    );
    assert_eq!(update_question(None), "yt-dlp may need to be updated. Install the latest version?");
    let fresh = YtdlpVersionInfo { version: "x".into(), is_outdated: false, days_since_release: Some(3) };
    assert!(check_ytdlp_update_needed(Some(&fresh)).is_none());
    assert!(is_outdated_error("WARNING: version is OLDER THAN 90 DAYS", None));
    assert!(is_outdated_error("HTTP Error 403: Forbidden", Some(&info)));
    assert!(!is_outdated_error("HTTP Error 403: Forbidden", Some(&fresh)));
    assert!(declines_update(" No "));
    assert!(!declines_update("y"));
}

#[test]
fn silence_chapters_checked() {
    let out = "silence_start: 10\nsilence_end: 12\nsilence_start: 30\nsilence_end: 31\n";
    let cs = detect_silence_chapters_checked(out, 60_000).unwrap().unwrap();
    assert_eq!(cs.len(), 3);
    assert_eq!((cs[0].start_ms, cs[0].end_ms), (0, 11_000));
    assert_eq!((cs[1].start_ms, cs[1].end_ms), (11_000, 30_500));
    assert_eq!((cs[2].start_ms, cs[2].end_ms), (30_500, 60_000));
    assert_eq!(detect_silence_chapters(out, 60_000).unwrap().len(), 3);
    // Silences out of order, or past the end, do not cut the audio.
    let unordered = "silence_start: 30\nsilence_end: 31\nsilence_start: 10\nsilence_end: 12\n";
    assert!(detect_silence_chapters_checked(unordered, 60_000).is_none());
    assert!(detect_silence_chapters_checked(out, 20_000).is_none());
    // No silence at all is an error.
    assert!(detect_silence_chapters_checked("nothing here\n", 60_000).unwrap().is_err());
}

#[test]
fn track_files_are_numbered_with_a_point() {
    let c = Chapter::new("Oblivion Gate".to_string(), 0, 354_000);
    let config = Config::default();
    assert_eq!(
        track_filename(&config.filename_format, 1, &c, "Marigold", "Oblivion Gate", config.audio_format),
        "01. Oblivion Gate.mp3"
    );
}

#[test]
fn tracks_follow_the_configured_template_format_and_quality() {
    let c = Chapter::new("02 - Obsidian Throne".to_string(), 0, 335_000);
    assert_eq!(track_filename("%n - %a - %t", 2, &c, "AC/DC", "Alb", AudioFormat::Opus), "02 - AC_DC - Obsidian Throne.opus");
    assert_eq!(track_filename("%A %n", 12, &c, "Art", "Best", AudioFormat::M4a), "Best 12.m4a");
    let opus = cut_args("in.mp3", &c, "Art", "Alb", 2, 5, AudioFormat::Opus, 128, "o.opus");
    assert_eq!((opus[7].as_str(), opus[9].as_str()), ("libopus", "128k"));
    let m4a = cut_args("in.mp3", &c, "Art", "Alb", 2, 5, AudioFormat::M4a, 320, "o.m4a");
    assert_eq!((m4a[7].as_str(), m4a[9].as_str()), ("aac", "320k"));
    assert!(track_cut("in.mp3", &c, "Art", "Alb", 2, 5, AudioFormat::Mp3, 192, false, true, "o.mp3").is_none());
    let over = track_cut("in.mp3", &c, "Art", "Alb", 2, 5, AudioFormat::Mp3, 192, true, true, "o.mp3").unwrap();
    assert_eq!(over, cut_args("in.mp3", &c, "Art", "Alb", 2, 5, AudioFormat::Mp3, 192, "o.mp3"));
    assert!(track_cut("in.mp3", &c, "Art", "Alb", 2, 5, AudioFormat::Mp3, 192, false, false, "o.mp3").is_some());
}

#[test]
fn playlist_file_lists_tracks_in_order() {
    let names = vec!["01. A.mp3".to_string(), "02. B.mp3".to_string()];
    assert_eq!(m3u_text(&names), "#EXTM3U\n01. A.mp3\n02. B.mp3\n");
    assert_eq!(m3u_text(&Vec::new()), "#EXTM3U\n");
    assert_eq!(update_method(0), Some("pip install --upgrade --break-system-packages yt-dlp"));
    assert_eq!(update_method(4), Some("pipx upgrade yt-dlp"));
    assert_eq!(update_method(5), None);
}

#[test]
fn release_dates_follow_the_first_date_even_in_other_digits() {
    assert_eq!(release_date("٢٠٢٥.١٠.٢٢ then 2025.10.22"), None);
    assert_eq!(release_date("x 2025.1٠.22 2024.01.05"), None);
    assert_eq!(release_date("v 2024.01.05"), Some((2024, 1, 5)));
}

#[test]
fn silence_times_in_other_digits_are_no_numbers() {
    let out = "silence_start: ٣.٥\nsilence_end: 4.0\nsilence_start: 10.5\nsilence_end: 12\n";
    assert_eq!(silences_from_output(out), vec![(10_500, 12_000)]);
}

#[test]
fn release_age_counts_days_between_julian_days() {
    let info = version_info("2000.01.01".to_string(), 2_451_545 + 91).unwrap();
    assert_eq!(info.days_since_release, Some(91));
    assert!(info.is_outdated);
    let info = version_info("2019.12.31".to_string(), 2_458_849 + 90).unwrap();
    assert_eq!(info.days_since_release, Some(90));
    assert!(!info.is_outdated);
    let leap = version_info("2024.02.29".to_string(), 2_460_370).unwrap();
    assert_eq!(leap.days_since_release, Some(0));
    assert!(version_info("2023.02.29".to_string(), 2_460_370).is_none());
}

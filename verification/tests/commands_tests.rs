use youtube_chapter_splitter::commands::{
    download_args, duration_probe_args, format_selector, playlist_info_args, silence_detect_args, thumbnail_args,
    video_info_args,
};

fn strings(v: &[&str]) -> Vec<String> {
    v.iter().map(|s| s.to_string()).collect()
}

#[test]
fn video_info_arguments_put_cookies_before_the_url() {
    let cookies = strings(&["--cookies-from-browser", "firefox"]);
    assert_eq!(
        video_info_args("https://youtu.be/x", &cookies),
        strings(&[
            "--dump-json", "--no-playlist", "--remote-components", "ejs:github", "--cookies-from-browser", "firefox",
            "https://youtu.be/x"
        ])
    );
}

#[test]
fn playlist_arguments_list_flat() {
    assert_eq!(
        playlist_info_args("https://www.youtube.com/playlist?list=PL1", &Vec::new()),
        strings(&["--dump-json", "--flat-playlist", "--no-warnings", "https://www.youtube.com/playlist?list=PL1"])
    );
}

#[test]
fn download_arguments_with_and_without_a_format() {
    let cookies = strings(&["--cookies", "/home/me/.config/ytcs/cookies.txt"]);
    assert_eq!(
        download_args("U", "/tmp/a", Some("140"), &cookies),
        strings(&[
            "-f", "140", "-x", "--audio-format", "mp3", "--audio-quality", "0", "-o", "/tmp/a",
            "--no-playlist", "U", "--cookies", "/home/me/.config/ytcs/cookies.txt"
        ])
    );
    assert_eq!(
        download_args("U", "/tmp/a", None, &Vec::new()),
        strings(&["-x", "--audio-format", "mp3", "--audio-quality", "0", "-o", "/tmp/a", "--no-playlist", "U"])
    );
}

#[test]
fn format_selectors_in_order() {
    assert_eq!(format_selector(0), Some(Some("bestaudio[ext=m4a]/bestaudio")));
    assert_eq!(format_selector(1), Some(Some("140")));
    assert_eq!(format_selector(2), Some(Some("bestaudio")));
    assert_eq!(format_selector(3), Some(None));
    assert_eq!(format_selector(4), None);
}

#[test]
fn silence_detection_arguments() {
    assert_eq!(
        silence_detect_args("in.mp3", -30_000, 2_000),
        strings(&["-i", "in.mp3", "-af", "silencedetect=noise=-30dB:d=2", "-f", "null", "-"])
    );
    assert_eq!(silence_detect_args("x", -35_500, 1_500)[3], "silencedetect=noise=-35.5dB:d=1.5");
}

#[test]
fn thumbnail_and_probe_arguments() {
    assert_eq!(
        thumbnail_args("P", "/o/cover.%(ext)s", &strings(&["--cookies", "c.txt"])),
        strings(&[
            "--no-playlist", "--skip-download", "--write-thumbnail", "--convert-thumbnails", "jpg", "-o",
            "/o/cover.%(ext)s", "P", "--remote-components", "ejs:github", "--cookies", "c.txt"
        ])
    );
    assert_eq!(
        duration_probe_args("a.mp3"),
        strings(&["-v", "error", "-show_entries", "format=duration", "-of", "default=noprint_wrappers=1:nokey=1", "a.mp3"])
    );
}

use youtube_chapter_splitter::chapters::{format_timestamp, parse_timestamp, to_title_case, Chapter};
use youtube_chapter_splitter::chapters_from_description::parse_chapters_from_description;

#[test]
fn test_parse_chapters_with_brackets() {
    let description = r#"
[00:00:00] - The Observer's Paradox
[00:07:39] - The Keeper of the Keys
[00:12:49] - Chronos Awaits
[00:18:59] - Beneath a Veil of Stars
[00:26:34] - Quantum Echoes in the Dust
"#;
    let chapters = parse_chapters_from_description(description, 1_800_000).unwrap();
    assert_eq!(chapters.len(), 5);
    assert_eq!(chapters[0].title, "The Observer's Paradox");
    assert_eq!(chapters[0].start_ms, 0);
    assert_eq!(chapters[1].start_ms, 459_000);
}

#[test]
fn test_parse_chapters_without_brackets() {
    let description = r#"
00:00 - Introduction
05:30 - Main Topic
15:45 - Conclusion
"#;
    let chapters = parse_chapters_from_description(description, 1_200_000).unwrap();
    assert_eq!(chapters.len(), 3);
    assert_eq!(chapters[0].title, "Introduction");
    assert_eq!(chapters[1].start_ms, 330_000);
}

#[test]
fn test_parse_chapters_mixed_format() {
    let description = r#"
Tracklist:
[0:00] Track One
[5:30] Track Two
10:15 Track Three
"#;
    let chapters = parse_chapters_from_description(description, 900_000).unwrap();
    assert_eq!(chapters.len(), 3);
}

#[test]
fn test_parse_chapters_insufficient() {
    let description = "[00:00] Only One Track";
    let result = parse_chapters_from_description(description, 300_000);
    assert!(result.is_err());
}

#[test]
fn test_parse_chapters_no_chapters() {
    let description = "This is a video description without any timestamps.";
    let result = parse_chapters_from_description(description, 300_000);
    assert!(result.is_err());
}

#[test]
fn test_parse_chapters_track_number_format() {
    let description = r#"
1 - The Cornerstone of Some Dream (0:00)
2 - Architects of Inner Time (Part I) (4:24)
3 - The Ritual of the Octagonal Chamber (11:01)
4 - Colors at the Bottom of the Gesture (Instrumental) (17:52)
5 - The Ballad of the Hourglass Man (22:23)
6 - Mirror Against the Firmament (Suite in Three Parts) (26:43)
7 - The Navigation of Rational Ice (31:28)
8 - The Guardian of the Shadow Papyri (35:24)
9 - The Cycle of Chalk and Fine Sand (40:29)
10 - Song for the Submerged Mountains (44:11)
11 - The Filters of Chronos (48:35)
12 - Architects of Inner Time (Part II: The Awakening) (51:42)
"#;
    let chapters = parse_chapters_from_description(description, 3_600_000).unwrap();
    assert_eq!(chapters.len(), 12);
    assert_eq!(chapters[0].title, "The Cornerstone of Some Dream");
    assert_eq!(chapters[0].start_ms, 0);
    assert_eq!(chapters[1].title, "Architects of Inner Time (Part I)");
    assert_eq!(chapters[1].start_ms, 264_000);
    assert_eq!(
        chapters[11].title,
        "Architects of Inner Time (Part II_ The Awakening)"
    );
    assert_eq!(chapters[11].start_ms, 3_102_000);
}

#[test]
fn description_chapters_are_sorted_and_end_at_the_next_start() {
    let description = "05:00 - Second\n00:00 - First\n";
    let chapters = parse_chapters_from_description(description, 600_000).unwrap();
    assert_eq!(chapters[0].title, "First");
    assert_eq!(chapters[0].end_ms, 300_000);
    assert_eq!(chapters[1].title, "Second");
    assert_eq!(chapters[1].end_ms, 600_000);
}

#[test]
fn description_chapters_past_the_end_are_dropped() {
    let description = "00:00 - Aa\n01:00 - Bb\n20:00 - Cc\n";
    let chapters = parse_chapters_from_description(description, 120_000).unwrap();
    assert_eq!(chapters.len(), 2);
}

#[test]
fn timestamps_parse_and_format() {
    assert_eq!(parse_timestamp("1:23:45").ok(), Some(5025));
    assert_eq!(parse_timestamp("5:30").ok(), Some(330));
    assert_eq!(parse_timestamp("42").ok(), Some(42));
    assert!(parse_timestamp("a:b").is_err());
    assert!(parse_timestamp("1:2:3:4").is_err());
    assert_eq!(format_timestamp(3725), "01:02:05");
    assert_eq!(format_timestamp(65), "01:05");
}

#[test]
fn title_case_and_display_title() {
    assert_eq!(to_title_case("THE DARK SIDE OF THE MOON"), "The Dark Side of the Moon");
    let c = Chapter::new("HELLO WORLD".to_string(), 0, 1000);
    assert_eq!(c.display_title(), "Hello World");
    let d = Chapter::new("Mixed Case".to_string(), 0, 1000);
    assert_eq!(d.display_title(), "Mixed Case");
    assert_eq!(d.duration(), 1000);
}

#[test]
fn formatted_timestamps_parse_back() {
    for seconds in [0u64, 59, 60, 65, 3599, 3600, 3725, 86_399, 360_000] {
        let text = format_timestamp(seconds);
        assert_eq!(parse_timestamp(&text).ok(), Some(seconds), "{}", text);
    }
}

#[test]
fn description_chapters_never_overlap() {
    let description = "10:00 Third\n00:00 First\n04:30 Second\n";
    let chapters = parse_chapters_from_description(description, 900_000).unwrap();
    for w in chapters.windows(2) {
        assert!(w[0].end_ms <= w[1].start_ms);
    }
    for c in &chapters {
        assert!(c.end_ms > c.start_ms + 1000);
    }
}

#[test]
fn formatted_timestamps_have_two_parts_below_an_hour_and_three_from_an_hour() {
    for s in [0u64, 59, 330, 3599, 3600, 3661, 86399, 360000] {
        let text = format_timestamp(s);
        let expected = if s >= 3600 { 3 } else { 2 };
        assert_eq!(text.split(':').count(), expected, "{}", text);
    }
}

#[test]
fn track_numbered_description_lines_accept_any_decimal_digits() {
    let desc = "١ - First Song (0:00)\n٢ - Second Song (3:00)";
    let chapters = parse_chapters_from_description(desc, 600_000).unwrap();
    assert_eq!(chapters.len(), 2);
    assert_eq!(chapters[0].title, "First Song");
    assert_eq!((chapters[1].start_ms, chapters[1].end_ms), (180_000, 600_000));
    assert!(parse_chapters_from_description("٠:٠٠ Intro\n٣:٠٠ Outro", 600_000).is_err());
}

use youtube_chapter_splitter::ui::{
    clean_title, metadata_answer, plain_line, progress_line, status_icon, track_prefix,
    tracks_display, MessageKind, OutputMode, PlainTextPresenter, Status,
};

#[test]
fn test_clean_title() {
    assert_eq!(clean_title("Artist - Song [Full Album]"), "Artist - Song");
    assert_eq!(clean_title("Normal Title"), "Normal Title");
}

#[test]
fn test_status_icon() {
    let success = status_icon(Status::Success);
    let failed = status_icon(Status::Failed);
    assert!(!success.is_empty());
    assert!(!failed.is_empty());
}

#[test]
fn test_track_progress_alignment() {
    // Track numbers are right-aligned to the width of the total.
    let (branch, number) = track_prefix(1, 12);
    assert_eq!(branch, "  ├─");
    assert_eq!(number, " 1");
    let (branch, number) = track_prefix(12, 12);
    assert_eq!(branch, "  └─");
    assert_eq!(number, "12");
}

#[test]
fn status_icons_are_distinct() {
    assert_eq!(status_icon(Status::Pending), " ");
    assert_eq!(status_icon(Status::InProgress), "⏳");
    assert_eq!(status_icon(Status::Success), "✓");
    assert_eq!(status_icon(Status::Failed), "✗");
}

#[test]
fn plain_lines_carry_their_kind() {
    assert_eq!(plain_line(MessageKind::Error, "boom"), "ERROR: boom");
    assert_eq!(plain_line(MessageKind::Warning, "careful"), "WARNING: careful");
    assert_eq!(plain_line(MessageKind::Info, "note"), "INFO: note");
    assert_eq!(plain_line(MessageKind::Success, "done"), "OK: done");
}

#[test]
fn progress_line_counts() {
    assert_eq!(progress_line(3, 10, "Splitting"), "[3/10] Splitting");
}

#[test]
fn tracks_display_cases() {
    assert_eq!(tracks_display(5, false, true), "? tracks (silence detection)");
    assert_eq!(tracks_display(7, true, false), "7 tracks");
    assert_eq!(tracks_display(0, true, false), "checking description...");
    assert_eq!(tracks_display(0, false, false), "? tracks");
}

#[test]
fn metadata_answer_defaults_when_blank() {
    assert_eq!(metadata_answer("   ", "Unknown Artist"), "Unknown Artist");
    assert_eq!(metadata_answer("  Pink Floyd \n", "Unknown Artist"), "Pink Floyd");
}

#[test]
fn presenter_modes() {
    assert!(PlainTextPresenter::new().output_mode == OutputMode::Plain);
    let p = PlainTextPresenter::new().with_output_mode(OutputMode::Colored);
    assert!(p.output_mode == OutputMode::Colored);
}

use youtube_chapter_splitter::chapter_refinement::{
    compute_refined_boundaries, find_nearest_silence, refine_chapters_checked, refine_chapters_with_silence,
    refinement_stats,
    SilencePoint,
};
use youtube_chapter_splitter::chapters::Chapter;

fn ch(title: &str, start_ms: u64, end_ms: u64) -> Chapter {
    Chapter::new(title.to_string(), start_ms, end_ms)
}

#[test]
fn test_silence_point_position() {
    let s1 = SilencePoint::new(10_000, 11_000);
    let s2 = SilencePoint::new(10_000, 14_000);
    assert_eq!(s1.position_ms, 10_500);
    assert_eq!(s2.position_ms, 12_000);
}

#[test]
fn test_find_nearest_silence() {
    let silences = vec![
        SilencePoint::new(0, 1_000),
        SilencePoint::new(9_500, 10_500),
        SilencePoint::new(19_000, 20_000),
    ];
    assert_eq!(find_nearest_silence(&silences, 10_000, 2_000), Some(10_000));
    assert_eq!(find_nearest_silence(&silences, 9_800, 2_000), Some(10_000));
    assert!(find_nearest_silence(&silences, 15_000, 2_000).is_none());
}

fn assert_contiguous(chapters: &[Chapter], boundaries: &[u64]) {
    assert_eq!(boundaries.len(), chapters.len() + 1);
    assert_eq!(boundaries[0], chapters[0].start_ms, "first start moved");
    assert_eq!(*boundaries.last().unwrap(), chapters.last().unwrap().end_ms, "last end moved");
    for w in boundaries.windows(2) {
        assert!(w[1] > w[0], "boundaries must be strictly increasing: {:?}", w);
    }
}

#[test]
fn test_compute_refined_boundaries_no_gap_or_overlap() {
    let chapters = vec![ch("Track 1", 0, 30_000), ch("Track 2", 28_000, 60_000), ch("Track 3", 60_500, 90_000)];
    let silences = vec![SilencePoint::new(28_800, 29_200), SilencePoint::new(60_200, 60_800)];
    let boundaries = compute_refined_boundaries(&chapters, &silences, 5_000);
    assert_contiguous(&chapters, &boundaries);
    assert_eq!(boundaries[1], 29_000);
}

#[test]
fn test_compute_refined_boundaries_keeps_declared_cut_when_no_silence_nearby() {
    let chapters = vec![ch("Track 1", 0, 30_000), ch("Track 2", 30_000, 60_000)];
    let silences = vec![SilencePoint::new(200_000, 201_000)];
    let boundaries = compute_refined_boundaries(&chapters, &silences, 5_000);
    assert_contiguous(&chapters, &boundaries);
    assert_eq!(boundaries[1], 30_000);
}

#[test]
fn test_compute_refined_boundaries_never_moves_first_start_or_last_end() {
    let chapters = vec![ch("Track 1", 2_000, 30_000), ch("Track 2", 30_000, 60_000), ch("Track 3", 60_000, 90_000)];
    let silences = vec![
        SilencePoint::new(400, 600),
        SilencePoint::new(29_800, 30_200),
        SilencePoint::new(59_800, 60_200),
        SilencePoint::new(89_000, 89_400),
    ];
    let boundaries = compute_refined_boundaries(&chapters, &silences, 5_000);
    assert_contiguous(&chapters, &boundaries);
}

#[test]
fn test_compute_refined_boundaries_handles_many_close_declared_cuts() {
    let chapters = vec![
        ch("Track 1", 0, 10_000),
        ch("Track 2", 10_010, 10_020),
        ch("Track 3", 10_030, 10_040),
        ch("Track 4", 10_050, 20_000),
    ];
    let silences = vec![SilencePoint::new(9_990, 10_010)];
    let boundaries = compute_refined_boundaries(&chapters, &silences, 5_000);
    assert_contiguous(&chapters, &boundaries);
    assert_eq!(boundaries, vec![0, 10_000, 10_050, 10_100, 20_000]);
}

#[test]
fn refined_chapters_share_their_cuts() {
    let chapters = vec![ch("A", 0, 30_000), ch("B", 28_000, 60_000)];
    let silences = vec![SilencePoint::new(28_800, 29_200)];
    let refined = refine_chapters_with_silence(&chapters, &silences, 5_000);
    assert_eq!(refined.len(), 2);
    assert_eq!(refined[0].end_ms, refined[1].start_ms);
    assert_eq!(refined[0].end_ms, 29_000);
    assert_eq!(refined[1].title, "B");
    let untouched = refine_chapters_with_silence(&chapters, &vec![], 5_000);
    assert_eq!(untouched[1].start_ms, 28_000);
    assert!(refine_chapters_with_silence(&vec![], &silences, 5_000).is_empty());
}

#[test]
fn refinement_stats_count_moved_starts() {
    let original = vec![ch("A", 0, 60_000), ch("B", 60_000, 120_000), ch("C", 120_000, 180_000)];
    let refined = vec![ch("A", 0, 61_500), ch("B", 61_500, 119_950), ch("C", 119_950, 180_000)];
    let st = refinement_stats(&original, &refined).unwrap();
    assert_eq!(st.adjusted, 1);
    assert_eq!(st.total_shift_ms, 1_500);
    assert_eq!(st.max_shift_ms, 1_500);
    assert!(refinement_stats(&original, &refined[..2].to_vec()).is_none());
}

#[test]
fn refinement_checked_needs_room_for_the_cuts() {
    let chapters = vec![ch("A", 0, 60_000), ch("B", 60_000, 120_000)];
    let silences = vec![SilencePoint::new(61_000, 63_000)];
    let refined = refine_chapters_checked(&chapters, &silences, 5_000).unwrap();
    assert_eq!(refined[0].end_ms, 62_000);
    assert_eq!(refined[1].start_ms, 62_000);
    assert_eq!(refined[1].end_ms, 120_000);
    let tight = vec![ch("A", 0, 20), ch("B", 20, 40)];
    assert!(refine_chapters_checked(&tight, &silences, 5_000).is_none());
}

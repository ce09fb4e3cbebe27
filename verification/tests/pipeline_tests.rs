use youtube_chapter_splitter::config::{AutoInstallBehavior, Config, PlaylistBehavior};
use youtube_chapter_splitter::downloader::VideoInfo;
use youtube_chapter_splitter::error::{MissingToolsError, YtcsError};
use youtube_chapter_splitter::playlist::PlaylistEntry;
use youtube_chapter_splitter::ui::MetadataSource;
use youtube_chapter_splitter::pipeline::{
    album_folder_name, canonical_video_url, expand_playlist, chapter_note, choose_metadata, is_playlist_only_page,
    metadata_prompt, plan_after_answer, plan_chapters, plan_video_urls, should_refine, task_metadata,
    task_chapter_action, task_chapters_after_refine, task_refinement, task_silence_detection, tools_reaction,
    ChapterSource, TaskChapterAction, ToolsReaction, UrlPlan,
};
use youtube_chapter_splitter::chapters::Chapter;

#[test]
fn test_metadata_source_labels() {
    assert_eq!(MetadataSource::Detected.label(), "detected");
    assert_eq!(MetadataSource::Forced.label(), "user-forced");
    assert_eq!(MetadataSource::Default.label(), "default");
}

#[test]
fn metadata_prefers_given_names() {
    let m = choose_metadata("Pink Floyd - Dark Side [1973]", None, None);
    assert_eq!(m.artist, "Pink Floyd");
    assert_eq!(m.album, "Dark Side");
    assert_eq!(m.artist_source, MetadataSource::Detected);
    let m = choose_metadata("Pink Floyd - Dark Side", Some("pink  floyd"), None);
    assert_eq!(m.artist_source, MetadataSource::Forced);
    assert_eq!(m.album_source, MetadataSource::Detected);
    let m = choose_metadata("Just a title", None, None);
    assert_eq!(m.artist, "Unknown Artist");
    assert_eq!(m.artist_source, MetadataSource::Default);
    let p = metadata_prompt(&m, "Just a title", false, false).unwrap();
    assert_eq!(p.0, "Unknown Artist");
    let m2 = choose_metadata("Pink Floyd - Dark Side", None, None);
    assert!(metadata_prompt(&m2, "Pink Floyd - Dark Side", false, false).is_none());
}

#[test]
fn folder_names_carry_the_batch_position() {
    let mut c = Config::default();
    assert_eq!(album_folder_name(&c, "A", "B", Some((0, 3))), "A - B");
    c.playlist_prefix_index = true;
    assert_eq!(album_folder_name(&c, "A", "B", Some((0, 3))), "01 - A - B");
    assert_eq!(album_folder_name(&c, "A", "B", Some((0, 1))), "A - B");
    assert_eq!(album_folder_name(&c, "A", "B", None), "A - B");
}

fn info_with(description: Option<&str>) -> VideoInfo {
    VideoInfo::from_metadata(
        Some("t".to_string()),
        600_000,
        Some("abcdefghijk".to_string()),
        description.map(|d| d.to_string()),
        None,
        None,
        None,
        None,
        None,
    )
}

#[test]
fn chapters_come_from_the_description_or_silence() {
    let plan = plan_chapters(&info_with(Some("0:00 Intro\n2:00 Song\n5:00 Outro")));
    assert_eq!(plan.source, ChapterSource::Description);
    assert_eq!(plan.chapters.len(), 3);
    assert_eq!(chapter_note(&plan), "3 (from description)");
    assert!(should_refine(plan.source, false, true));
    let none = plan_chapters(&info_with(Some("   ")));
    assert_eq!(none.source, ChapterSource::Silence);
    assert_eq!(chapter_note(&none), "silence detection after download");
    assert!(!should_refine(none.source, true, true));
}

#[test]
fn urls_are_reduced_to_their_video() {
    assert_eq!(
        canonical_video_url("https://youtu.be/dQw4w9WgXcQ?t=3").unwrap(),
        "https://www.youtube.com/watch?v=dQw4w9WgXcQ"
    );
    assert!(matches!(
        plan_video_urls("https://www.youtube.com/watch?v=dQw4w9WgXcQ&list=PLx", PlaylistBehavior::Ask),
        Ok(UrlPlan::AskUser)
    ));
    match plan_video_urls("https://www.youtube.com/watch?v=dQw4w9WgXcQ&list=PLx", PlaylistBehavior::VideoOnly).unwrap() {
        UrlPlan::Videos(v) => assert_eq!(v, vec!["https://www.youtube.com/watch?v=dQw4w9WgXcQ".to_string()]),
        _ => panic!(),
    }
    match plan_video_urls("https://youtu.be/dQw4w9WgXcQ", PlaylistBehavior::PlaylistOnly).unwrap() {
        UrlPlan::Videos(v) => assert_eq!(v, vec!["https://www.youtube.com/watch?v=dQw4w9WgXcQ".to_string()]),
        _ => panic!(),
    }
    assert!(plan_video_urls("nothing here", PlaylistBehavior::VideoOnly).is_err());
    assert!(is_playlist_only_page("https://www.YouTube.com/playlist?list=PL1"));
    assert!(!is_playlist_only_page("https://www.youtube.com/watch?v=abc&list=PL1"));
    assert!(matches!(plan_after_answer("https://www.youtube.com/playlist?list=PL1", " Y "), Ok(UrlPlan::ExpandPlaylist)));
    match plan_after_answer("https://www.youtube.com/playlist?list=PL1", "n") {
        Err(YtcsError::InvalidUrl(m)) => assert!(m.starts_with("Playlist-only URLs")),
        _ => panic!(),
    }
}

#[test]
fn missing_tools_follow_the_configured_behavior() {
    let e = YtcsError::MissingTools(MissingToolsError { missing_ytdlp: true, missing_ffmpeg: false, missing_deno: true });
    assert!(matches!(tools_reaction(&e, AutoInstallBehavior::Never), ToolsReaction::GiveUp));
    match tools_reaction(&e, AutoInstallBehavior::Always) {
        ToolsReaction::Install(t) => assert_eq!(t, vec!["yt-dlp", "deno"]),
        _ => panic!(),
    }
    assert!(matches!(tools_reaction(&e, AutoInstallBehavior::Prompt), ToolsReaction::Ask(_)));
    assert!(matches!(tools_reaction(&YtcsError::Other("x".into()), AutoInstallBehavior::Always), ToolsReaction::GiveUp));
}

#[test]
fn queued_tasks_use_both_names_or_the_title() {
    let (a, b) = task_metadata("X - Y", Some("A"), None);
    assert_eq!((a.as_str(), b.as_str()), ("X", "Y"));
    let (a, b) = task_metadata("X - Y", Some("A"), Some("B"));
    assert_eq!((a.as_str(), b.as_str()), ("A", "B"));
}

#[test]
fn canonical_urls_are_their_own_canonical_form() {
    for url in [
        "https://youtu.be/dQw4w9WgXcQ?t=3",
        "https://music.youtube.com/watch?v=dQw4w9WgXcQ&list=RD1",
        "www.youtube.com/watch?v=abcdefghijk",
    ] {
        let once = canonical_video_url(url).unwrap();
        assert_eq!(canonical_video_url(&once).unwrap(), once);
    }
}

#[test]
fn playlist_only_expands_into_every_listed_video() {
    let raw = "https://www.youtube.com/watch?v=dQw4w9WgXcQ&list=PLrAXtmErZgOeiKm4sgNOknGvNjby9efdf";
    assert!(matches!(plan_video_urls(raw, PlaylistBehavior::PlaylistOnly), Ok(UrlPlan::ExpandPlaylist)));
    assert!(matches!(
        plan_video_urls("https://www.youtube.com/playlist?list=PL1", PlaylistBehavior::VideoOnly),
        Err(YtcsError::InvalidUrl(_))
    ));
    let entry = |id: Option<&str>| PlaylistEntry {
        id: id.map(str::to_string),
        title: None,
        playlist_title: Some("Mix".to_string()),
        playlist_id: Some("PL1".to_string()),
        duration_ms: 0,
    };
    let urls = expand_playlist(vec![entry(Some("aaaaaaaaaaa")), entry(None), entry(Some("bbbbbbbbbbb"))]).unwrap();
    assert_eq!(
        urls,
        vec![
            "https://www.youtube.com/watch?v=aaaaaaaaaaa".to_string(),
            "https://www.youtube.com/watch?v=bbbbbbbbbbb".to_string()
        ]
    );
    assert!(matches!(expand_playlist(vec![entry(None)]), Err(YtcsError::Other(_))));
}

#[test]
fn queued_downloads_take_video_then_description_chapters_else_silences() {
    let mut info = info_with(Some("0:00 Intro\n2:00 Song"));
    info.chapters = vec![Chapter::new("A".to_string(), 0, 60_000), Chapter::new("B".to_string(), 60_000, 600_000)];
    match task_chapter_action(&info) {
        TaskChapterAction::Refine(source, cs) => {
            assert_eq!(source, ChapterSource::Video);
            assert_eq!(cs.len(), 2);
            assert_eq!(cs[1].title, "B");
        }
        TaskChapterAction::DetectSilence => panic!(),
    }
    match task_chapter_action(&info_with(Some("0:00 Intro\n2:00 Song\n5:00 Outro"))) {
        TaskChapterAction::Refine(source, cs) => {
            assert_eq!(source, ChapterSource::Description);
            assert_eq!(cs.len(), 3);
            assert_eq!((cs[1].start_ms, cs[1].end_ms), (120_000, 300_000));
        }
        TaskChapterAction::DetectSilence => panic!(),
    }
    assert!(matches!(task_chapter_action(&info_with(Some("no times here"))), TaskChapterAction::DetectSilence));
    assert!(matches!(task_chapter_action(&info_with(None)), TaskChapterAction::DetectSilence));
}

#[test]
fn queued_downloads_refine_with_fixed_settings_and_fall_back() {
    let r = task_refinement();
    assert_eq!((r.window_ms, r.noise_millidb, r.min_silence_ms), (5000, -35000, 1000));
    assert_eq!(task_silence_detection(), (-30000, 2000));
    let original = vec![Chapter::new("A".to_string(), 0, 1000)];
    let refined = vec![Chapter::new("A".to_string(), 0, 1200)];
    let kept = task_chapters_after_refine(ChapterSource::Video, original.clone(), Some(refined.clone())).unwrap();
    assert_eq!(kept[0].end_ms, 1200);
    let unrefined = task_chapters_after_refine(ChapterSource::Video, original.clone(), None).unwrap();
    assert_eq!(unrefined[0].end_ms, 1000);
    assert!(task_chapters_after_refine(ChapterSource::Description, original, None).is_none());
}

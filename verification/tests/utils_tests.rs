use youtube_chapter_splitter::utils::{format_duration, format_duration_short};
use youtube_chapter_splitter::utils::{clean_folder_name, parse_artist_album, sanitize_title};

#[test]
fn test_clean_folder_name() {
    assert_eq!(
        clean_folder_name("MARIGOLD - Oblivion Gate [Full Album] (70s Psychedelic Blues Acid Rock)"),
        "Marigold - Oblivion Gate"
    );
    assert_eq!(
        clean_folder_name("Artist_Name - Album_Title [2024]"),
        "Artist-name - Album-title"
    );
    assert_eq!(
        clean_folder_name("test_album (bonus tracks) [remastered]"),
        "Test-album"
    );
    assert_eq!(
        clean_folder_name(
            "PURPLE DREAMS - WANDERING SHADOWS (FULL ALBUM) | 70s Progressive/Psychedelic Rock"
        ),
        "Purple Dreams - Wandering Shadows"
    );
    assert_eq!(
        clean_folder_name("Chronomancer | MAGNUM OPUS | FULL ALBUM (Progressive Rock)"),
        "Chronomancer - Magnum Opus"
    );
    assert_eq!(
        clean_folder_name("Artist Name - Album Name - Full Album"),
        "Artist Name - Album Name"
    );
}

#[test]
fn test_sanitize_title() {
    assert_eq!(sanitize_title("1 - Song Name"), "Song Name");
    assert_eq!(sanitize_title("Track 5: Another Song"), "Another Song");
    assert_eq!(
        sanitize_title("Invalid/Characters:Here"),
        "Invalid_Characters_Here"
    );
}

#[test]
fn test_parse_artist_album() {
    let (artist, album) = parse_artist_album("Pink Floyd - Dark Side of the Moon [1973]");
    assert_eq!(artist, "Pink Floyd");
    assert_eq!(album, "Dark Side Of The Moon");
}

#[test]
fn parse_artist_album_without_separator_uses_unknown_artist() {
    let (artist, album) = parse_artist_album("just a title");
    assert_eq!(artist, "Unknown Artist");
    assert_eq!(album, "Just A Title");
}

#[test]
fn sanitize_title_keeps_plain_titles() {
    assert_eq!(sanitize_title("Plain Title"), "Plain Title");
    assert_eq!(sanitize_title("a*b?c\"d<e>f|g\\h"), "a_b_c_d_e_f_g_h");
}

#[test]
fn utils_test_format_duration() {
    assert_eq!(format_duration(90.0_f64 as u64), "1m 30s");
    assert_eq!(format_duration(3661.0_f64 as u64), "1h 01m 01s");
    assert_eq!(format_duration(45.0_f64 as u64), "0m 45s");
}

#[test]
fn test_format_duration_short() {
    assert_eq!(format_duration_short(343.0_f64 as u64), "5m 43s");
    assert_eq!(format_duration_short(90.0_f64 as u64), "1m 30s");
}

#[test]
fn track_numbers_in_any_script_of_decimal_digits_are_removed() {
    assert_eq!(sanitize_title("٣ - Song"), "Song");
    assert_eq!(sanitize_title("Track ١٢: Intro"), "Intro");
    assert_eq!(sanitize_title("१. Raga"), "Raga");
    assert_eq!(sanitize_title("Ⅻ - Roman"), "Ⅻ - Roman");
}

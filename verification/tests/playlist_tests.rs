use youtube_chapter_splitter::playlist::{is_playlist_url, remove_playlist_param};

#[test]
fn test_is_playlist_url() {
    assert!(is_playlist_url(
        "https://www.youtube.com/watch?v=dQw4w9WgXcQ&list=PLrAXtmErZgOeiKm4sgNOknGvNjby9efdf"
    )
    .is_none());
    assert!(
        is_playlist_url("https://www.youtube.com/playlist?list=PLrAXtmErZgOeiKm4sgNOknGvNjby9efdf")
            .is_none()
    );
    assert!(is_playlist_url("https://www.youtube.com/watch?v=dQw4w9WgXcQ").is_none());
    assert!(is_playlist_url(
        "https://www.youtube.com/watch?v=Kx0wf6xqzWg&list=RDKx0wf6xqzWg&start_radio=1"
    )
    .is_none());
    assert!(is_playlist_url("https://www.youtube.com/watch?v=abc&list=RDMM12345").is_none());
}

#[test]
fn test_remove_playlist_param() {
    let url = "https://www.youtube.com/watch?v=dQw4w9WgXcQ&list=PLrAXtmErZgOeiKm4sgNOknGvNjby9efdf";
    assert_eq!(
        remove_playlist_param(url),
        "https://www.youtube.com/watch?v=dQw4w9WgXcQ"
    );
    let url2 = "https://www.youtube.com/watch?v=dQw4w9WgXcQ";
    assert_eq!(remove_playlist_param(url2), url2);
}

#[test]
fn remove_playlist_param_first_parameter() {
    assert_eq!(
        remove_playlist_param("https://www.youtube.com/watch?list=PL1&v=abc&t=5"),
        "https://www.youtube.com/watch?v=abc"
    );
    assert_eq!(
        remove_playlist_param("https://www.youtube.com/playlist?list=PL1"),
        "https://www.youtube.com/playlist"
    );
}

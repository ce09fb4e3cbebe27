//! The decisions of a download run: which URLs to download, which artist
//! and album to use, where the album goes, which chapters to cut at and
//! whether to refine them, and what to do about missing tools.
//!
//! Running the tools, prompting and printing are left to the front end.

use vstd::prelude::*;
use crate::chapters::Chapter;
use crate::chapters_from_description::{
    chapter_view, chapters_of, description_entries, parse_chapters_from_description, sort_entries,
};
use crate::config::{format_directory_spec, AutoInstallBehavior, Config, PlaylistBehavior};
use crate::downloader::{extract_video_id, id_run, id_start, is_id_char, lemma_first_video_id, video_id_at, video_id_of, VideoInfo};
use crate::error::{tools_to_install_spec, YtcsError};
use crate::playlist::{
    lemma_listing_ids, listed_ids, listing, playlist_from_entries, remove_playlist_param, remove_playlist_param_spec,
    video_is, watch_url, PlaylistEntry, PlaylistInfo,
};
use crate::text::{
    chars_of, contains, contains_exec, dec, dec2, matches_at, owned, push_dec, push_dec2, push_str, str_eq, str_to_lower,
    string_of, to_lower_chars, trim, trim_chars,
};
use crate::utils::{clean_folder_name, clean_folder_name_spec, parse_artist_album, parse_artist_album_spec};
use crate::ui::MetadataSource;

verus! {

/// The artist and album of a download and where each came from.
pub struct Metadata {
    pub artist: String,
    pub album: String,
    pub artist_source: MetadataSource,
    pub album_source: MetadataSource,
}

/// The artist a title gives when it cannot be read.
pub open spec fn unknown_artist_text() -> Seq<char> {
    "Unknown Artist"@
}

/// The artist and album of a video with the title `title`, given the names
/// passed by the user: a given name is cleaned and forced; a missing one
/// is read from the title (the artist counts as the default when the title
/// gives none).
pub open spec fn metadata_spec(title: Seq<char>, artist: Option<Seq<char>>, album: Option<Seq<char>>) -> (
    Seq<char>,
    Seq<char>,
    MetadataSource,
    MetadataSource,
) {
    let (pa, pal) = parse_artist_album_spec(title);
    let a = match artist {
        Some(x) => clean_folder_name_spec(x),
        None => pa,
    };
    let al = match album {
        Some(x) => clean_folder_name_spec(x),
        None => pal,
    };
    let asrc = if artist is Some {
        MetadataSource::Forced
    } else if pa == unknown_artist_text() {
        MetadataSource::Default
    } else {
        MetadataSource::Detected
    };
    let alsrc = if album is Some {
        MetadataSource::Forced
    } else {
        MetadataSource::Detected
    };
    (a, al, asrc, alsrc)
}

/// The views of an optional string slice.
pub open spec fn opt_str_view(o: Option<&str>) -> Option<Seq<char>> {
    match o {
        Some(s) => Some(s@),
        None => None,
    }
}

/// The artist and album for a video: see [`metadata_spec`].
pub fn choose_metadata(title: &str, artist: Option<&str>, album: Option<&str>) -> (r: Metadata)
    ensures
        (r.artist@, r.album@, r.artist_source, r.album_source) == metadata_spec(
            title@,
            opt_str_view(artist),
            opt_str_view(album),
        ),
{
    let (pa, pal) = parse_artist_album(title);
    let artist_source = match artist {
        Some(_) => MetadataSource::Forced,
        None => if str_eq(pa.as_str(), "Unknown Artist") {
            MetadataSource::Default
        } else {
            MetadataSource::Detected
        },
    };
    let album_source = match album {
        Some(_) => MetadataSource::Forced,
        None => MetadataSource::Detected,
    };
    let a = match artist {
        Some(x) => clean_folder_name(x),
        None => pa,
    };
    let al = match album {
        Some(x) => clean_folder_name(x),
        None => pal,
    };
    Metadata { artist: a, album: al, artist_source, album_source }
}

/// Whether the user is asked for the artist and album, and with which
/// defaults: when the artist is unknown and was not given (the defaults
/// are the artist and the cleaned title), or when the album is just the
/// cleaned title, was not given, and that title holds no ` - ` (the
/// defaults are the artist and album).
pub open spec fn prompt_spec(artist: Seq<char>, album: Seq<char>, title: Seq<char>, artist_given: bool, album_given: bool) -> Option<
    (Seq<char>, Seq<char>),
> {
    let ct = clean_folder_name_spec(title);
    if artist == unknown_artist_text() && !artist_given {
        Some((artist, ct))
    } else if album == ct && !album_given && !contains(ct, " - "@) {
        Some((artist, album))
    } else {
        None
    }
}

/// The defaults to ask the user for the artist and album with, if they
/// are to be asked: see [`prompt_spec`].
pub fn metadata_prompt(meta: &Metadata, title: &str, artist_given: bool, album_given: bool) -> (r: Option<(String, String)>)
    ensures
        match prompt_spec(meta.artist@, meta.album@, title@, artist_given, album_given) {
            Some((a, al)) => r matches Some((x, y)) && x@ == a && y@ == al,
            None => r is None,
        },
{
    let ct = clean_folder_name(title);
    if str_eq(meta.artist.as_str(), "Unknown Artist") && !artist_given {
        return Some((owned(meta.artist.as_str()), ct));
    }
    let ctv = chars_of(ct.as_str());
    let sep = chars_of(" - ");
    if str_eq(meta.album.as_str(), ct.as_str()) && !album_given && !contains_exec(&ctv, &sep) {
        return Some((owned(meta.artist.as_str()), owned(meta.album.as_str())));
    }
    None
}

/// The folder name of an album: the configured format, prefixed with the
/// position in the batch (two digits at least, from 1) when several videos
/// are downloaded and the configuration asks for it.
pub open spec fn folder_name_spec(template: Seq<char>, prefix_index: bool, artist: Seq<char>, album: Seq<char>, batch: Option<(usize, usize)>) -> Seq<char> {
    let name = format_directory_spec(template, artist, album);
    match batch {
        Some((i, n)) => if n > 1 && prefix_index {
            dec2((i + 1) as nat) + " - "@ + name
        } else {
            name
        },
        None => name,
    }
}

/// The folder name of an album: see [`folder_name_spec`]; `batch` is the
/// position and the number of videos downloaded together.
pub fn album_folder_name(config: &Config, artist: &str, album: &str, batch: Option<(usize, usize)>) -> (r: String)
    requires
        batch matches Some((i, n)) ==> i < n,
    ensures
        r@ == folder_name_spec(config.directory_format@, config.playlist_prefix_index, artist@, album@, batch),
{
    let name = config.format_directory(artist, album);
    match batch {
        Some((i, n)) => if n > 1 && config.playlist_prefix_index {
            let mut out: Vec<char> = Vec::new();
            push_dec2(&mut out, (i as u64) + 1);
            push_str(&mut out, " - ");
            push_str(&mut out, name.as_str());
            string_of(&out)
        } else {
            name
        },
        None => name,
    }
}

/// Where the chapters of a download come from.
#[derive(Debug, Clone, Copy, PartialEq, Eq, Structural)]
pub enum ChapterSource {
    /// The video's own chapters.
    Video,
    /// Timestamps in the description.
    Description,
    /// None: silence detection after the download.
    Silence,
}

/// The chapters to cut at and where they come from.
pub struct ChapterPlan {
    pub source: ChapterSource,
    pub chapters: Vec<Chapter>,
}

/// The chapters of a description with timestamps, when it yields some
/// (see `parse_chapters_from_description`).
pub open spec fn description_chapters(desc: Seq<char>, duration_ms: u64) -> Option<Seq<(u64, u64, Seq<char>)>> {
    let d = description_entries(desc, duration_ms as nat);
    let cs = chapters_of(sort_entries(d), duration_ms, 0);
    if d.len() < 2 || cs.len() == 0 {
        None
    } else {
        Some(cs)
    }
}

/// Which chapters a download uses: the video's own when it has some; else
/// those of its trimmed description when it is not blank and yields two at
/// least; else none, to be found by silence detection.
pub open spec fn chapter_plan_spec(chapters: Seq<(u64, u64, Seq<char>)>, description: Option<Seq<char>>, duration_ms: u64) -> (
    ChapterSource,
    Seq<(u64, u64, Seq<char>)>,
) {
    if chapters.len() > 0 {
        (ChapterSource::Video, chapters)
    } else {
        match description {
            Some(d) => if trim(d).len() > 0 {
                match description_chapters(trim(d), duration_ms) {
                    Some(cs) => if cs.len() >= 2 {
                        (ChapterSource::Description, cs)
                    } else {
                        (ChapterSource::Silence, Seq::empty())
                    },
                    None => (ChapterSource::Silence, Seq::empty()),
                }
            } else {
                (ChapterSource::Silence, Seq::empty())
            },
            None => (ChapterSource::Silence, Seq::empty()),
        }
    }
}

/// A copy of a list of chapters.
fn copy_chapters(cs: &Vec<Chapter>) -> (r: Vec<Chapter>)
    ensures
        r@.map_values(|c: Chapter| chapter_view(c)) == cs@.map_values(|c: Chapter| chapter_view(c)),
{
    let mut out: Vec<Chapter> = Vec::new();
    let mut i: usize = 0;
    while i < cs.len()
        invariant
            i <= cs@.len(),
            out@.len() == i,
            out@.map_values(|c: Chapter| chapter_view(c)) == cs@.take(i as int).map_values(|c: Chapter| chapter_view(c)),
        decreases cs@.len() - i,
    {
        let c = &cs[i];
        let ghost before = out@;
        out.push(Chapter { title: owned(c.title.as_str()), start_ms: c.start_ms, end_ms: c.end_ms });
        proof {
            let want = cs@.take(i + 1).map_values(|c: Chapter| chapter_view(c));
            let prev = cs@.take(i as int).map_values(|c: Chapter| chapter_view(c));
            assert forall|k: int| 0 <= k < i + 1 implies out@.map_values(|c: Chapter| chapter_view(c))[k] == want[k] by {
                if k < i {
                    assert(out@[k] == before[k]);
                    assert(before.map_values(|c: Chapter| chapter_view(c))[k] == prev[k]);
                }
            }
            assert(out@.map_values(|c: Chapter| chapter_view(c)) =~= want);
        }
        i = i + 1;
    }
    assert(cs@.take(cs@.len() as int) =~= cs@);
    out
}

/// The chapters a download of the video uses: see [`chapter_plan_spec`].
pub fn plan_chapters(info: &VideoInfo) -> (r: ChapterPlan)
    ensures
        (r.source, r.chapters@.map_values(|c: Chapter| chapter_view(c))) == chapter_plan_spec(
            info.chapters@.map_values(|c: Chapter| chapter_view(c)),
            crate::tui::app::opt_chars(info.description),
            info.duration_ms,
        ),
{
    if info.chapters.len() > 0 {
        return ChapterPlan { source: ChapterSource::Video, chapters: copy_chapters(&info.chapters) };
    }
    let silence = ChapterPlan { source: ChapterSource::Silence, chapters: Vec::new() };
    proof {
        assert(silence.chapters@.map_values(|c: Chapter| chapter_view(c)) =~= Seq::<(u64, u64, Seq<char>)>::empty());
    }
    match &info.description {
        Some(d) => {
            let dv = chars_of(d.as_str());
            let t = trim_chars(&dv);
            if t.len() == 0 {
                return silence;
            }
            let ts = string_of(&t);
            match parse_chapters_from_description(ts.as_str(), info.duration_ms) {
                Ok(cs) => if cs.len() >= 2 {
                    proof {
                        assert(cs@.map_values(|c: Chapter| chapter_view(c)).len() == cs@.len());
                    }
                    ChapterPlan { source: ChapterSource::Description, chapters: cs }
                } else {
                    proof {
                        assert(cs@.map_values(|c: Chapter| chapter_view(c)).len() == cs@.len());
                    }
                    silence
                },
                Err(_) => silence,
            }
        },
        None => silence,
    }
}

/// The note on the chapters of a dry run.
pub open spec fn chapter_note_spec(source: ChapterSource, n: nat) -> Seq<char> {
    match source {
        ChapterSource::Video => dec(n) + " (YouTube chapters)"@,
        ChapterSource::Description => dec(n) + " (from description)"@,
        ChapterSource::Silence => "silence detection after download"@,
    }
}

/// The note on the chapters of a dry run: see [`chapter_note_spec`].
pub fn chapter_note(plan: &ChapterPlan) -> (r: String)
    ensures
        r@ == chapter_note_spec(plan.source, plan.chapters@.len()),
{
    let mut out: Vec<char> = Vec::new();
    match plan.source {
        ChapterSource::Video => {
            push_dec(&mut out, plan.chapters.len() as u64);
            push_str(&mut out, " (YouTube chapters)");
        },
        ChapterSource::Description => {
            push_dec(&mut out, plan.chapters.len() as u64);
            push_str(&mut out, " (from description)");
        },
        ChapterSource::Silence => push_str(&mut out, "silence detection after download"),
    }
    string_of(&out)
}

/// Whether the chapters are refined against the audio's silences: not for
/// chapters found by silence detection; otherwise when asked on the
/// command line or in the configuration.
pub fn should_refine(source: ChapterSource, requested: bool, configured: bool) -> (r: bool)
    ensures
        r == (source != ChapterSource::Silence && (requested || configured)),
{
    source != ChapterSource::Silence && (requested || configured)
}

/// The watch URL of a video URL's ID.
pub open spec fn canonical_url_spec(url: Seq<char>) -> Option<Seq<char>> {
    match video_id_of(url) {
        Some(id) => Some("https://www.youtube.com/watch?v="@ + id),
        None => None,
    }
}

/// The watch URL of the video a URL names (see [`canonical_url_spec`]);
/// a URL without a video ID is the error.
pub fn canonical_video_url(url: &str) -> (r: Result<String, YtcsError>)
    ensures
        match canonical_url_spec(url@) {
            Some(u) => r matches Ok(s) && s@ == u,
            None => r matches Err(YtcsError::InvalidUrl(m)) && m@ == crate::downloader::no_video_id_message(url@),
        },
{
    match extract_video_id(url) {
        Ok(id) => {
            let mut out: Vec<char> = Vec::new();
            push_str(&mut out, "https://www.youtube.com/watch?v=");
            push_str(&mut out, id.as_str());
            Ok(string_of(&out))
        },
        Err(e) => Err(e),
    }
}

/// A video URL prefix followed by an ID at `k` means there is a first one.
proof fn lemma_first_id_exists(s: Seq<char>, k: int)
    requires
        video_id_at(s, k),
    ensures
        exists|i: int| video_id_at(s, i) && forall|j: int| 0 <= j < i ==> !video_id_at(s, j),
    decreases k,
{
    if exists|j: int| 0 <= j < k && video_id_at(s, j) {
        let j = choose|j: int| 0 <= j < k && video_id_at(s, j);
        lemma_first_id_exists(s, j);
    } else {
        assert(video_id_at(s, k) && forall|j: int| 0 <= j < k ==> !video_id_at(s, j));
    }
}

/// The ID found in a URL is eleven ID characters.
proof fn lemma_video_id_chars(s: Seq<char>)
    requires
        video_id_of(s) is Some,
    ensures
        video_id_of(s)->0.len() == 11,
        forall|j: int| 0 <= j < 11 ==> is_id_char(#[trigger] video_id_of(s)->0[j]),
{
    let k = choose|i: int| video_id_at(s, i);
    lemma_first_id_exists(s, k);
    let i = choose|i: int| video_id_at(s, i) && forall|j: int| 0 <= j < i ==> !video_id_at(s, j);
    let st = id_start(s, i);
    assert(id_run(s, st));
    assert forall|j: int| 0 <= j < 11 implies is_id_char(#[trigger] video_id_of(s)->0[j]) by {
        assert(video_id_of(s)->0[j] == s[st + j]);
    }
}

/// A text that starts with the watch URL prefix has no video URL prefix in
/// its first twelve characters (`https://www.` holds no `y`).
proof fn lemma_no_id_before_host(c: Seq<char>)
    requires
        c.len() >= 32,
        c.subrange(0, 32) == "https://www.youtube.com/watch?v="@,
    ensures
        forall|j: int| 0 <= j < 12 ==> !video_id_at(c, j),
{
    reveal_strlit("https://www.youtube.com/watch?v=");
    reveal_strlit("youtube.com/watch?v=");
    reveal_strlit("youtu.be/");
    assert forall|j: int| 0 <= j < 12 implies !video_id_at(c, j) by {
        assert(c[j] == c.subrange(0, 32)[j]);
        assert(c[j] != 'y');
        if matches_at(c, "youtube.com/watch?v="@, j) {
            assert(c.subrange(j, j + 20)[0] == c[j]);
        }
        if matches_at(c, "youtu.be/"@, j) {
            assert(c.subrange(j, j + 9)[0] == c[j]);
        }
    }
}

/// The watch URL of an ID names that ID right after its prefix.
proof fn lemma_watch_url_has_id(id: Seq<char>)
    requires
        id.len() == 11,
        forall|j: int| 0 <= j < 11 ==> is_id_char(#[trigger] id[j]),
    ensures
        video_id_at("https://www.youtube.com/watch?v="@ + id, 12),
        id_start("https://www.youtube.com/watch?v="@ + id, 12) == 32,
{
    let c = "https://www.youtube.com/watch?v="@ + id;
    reveal_strlit("https://www.youtube.com/watch?v=");
    reveal_strlit("youtube.com/watch?v=");
    assert(c.subrange(12, 32) =~= "youtube.com/watch?v="@);
    assert(matches_at(c, "youtube.com/watch?v="@, 12));
    assert forall|j: int| 32 <= j < 43 implies is_id_char(#[trigger] c[j]) by {
        assert(c[j] == id[j - 32]);
    }
}

/// Normalizing a video URL twice gives what normalizing it once gave: the
/// canonical watch URL names the same video and is its own canonical URL.
pub proof fn lemma_canonical_url_fixed(url: Seq<char>)
    requires
        canonical_url_spec(url) is Some,
    ensures
        canonical_url_spec(canonical_url_spec(url)->0) == canonical_url_spec(url),
{
    let id = video_id_of(url)->0;
    lemma_video_id_chars(url);
    let c = "https://www.youtube.com/watch?v="@ + id;
    reveal_strlit("https://www.youtube.com/watch?v=");
    assert(c.subrange(0, 32) =~= "https://www.youtube.com/watch?v="@);
    lemma_no_id_before_host(c);
    lemma_watch_url_has_id(id);
    lemma_first_video_id(c, 12);
    assert(c.subrange(32, 43) =~= id);
}

/// A page of a playlist alone: its lower-cased URL names a playlist page
/// and no video.
pub open spec fn playlist_only_spec(lower: Seq<char>) -> bool {
    (contains(lower, "youtube.com/playlist?"@) || contains(lower, "music.youtube.com/playlist?"@)) && !contains(
        lower,
        "watch?v="@,
    )
}

/// Whether a URL is the page of a playlist alone: see
/// [`playlist_only_spec`], on the lower-cased URL.
pub fn is_playlist_only_page(url: &str) -> (r: bool)
    ensures
        r == playlist_only_spec(str_to_lower(url@)),
{
    let v = chars_of(url);
    let u = to_lower_chars(&v);
    let a = chars_of("youtube.com/playlist?");
    let b = chars_of("music.youtube.com/playlist?");
    let c = chars_of("watch?v=");
    (contains_exec(&u, &a) || contains_exec(&u, &b)) && !contains_exec(&u, &c)
}

/// What to download for a URL.
pub enum UrlPlan {
    /// These video URLs.
    Videos(Vec<String>),
    /// The playlist's videos: fetch its listing.
    ExpandPlaylist,
    /// Ask the user whether to download the playlist.
    AskUser,
}

/// The message for a playlist-only link with video-only behavior.
pub open spec fn video_only_refusal() -> Seq<char> {
    "Playlist-only links need playlist_behavior = playlist_only (run ytcs config) or a watch?v= URL."@
}

/// The message for a playlist-only link the user would not expand.
pub open spec fn declined_refusal() -> Seq<char> {
    "Playlist-only URLs cannot be reduced to one video; answer y to download the playlist."@
}

/// The single video of a URL: its watch URL without the playlist.
pub open spec fn single_video_spec(url: Seq<char>) -> Option<Seq<char>> {
    canonical_url_spec(remove_playlist_param_spec(url))
}

/// The one video URL of `raw` without its playlist parameter, or the error.
fn single_video(raw: &str) -> (r: Result<UrlPlan, YtcsError>)
    ensures
        match single_video_spec(raw@) {
            Some(u) => r matches Ok(UrlPlan::Videos(v)) && v@.len() == 1 && v@[0]@ == u,
            None => r matches Err(YtcsError::InvalidUrl(m)) && m@ == crate::downloader::no_video_id_message(
                remove_playlist_param_spec(raw@),
            ),
        },
{
    let clean = remove_playlist_param(raw);
    match canonical_video_url(clean.as_str()) {
        Ok(u) => Ok(UrlPlan::Videos(vec![u])),
        Err(e) => Err(e),
    }
}

/// A URL with a playlist: a `list=` parameter in its query.
pub open spec fn has_list_param(url: Seq<char>) -> bool {
    contains(url, "?list="@) || contains(url, "&list="@)
}

/// Whether a URL has a `list=` parameter: see [`has_list_param`].
pub fn has_playlist_param(url: &str) -> (r: bool)
    ensures
        r == has_list_param(url@),
{
    let v = chars_of(url);
    contains_exec(&v, &chars_of("?list=")) || contains_exec(&v, &chars_of("&list="))
}

/// What to download for the URL `raw` with the playlist behavior
/// `behavior`. A URL without a playlist is its one video; with a playlist,
/// video-only behavior keeps the video (and refuses a playlist-only page),
/// playlist-only behavior expands the playlist, and the ask behavior asks.
pub fn plan_video_urls(raw: &str, behavior: PlaylistBehavior) -> (r: Result<UrlPlan, YtcsError>)
    ensures
        !has_list_param(raw@) ==> match canonical_url_spec(raw@) {
            Some(u) => r matches Ok(UrlPlan::Videos(v)) && v@.len() == 1 && v@[0]@ == u,
            None => r matches Err(YtcsError::InvalidUrl(m)) && m@ == crate::downloader::no_video_id_message(raw@),
        },
        has_list_param(raw@) && behavior == PlaylistBehavior::VideoOnly && playlist_only_spec(str_to_lower(raw@))
            ==> (r matches Err(YtcsError::InvalidUrl(m)) && m@ == video_only_refusal()),
        has_list_param(raw@) && behavior == PlaylistBehavior::VideoOnly && !playlist_only_spec(str_to_lower(raw@))
            ==> match single_video_spec(raw@) {
            Some(u) => r matches Ok(UrlPlan::Videos(v)) && v@.len() == 1 && v@[0]@ == u,
            None => r matches Err(YtcsError::InvalidUrl(m)) && m@ == crate::downloader::no_video_id_message(
                remove_playlist_param_spec(raw@),
            ),
        },
        has_list_param(raw@) && behavior == PlaylistBehavior::PlaylistOnly ==> r matches Ok(UrlPlan::ExpandPlaylist),
        has_list_param(raw@) && behavior == PlaylistBehavior::Ask ==> r matches Ok(UrlPlan::AskUser),
{
    if !has_playlist_param(raw) {
        return match canonical_video_url(raw) {
            Ok(u) => Ok(UrlPlan::Videos(vec![u])),
            Err(e) => Err(e),
        };
    }
    match behavior {
        PlaylistBehavior::VideoOnly => {
            if is_playlist_only_page(raw) {
                return Err(YtcsError::InvalidUrl(owned(
                    "Playlist-only links need playlist_behavior = playlist_only (run ytcs config) or a watch?v= URL.",
                )));
            }
            single_video(raw)
        },
        PlaylistBehavior::PlaylistOnly => Ok(UrlPlan::ExpandPlaylist),
        PlaylistBehavior::Ask => Ok(UrlPlan::AskUser),
    }
}

/// The video URLs a playlist expands into, from the lines of yt-dlp's flat
/// listing: the watch URL of each listed video ID, in the listing's order;
/// a listing without videos is the error `No videos found in playlist`.
pub fn expand_playlist(entries: Vec<PlaylistEntry>) -> (r: Result<Vec<String>, YtcsError>)
    ensures
        listed_ids(entries@).len() == 0 ==> (r matches Err(YtcsError::Other(m)) && m@ == "No videos found in playlist"@),
        listed_ids(entries@).len() > 0 ==> (r matches Ok(v) && v@.len() == listed_ids(entries@).len() && forall|i: int|
            0 <= i < v@.len() ==> (#[trigger] v@[i])@ == watch_url(listed_ids(entries@)[i])),
{
    let ghost es = entries@;
    proof {
        lemma_listing_ids(es, es.len() as int);
        assert(es.take(es.len() as int) =~= es);
    }
    match playlist_from_entries(entries) {
        Ok(info) => {
            let v = playlist_video_urls(&info);
            proof {
                let vs = listing(es, es.len() as int).2;
                assert forall|i: int| 0 <= i < v@.len() implies (#[trigger] v@[i])@ == watch_url(listed_ids(es)[i]) by {
                    assert(video_is(info.videos@[i], vs[i]));
                }
            }
            Ok(v)
        },
        Err(e) => Err(e),
    }
}

/// The answer `y` (in any ASCII case, trimmed).
pub open spec fn is_yes(answer: Seq<char>) -> bool {
    crate::config_wizard::eq_ignore_ascii_case(trim(answer), "y"@)
}

/// What to download once the user answered whether to download the
/// playlist of `raw`: the playlist on yes; else the one video, which a
/// playlist-only page has not.
pub fn plan_after_answer(raw: &str, answer: &str) -> (r: Result<UrlPlan, YtcsError>)
    ensures
        is_yes(answer@) ==> r matches Ok(UrlPlan::ExpandPlaylist),
        !is_yes(answer@) && playlist_only_spec(str_to_lower(raw@)) ==> (r matches Err(YtcsError::InvalidUrl(m))
            && m@ == declined_refusal()),
        !is_yes(answer@) && !playlist_only_spec(str_to_lower(raw@)) ==> match single_video_spec(raw@) {
            Some(u) => r matches Ok(UrlPlan::Videos(v)) && v@.len() == 1 && v@[0]@ == u,
            None => r matches Err(YtcsError::InvalidUrl(m)) && m@ == crate::downloader::no_video_id_message(
                remove_playlist_param_spec(raw@),
            ),
        },
{
    let a = chars_of(answer);
    let t = trim_chars(&a);
    let yes = t.len() == 1 && crate::text::ascii_lower_char(t[0]) == 'y';
    proof {
        reveal_strlit("y");
        if yes {
            assert(crate::config_wizard::eq_ignore_ascii_case(t@, "y"@));
        } else if crate::config_wizard::eq_ignore_ascii_case(t@, "y"@) {
            assert(crate::text::ascii_lower(t@[0]) == crate::text::ascii_lower('y'));
        }
    }
    if yes {
        Ok(UrlPlan::ExpandPlaylist)
    } else if is_playlist_only_page(raw) {
        Err(YtcsError::InvalidUrl(owned(
            "Playlist-only URLs cannot be reduced to one video; answer y to download the playlist.",
        )))
    } else {
        single_video(raw)
    }
}

/// The video URLs of a playlist, in order.
pub fn playlist_video_urls(info: &PlaylistInfo) -> (r: Vec<String>)
    ensures
        r@.len() == info.videos@.len(),
        forall|i: int| 0 <= i < r@.len() ==> (#[trigger] r@[i])@ == info.videos@[i].url@,
{
    let mut out: Vec<String> = Vec::new();
    let mut i: usize = 0;
    while i < info.videos.len()
        invariant
            i <= info.videos@.len(),
            out@.len() == i,
            forall|k: int| 0 <= k < i ==> (#[trigger] out@[k])@ == info.videos@[k].url@,
        decreases info.videos@.len() - i,
    {
        out.push(owned(info.videos[i].url.as_str()));
        i = i + 1;
    }
    out
}

/// What to do about missing tools.
pub enum ToolsReaction {
    /// Give the error back.
    GiveUp,
    /// Install these tools, then check again.
    Install(Vec<&'static str>),
    /// Ask the user whether to install these tools.
    Ask(Vec<&'static str>),
}

/// What to do about a failed dependency check with the configured
/// behavior: an error other than missing tools, or the behavior "never",
/// is given back; "always" installs the missing tools; "prompt" asks.
pub fn tools_reaction(error: &YtcsError, behavior: AutoInstallBehavior) -> (r: ToolsReaction)
    ensures
        match error {
            YtcsError::MissingTools(m) => match behavior {
                AutoInstallBehavior::Never => r is GiveUp,
                AutoInstallBehavior::Always => r matches ToolsReaction::Install(t) && t@.map_values(|s: &str| s@)
                    == tools_to_install_spec(*m),
                AutoInstallBehavior::Prompt => r matches ToolsReaction::Ask(t) && t@.map_values(|s: &str| s@)
                    == tools_to_install_spec(*m),
            },
            _ => r is GiveUp,
        },
{
    match error {
        YtcsError::MissingTools(m) => match behavior {
            AutoInstallBehavior::Never => ToolsReaction::GiveUp,
            AutoInstallBehavior::Always => ToolsReaction::Install(m.tools_to_install()),
            AutoInstallBehavior::Prompt => ToolsReaction::Ask(m.tools_to_install()),
        },
        _ => ToolsReaction::GiveUp,
    }
}

/// The artist and album of a queued download: both cleaned when both were
/// given, else read from the title.
pub fn task_metadata(title: &str, artist: Option<&str>, album: Option<&str>) -> (r: (String, String))
    ensures
        match (artist, album) {
            (Some(a), Some(al)) => r.0@ == clean_folder_name_spec(a@) && r.1@ == clean_folder_name_spec(al@),
            _ => (r.0@, r.1@) == parse_artist_album_spec(title@),
        },
{
    match (artist, album) {
        (Some(a), Some(al)) => (clean_folder_name(a), clean_folder_name(al)),
        _ => parse_artist_album(title),
    }
}

/// What a queued download does for its chapters once the audio is there.
pub enum TaskChapterAction {
    /// Refine these chapters (the video's own, or its description's)
    /// against the audio's silences; see [`task_refinement`].
    Refine(ChapterSource, Vec<Chapter>),
    /// Find the chapters by silence detection; see
    /// [`task_silence_detection`].
    DetectSilence,
}

/// The refinement settings of a queued download, fixed whatever the
/// configuration says.
pub struct TaskRefinement {
    /// How far from a boundary a silence is looked for.
    pub window_ms: u64,
    /// The level below which the audio counts as silent, in thousandths
    /// of a decibel.
    pub noise_millidb: i64,
    /// How long a silence lasts at least.
    pub min_silence_ms: u64,
}

/// A queued download refines its chapters within 5 s of each boundary, to
/// silences below -35 dB that last 1 s at least.
pub fn task_refinement() -> (r: TaskRefinement)
    ensures
        r.window_ms == 5000,
        r.noise_millidb == -35000,
        r.min_silence_ms == 1000,
{
    TaskRefinement { window_ms: 5000, noise_millidb: -35000, min_silence_ms: 1000 }
}

/// A queued download without chapters to refine finds them from silences
/// below -30 dB that last 2 s at least: the threshold in thousandths of a
/// decibel and the least length in milliseconds.
pub fn task_silence_detection() -> (r: (i64, u64))
    ensures
        r == (-30000i64, 2000u64),
{
    (-30000, 2000)
}

/// The description of a video as text, empty when it has none.
pub open spec fn description_text(d: Option<String>) -> Seq<char> {
    match d {
        Some(s) => s@,
        None => Seq::empty(),
    }
}

/// Where a queued download takes its chapters from: the video's own when
/// it has some; else those its description yields (see
/// [`description_chapters`]); else silence detection.
pub fn task_chapter_action(info: &VideoInfo) -> (r: TaskChapterAction)
    ensures
        info.chapters@.len() > 0 ==> (r matches TaskChapterAction::Refine(s, cs) && s == ChapterSource::Video
            && cs@.map_values(|c: Chapter| chapter_view(c)) == info.chapters@.map_values(|c: Chapter| chapter_view(c))),
        info.chapters@.len() == 0 ==> match description_chapters(description_text(info.description), info.duration_ms) {
            Some(cs) => r matches TaskChapterAction::Refine(s, v) && s == ChapterSource::Description
                && v@.map_values(|c: Chapter| chapter_view(c)) == cs,
            None => r is DetectSilence,
        },
{
    if info.chapters.len() > 0 {
        return TaskChapterAction::Refine(ChapterSource::Video, copy_chapters(&info.chapters));
    }
    let parsed = match &info.description {
        Some(d) => parse_chapters_from_description(d.as_str(), info.duration_ms),
        None => {
            proof {
                reveal_strlit("");
                assert(""@ =~= Seq::<char>::empty());
            }
            parse_chapters_from_description("", info.duration_ms)
        },
    };
    match parsed {
        Ok(cs) => TaskChapterAction::Refine(ChapterSource::Description, cs),
        Err(_) => TaskChapterAction::DetectSilence,
    }
}

/// The chapters a queued download cuts at after refining: the refined
/// ones when refining worked; else the video's own chapters unrefined;
/// else (description chapters that could not be refined) `None`, and the
/// chapters are found by silence detection.
pub fn task_chapters_after_refine(source: ChapterSource, original: Vec<Chapter>, refined: Option<Vec<Chapter>>) -> (r: Option<Vec<Chapter>>)
    ensures
        match refined {
            Some(v) => r == Some(v),
            None => if source == ChapterSource::Video {
                r == Some(original)
            } else {
                r is None
            },
        },
{
    match refined {
        Some(v) => Some(v),
        None => if source == ChapterSource::Video {
            Some(original)
        } else {
            None
        },
    }
}

} // verus!

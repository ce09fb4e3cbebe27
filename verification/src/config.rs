//! Application configuration: its values, defaults and the file-name
//! templates built from it.
//!
//! Reading and writing the configuration file happens outside the library;
//! fractional settings are held in thousandths (milliseconds, milli-dB).

use vstd::prelude::*;
use crate::text::{chars_of, dec2, extend, owned, push_dec2, replace_all, replace_all_exec, string_of};
use crate::utils::{fs_safe_all, sanitize_filesystem_chars};

verus! {

/// Output container / codec for extraction and per-chapter encoding.
#[derive(Debug, Clone, Copy, PartialEq, Eq, Structural)]
pub enum AudioFormat {
    Mp3,
    Opus,
    M4a,
}

pub open spec fn extension_spec(f: AudioFormat) -> Seq<char> {
    match f {
        AudioFormat::Mp3 => "mp3"@,
        AudioFormat::Opus => "opus"@,
        AudioFormat::M4a => "m4a"@,
    }
}

impl AudioFormat {
    /// The file extension of the format.
    pub fn extension(self) -> (r: &'static str)
        ensures
            r@ == extension_spec(self),
    {
        match self {
            AudioFormat::Mp3 => "mp3",
            AudioFormat::Opus => "opus",
            AudioFormat::M4a => "m4a",
        }
    }

    /// The name yt-dlp uses for the format (the same as the extension).
    pub fn yt_dlp_name(self) -> (r: &'static str)
        ensures
            r@ == extension_spec(self),
    {
        self.extension()
    }
}

impl Default for AudioFormat {
    fn default() -> (r: Self)
        ensures
            r == AudioFormat::Mp3,
    {
        AudioFormat::Mp3
    }
}

/// Playlist detection behavior.
#[derive(Debug, Clone, Copy, PartialEq, Eq, Structural)]
pub enum PlaylistBehavior {
    /// Ask the user what they want to do.
    Ask,
    /// Always download only the single video.
    VideoOnly,
    /// Always download the entire playlist.
    PlaylistOnly,
}

impl Default for PlaylistBehavior {
    fn default() -> (r: Self)
        ensures
            r == PlaylistBehavior::VideoOnly,
    {
        PlaylistBehavior::VideoOnly
    }
}

/// Automatic dependency installation behavior.
#[derive(Debug, Clone, Copy, PartialEq, Eq, Structural)]
pub enum AutoInstallBehavior {
    /// Always prompt before installing.
    Prompt,
    /// Install automatically without asking.
    Always,
    /// Never auto-install (manual only).
    Never,
}

impl Default for AutoInstallBehavior {
    fn default() -> (r: Self)
        ensures
            r == AutoInstallBehavior::Prompt,
    {
        AutoInstallBehavior::Prompt
    }
}

/// Application configuration.
#[derive(Debug, Clone)]
pub struct Config {
    /// Default output directory (None = system Music directory).
    pub default_output_dir: Option<String>,
    /// Download album cover art.
    pub download_cover: bool,
    /// Track file name template: `%n` number, `%t` title, `%a` artist, `%A` album.
    pub filename_format: String,
    /// Directory name template: `%a` artist, `%A` album.
    pub directory_format: String,
    /// Audio quality in kbps (128, 192, or 320).
    pub audio_quality: u32,
    /// Output format for downloaded audio and split tracks.
    pub audio_format: AudioFormat,
    /// Overwrite existing files.
    pub overwrite_existing: bool,
    /// Maximum retry attempts for downloads.
    pub max_retries: u32,
    /// Create a playlist file (.m3u).
    pub create_playlist: bool,
    /// Adjust chapter boundaries using silence detection.
    pub refine_chapters: bool,
    /// Search window (milliseconds, ±) for silence refinement.
    pub refine_silence_window_ms: u64,
    /// Noise threshold for silence refinement, in thousandths of a dB.
    pub refine_noise_millidb: i64,
    /// Minimum silence duration (milliseconds) for refinement.
    pub refine_min_silence_ms: u64,
    /// Prefix album folders with `01-`, `02-`, … for playlist entries.
    pub playlist_prefix_index: bool,
    /// Playlist detection behavior.
    pub playlist_behavior: PlaylistBehavior,
    /// Browser to extract cookies from.
    pub cookies_from_browser: Option<String>,
    /// Download timeout in seconds (0 = no timeout).
    pub download_timeout: u64,
    /// Automatic dependency installation behavior.
    pub dependency_auto_install: AutoInstallBehavior,
    /// Auto-update yt-dlp on download failure.
    pub ytdlp_auto_update: bool,
    /// Minimum days between auto-update attempts (0 = always check).
    pub ytdlp_update_interval_days: u64,
}

/// The values of a configuration, its strings as character sequences.
pub struct ConfigView {
    pub default_output_dir: Option<Seq<char>>,
    pub download_cover: bool,
    pub filename_format: Seq<char>,
    pub directory_format: Seq<char>,
    pub audio_quality: u32,
    pub audio_format: AudioFormat,
    pub overwrite_existing: bool,
    pub max_retries: u32,
    pub create_playlist: bool,
    pub refine_chapters: bool,
    pub refine_silence_window_ms: u64,
    pub refine_noise_millidb: i64,
    pub refine_min_silence_ms: u64,
    pub playlist_prefix_index: bool,
    pub playlist_behavior: PlaylistBehavior,
    pub cookies_from_browser: Option<Seq<char>>,
    pub download_timeout: u64,
    pub dependency_auto_install: AutoInstallBehavior,
    pub ytdlp_auto_update: bool,
    pub ytdlp_update_interval_days: u64,
}

/// The view of an optional string.
pub open spec fn opt_view(o: Option<String>) -> Option<Seq<char>> {
    match o {
        Some(s) => Some(s@),
        None => None,
    }
}

impl View for Config {
    type V = ConfigView;

    open spec fn view(&self) -> ConfigView {
        ConfigView {
            default_output_dir: opt_view(self.default_output_dir),
            download_cover: self.download_cover,
            filename_format: self.filename_format@,
            directory_format: self.directory_format@,
            audio_quality: self.audio_quality,
            audio_format: self.audio_format,
            overwrite_existing: self.overwrite_existing,
            max_retries: self.max_retries,
            create_playlist: self.create_playlist,
            refine_chapters: self.refine_chapters,
            refine_silence_window_ms: self.refine_silence_window_ms,
            refine_noise_millidb: self.refine_noise_millidb,
            refine_min_silence_ms: self.refine_min_silence_ms,
            playlist_prefix_index: self.playlist_prefix_index,
            playlist_behavior: self.playlist_behavior,
            cookies_from_browser: opt_view(self.cookies_from_browser),
            download_timeout: self.download_timeout,
            dependency_auto_install: self.dependency_auto_install,
            ytdlp_auto_update: self.ytdlp_auto_update,
            ytdlp_update_interval_days: self.ytdlp_update_interval_days,
        }
    }
}

impl Config {
    /// A copy of the configuration, with the same values.
    pub fn duplicate(&self) -> (r: Config)
        ensures
            r@ == self@,
    {
        Config {
            default_output_dir: match &self.default_output_dir {
                Some(d) => Some(owned(d.as_str())),
                None => None,
            },
            download_cover: self.download_cover,
            filename_format: owned(self.filename_format.as_str()),
            directory_format: owned(self.directory_format.as_str()),
            audio_quality: self.audio_quality,
            audio_format: self.audio_format,
            overwrite_existing: self.overwrite_existing,
            max_retries: self.max_retries,
            create_playlist: self.create_playlist,
            refine_chapters: self.refine_chapters,
            refine_silence_window_ms: self.refine_silence_window_ms,
            refine_noise_millidb: self.refine_noise_millidb,
            refine_min_silence_ms: self.refine_min_silence_ms,
            playlist_prefix_index: self.playlist_prefix_index,
            playlist_behavior: self.playlist_behavior,
            cookies_from_browser: match &self.cookies_from_browser {
                Some(c) => Some(owned(c.as_str())),
                None => None,
            },
            download_timeout: self.download_timeout,
            dependency_auto_install: self.dependency_auto_install,
            ytdlp_auto_update: self.ytdlp_auto_update,
            ytdlp_update_interval_days: self.ytdlp_update_interval_days,
        }
    }
}

/// The default configuration.
pub open spec fn is_default_config(c: Config) -> bool {
    &&& c.default_output_dir is None
    &&& c.download_cover
    &&& c.filename_format@ == "%n. %t"@
    &&& c.directory_format@ == "%a - %A"@
    &&& c.audio_quality == 192
    &&& c.audio_format == AudioFormat::Mp3
    &&& !c.overwrite_existing
    &&& c.max_retries == 3
    &&& !c.create_playlist
    &&& c.refine_chapters
    &&& c.refine_silence_window_ms == 5000
    &&& c.refine_noise_millidb == -35000
    &&& c.refine_min_silence_ms == 1200
    &&& !c.playlist_prefix_index
    &&& c.playlist_behavior == PlaylistBehavior::VideoOnly
    &&& c.cookies_from_browser is None
    &&& c.download_timeout == 300
    &&& c.dependency_auto_install == AutoInstallBehavior::Prompt
    &&& c.ytdlp_auto_update
    &&& c.ytdlp_update_interval_days == 1
}

impl Default for Config {
    fn default() -> (r: Self)
        ensures
            is_default_config(r),
    {
        Config {
            default_output_dir: None,
            download_cover: true,
            filename_format: owned("%n. %t"),
            directory_format: owned("%a - %A"),
            audio_quality: 192,
            audio_format: AudioFormat::Mp3,
            overwrite_existing: false,
            max_retries: 3,
            create_playlist: false,
            refine_chapters: true,
            refine_silence_window_ms: 5000,
            refine_noise_millidb: -35000,
            refine_min_silence_ms: 1200,
            playlist_prefix_index: false,
            playlist_behavior: PlaylistBehavior::VideoOnly,
            cookies_from_browser: None,
            download_timeout: 300,
            dependency_auto_install: AutoInstallBehavior::Prompt,
            ytdlp_auto_update: true,
            ytdlp_update_interval_days: 1,
        }
    }
}

/// A track file name from a template: `%n` becomes the two-digit track
/// number, then `%t`, `%a` and `%A` the title, artist and album with the
/// characters file systems refuse made `_`, each replacement applied to the
/// result of the previous one.
pub open spec fn format_filename_spec(
    template: Seq<char>,
    track_number: nat,
    title: Seq<char>,
    artist: Seq<char>,
    album: Seq<char>,
) -> Seq<char> {
    let s1 = replace_all(template, "%n"@, dec2(track_number));
    let s2 = replace_all(s1, "%t"@, fs_safe_all(title));
    let s3 = replace_all(s2, "%a"@, fs_safe_all(artist));
    replace_all(s3, "%A"@, fs_safe_all(album))
}

/// A directory name from a template: `%a` then `%A` replaced by the artist
/// and album with the characters file systems refuse made `_`.
pub open spec fn format_directory_spec(
    template: Seq<char>,
    artist: Seq<char>,
    album: Seq<char>,
) -> Seq<char> {
    replace_all(replace_all(template, "%a"@, fs_safe_all(artist)), "%A"@, fs_safe_all(album))
}

fn placeholder(s: &str) -> (r: Vec<char>)
    requires
        s@.len() == 2,
    ensures
        r@ == s@,
        r.len() > 0,
{
    chars_of(s)
}

impl Config {
    /// Formats a track file name with this configuration's template.
    pub fn format_filename(&self, track_number: usize, title: &str, artist: &str, album: &str) -> (r: String)
        ensures
            r@ == format_filename_spec(
                self.filename_format@,
                track_number as nat,
                title@,
                artist@,
                album@,
            ),
    {
        Self::format_filename_with_template(
            self.filename_format.as_str(),
            track_number,
            title,
            artist,
            album,
        )
    }

    /// Formats a track file name with an explicit template.
    pub fn format_filename_with_template(
        template: &str,
        track_number: usize,
        title: &str,
        artist: &str,
        album: &str,
    ) -> (r: String)
        ensures
            r@ == format_filename_spec(template@, track_number as nat, title@, artist@, album@),
    {
        proof {
            reveal_strlit("%n");
            reveal_strlit("%t");
            reveal_strlit("%a");
            reveal_strlit("%A");
        }
        let safe_t = chars_of(sanitize_filesystem_chars(title).as_str());
        let safe_a = chars_of(sanitize_filesystem_chars(artist).as_str());
        let safe_al = chars_of(sanitize_filesystem_chars(album).as_str());
        let mut num: Vec<char> = Vec::new();
        push_dec2(&mut num, track_number as u64);
        assert(num@ =~= dec2(track_number as nat));
        let t = chars_of(template);
        let s1 = replace_all_exec(&t, &placeholder("%n"), &num);
        let s2 = replace_all_exec(&s1, &placeholder("%t"), &safe_t);
        let s3 = replace_all_exec(&s2, &placeholder("%a"), &safe_a);
        let s4 = replace_all_exec(&s3, &placeholder("%A"), &safe_al);
        string_of(&s4)
    }

    /// Formats a directory name with this configuration's template.
    pub fn format_directory(&self, artist: &str, album: &str) -> (r: String)
        ensures
            r@ == format_directory_spec(self.directory_format@, artist@, album@),
    {
        proof {
            reveal_strlit("%a");
            reveal_strlit("%A");
        }
        let safe_a = chars_of(sanitize_filesystem_chars(artist).as_str());
        let safe_al = chars_of(sanitize_filesystem_chars(album).as_str());
        let t = chars_of(self.directory_format.as_str());
        let s1 = replace_all_exec(&t, &placeholder("%a"), &safe_a);
        let s2 = replace_all_exec(&s1, &placeholder("%A"), &safe_al);
        string_of(&s2)
    }
}

} // verus!

//! The interactive configuration wizard: one prompt per setting, each
//! showing the current value, which an empty answer keeps.
//!
//! The front end prints each prompt, reads the answer and saves the
//! configuration at the end; a setting's number in seconds or decibels is
//! read by the front end too and handed in, in thousandths.

use vstd::prelude::*;
use crate::config::{AudioFormat, AutoInstallBehavior, Config, ConfigView, PlaylistBehavior};
use crate::error::YtcsError;
use crate::text::{
    ascii_lower, bool_text, chars_of, dec, owned, parse_unsigned, parse_u32, parse_u64, push_dec, push_str, str_to_lower,
    string_of, to_lower_chars, trim, trim_chars,
};

verus! {

/// The number of settings the wizard asks for.
pub const WIZARD_STEPS: usize = 20;

/// What an answer to a yes/no setting means: empty keeps `current`.
pub open spec fn bool_answer(t: Seq<char>, lower: Seq<char>, current: bool) -> Result<bool, Seq<char>> {
    if t.len() == 0 {
        Ok(current)
    } else if lower == "y"@ || lower == "yes"@ || lower == "true"@ || lower == "1"@ {
        Ok(true)
    } else if lower == "n"@ || lower == "no"@ || lower == "false"@ || lower == "0"@ {
        Ok(false)
    } else {
        Err("Enter y/n, or leave empty to keep the current value"@)
    }
}

/// `a` equals `b` but for ASCII case.
pub open spec fn eq_ignore_ascii_case(a: Seq<char>, b: Seq<char>) -> bool {
    a.len() == b.len() && forall|i: int| 0 <= i < a.len() ==> ascii_lower(#[trigger] a[i]) == ascii_lower(b[i])
}

/// An answer that clears a setting: `none` in any ASCII case, or `-`.
pub open spec fn clears(t: Seq<char>) -> bool {
    eq_ignore_ascii_case(t, "none"@) || t == "-"@
}

/// The browsers cookies can be read from.
pub open spec fn known_browser(b: Seq<char>) -> bool {
    b == "chrome"@ || b == "firefox"@ || b == "safari"@ || b == "edge"@ || b == "chromium"@ || b == "brave"@
        || b == "opera"@ || b == "vivaldi"@
}

/// The message of an answer outside a menu of three.
pub open spec fn menu_error() -> Seq<char> {
    "Enter 1, 2, or 3 (or leave empty to keep)"@
}

/// The configuration after the answer to step `step`: `t` is the trimmed
/// answer, `lower` its lower-cased text and `number` its value in
/// thousandths when it reads as a number. An empty answer keeps the value;
/// a refused answer is the error's message.
pub open spec fn wizard_step(c: ConfigView, step: int, t: Seq<char>, lower: Seq<char>, number: Option<i64>) -> Result<
    ConfigView,
    Seq<char>,
> {
    if step == 0 {
        if t.len() == 0 {
            Ok(c)
        } else if clears(t) {
            Ok(ConfigView { default_output_dir: None, ..c })
        } else {
            Ok(ConfigView { default_output_dir: Some(t), ..c })
        }
    } else if step == 1 {
        match bool_answer(t, lower, c.download_cover) {
            Ok(b) => Ok(ConfigView { download_cover: b, ..c }),
            Err(m) => Err(m),
        }
    } else if step == 2 {
        if t.len() == 0 {
            Ok(c)
        } else {
            Ok(ConfigView { filename_format: t, ..c })
        }
    } else if step == 3 {
        if t.len() == 0 {
            Ok(c)
        } else {
            Ok(ConfigView { directory_format: t, ..c })
        }
    } else if step == 4 {
        if t.len() == 0 {
            Ok(c)
        } else {
            match parse_unsigned(t) {
                Some(q) => if q > u32::MAX {
                    Err("Audio quality must be 128, 192, or 320"@)
                } else if q != 128 && q != 192 && q != 320 {
                    Err("Audio quality must be 128, 192, or 320 kbps"@)
                } else {
                    Ok(ConfigView { audio_quality: q as u32, ..c })
                },
                None => Err("Audio quality must be 128, 192, or 320"@),
            }
        }
    } else if step == 5 {
        if t.len() == 0 {
            Ok(c)
        } else if t == "1"@ {
            Ok(ConfigView { audio_format: AudioFormat::Mp3, ..c })
        } else if t == "2"@ {
            Ok(ConfigView { audio_format: AudioFormat::Opus, ..c })
        } else if t == "3"@ {
            Ok(ConfigView { audio_format: AudioFormat::M4a, ..c })
        } else {
            Err(menu_error())
        }
    } else if step == 6 {
        match bool_answer(t, lower, c.overwrite_existing) {
            Ok(b) => Ok(ConfigView { overwrite_existing: b, ..c }),
            Err(m) => Err(m),
        }
    } else if step == 7 {
        if t.len() == 0 {
            Ok(c)
        } else {
            match parse_unsigned(t) {
                Some(n) => if n <= u32::MAX {
                    Ok(ConfigView { max_retries: n as u32, ..c })
                } else {
                    Err("max_retries must be a positive integer"@)
                },
                None => Err("max_retries must be a positive integer"@),
            }
        }
    } else if step == 8 {
        match bool_answer(t, lower, c.create_playlist) {
            Ok(b) => Ok(ConfigView { create_playlist: b, ..c }),
            Err(m) => Err(m),
        }
    } else if step == 9 {
        match bool_answer(t, lower, c.refine_chapters) {
            Ok(b) => Ok(ConfigView { refine_chapters: b, ..c }),
            Err(m) => Err(m),
        }
    } else if step == 10 {
        if t.len() == 0 {
            Ok(c)
        } else {
            match number {
                Some(n) => if n >= 0 {
                    Ok(ConfigView { refine_silence_window_ms: n as u64, ..c })
                } else {
                    Err("refine_silence_window must be a number"@)
                },
                None => Err("refine_silence_window must be a number"@),
            }
        }
    } else if step == 11 {
        if t.len() == 0 {
            Ok(c)
        } else {
            match number {
                Some(n) => Ok(ConfigView { refine_noise_millidb: n, ..c }),
                None => Err("refine_noise_db must be a number"@),
            }
        }
    } else if step == 12 {
        if t.len() == 0 {
            Ok(c)
        } else {
            match number {
                Some(n) => if n >= 0 {
                    Ok(ConfigView { refine_min_silence_ms: n as u64, ..c })
                } else {
                    Err("refine_min_silence must be a number"@)
                },
                None => Err("refine_min_silence must be a number"@),
            }
        }
    } else if step == 13 {
        if t.len() == 0 {
            Ok(c)
        } else if t == "1"@ {
            Ok(ConfigView { playlist_behavior: PlaylistBehavior::Ask, ..c })
        } else if t == "2"@ {
            Ok(ConfigView { playlist_behavior: PlaylistBehavior::VideoOnly, ..c })
        } else if t == "3"@ {
            Ok(ConfigView { playlist_behavior: PlaylistBehavior::PlaylistOnly, ..c })
        } else {
            Err(menu_error())
        }
    } else if step == 14 {
        match bool_answer(t, lower, c.playlist_prefix_index) {
            Ok(b) => Ok(ConfigView { playlist_prefix_index: b, ..c }),
            Err(m) => Err(m),
        }
    } else if step == 15 {
        if t.len() == 0 {
            Ok(c)
        } else if clears(t) {
            Ok(ConfigView { cookies_from_browser: None, ..c })
        } else if known_browser(lower) {
            Ok(ConfigView { cookies_from_browser: Some(lower), ..c })
        } else {
            Err("Unknown browser. Use one of: chrome, firefox, safari, edge, chromium, brave, opera, vivaldi"@)
        }
    } else if step == 16 {
        if t.len() == 0 {
            Ok(c)
        } else {
            match parse_unsigned(t) {
                Some(n) => if n <= u64::MAX {
                    Ok(ConfigView { download_timeout: n as u64, ..c })
                } else {
                    Err("download_timeout must be a non-negative integer"@)
                },
                None => Err("download_timeout must be a non-negative integer"@),
            }
        }
    } else if step == 17 {
        if t.len() == 0 {
            Ok(c)
        } else if t == "1"@ {
            Ok(ConfigView { dependency_auto_install: AutoInstallBehavior::Prompt, ..c })
        } else if t == "2"@ {
            Ok(ConfigView { dependency_auto_install: AutoInstallBehavior::Always, ..c })
        } else if t == "3"@ {
            Ok(ConfigView { dependency_auto_install: AutoInstallBehavior::Never, ..c })
        } else {
            Err(menu_error())
        }
    } else if step == 18 {
        match bool_answer(t, lower, c.ytdlp_auto_update) {
            Ok(b) => Ok(ConfigView { ytdlp_auto_update: b, ..c }),
            Err(m) => Err(m),
        }
    } else {
        if t.len() == 0 {
            Ok(c)
        } else {
            match parse_unsigned(t) {
                Some(n) => if n <= u64::MAX {
                    Ok(ConfigView { ytdlp_update_interval_days: n as u64, ..c })
                } else {
                    Err("ytdlp_update_interval_days must be a non-negative integer"@)
                },
                None => Err("ytdlp_update_interval_days must be a non-negative integer"@),
            }
        }
    }
}

/// An empty answer keeps the current value, at every step.
pub proof fn lemma_empty_answer_keeps(c: ConfigView, step: int, lower: Seq<char>, number: Option<i64>)
    ensures
        wizard_step(c, step, Seq::empty(), lower, number) == Ok::<ConfigView, Seq<char>>(c),
{
    assert(ConfigView { download_cover: c.download_cover, ..c } == c);
    assert(ConfigView { overwrite_existing: c.overwrite_existing, ..c } == c);
    assert(ConfigView { create_playlist: c.create_playlist, ..c } == c);
    assert(ConfigView { refine_chapters: c.refine_chapters, ..c } == c);
    assert(ConfigView { playlist_prefix_index: c.playlist_prefix_index, ..c } == c);
    assert(ConfigView { ytdlp_auto_update: c.ytdlp_auto_update, ..c } == c);
}

/// A number given in thousandths, as Rust prints the decimal number: the
/// sign, the whole part and, when there is one, the fraction without
/// trailing zeros.
pub open spec fn millis_text(n: int) -> Seq<char> {
    scaled_text(n < 0, (if n < 0 { -n } else { n }) as nat)
}

/// The text of the number `a` thousandths, negative when `neg`.
pub open spec fn scaled_text(neg: bool, a: nat) -> Seq<char> {
    let sign = if neg { "-"@ } else { Seq::<char>::empty() };
    sign + dec(a / 1000) + fraction_text(a % 1000)
}

/// The fraction of thousandths `f`: nothing for 0, else the point and the
/// digits without trailing zeros.
pub open spec fn fraction_text(f: nat) -> Seq<char> {
    if f == 0 {
        Seq::<char>::empty()
    } else if f % 100 == 0 {
        "."@ + dec(f / 100)
    } else if f % 10 == 0 {
        "."@ + crate::text::dec2(f / 10)
    } else {
        "."@ + dec3(f)
    }
}

/// `n` below 1000 in three digits.
pub open spec fn dec3(n: nat) -> Seq<char> {
    seq![crate::text::digit_char(n / 100), crate::text::digit_char((n / 10) % 10), crate::text::digit_char(n % 10)]
}

/// The name of a format as Rust's `Debug` prints it.
pub open spec fn format_name(f: AudioFormat) -> Seq<char> {
    match f {
        AudioFormat::Mp3 => "Mp3"@,
        AudioFormat::Opus => "Opus"@,
        AudioFormat::M4a => "M4a"@,
    }
}

/// The name of a playlist behavior as Rust's `Debug` prints it.
pub open spec fn behavior_name(b: PlaylistBehavior) -> Seq<char> {
    match b {
        PlaylistBehavior::Ask => "Ask"@,
        PlaylistBehavior::VideoOnly => "VideoOnly"@,
        PlaylistBehavior::PlaylistOnly => "PlaylistOnly"@,
    }
}

/// The name of an install behavior as Rust's `Debug` prints it.
pub open spec fn install_name(b: AutoInstallBehavior) -> Seq<char> {
    match b {
        AutoInstallBehavior::Prompt => "Prompt"@,
        AutoInstallBehavior::Always => "Always"@,
        AutoInstallBehavior::Never => "Never"@,
    }
}

/// The current value shown at step `step`.
pub open spec fn shown_value(c: ConfigView, step: int) -> Seq<char> {
    if step == 0 {
        match c.default_output_dir {
            Some(d) => d,
            None => "(none — use system Music folder)"@,
        }
    } else if step == 1 {
        bool_text(c.download_cover)
    } else if step == 2 {
        c.filename_format
    } else if step == 3 {
        c.directory_format
    } else if step == 4 {
        dec(c.audio_quality as nat)
    } else if step == 5 {
        format_name(c.audio_format)
    } else if step == 6 {
        bool_text(c.overwrite_existing)
    } else if step == 7 {
        dec(c.max_retries as nat)
    } else if step == 8 {
        bool_text(c.create_playlist)
    } else if step == 9 {
        bool_text(c.refine_chapters)
    } else if step == 10 {
        millis_text(c.refine_silence_window_ms as int)
    } else if step == 11 {
        millis_text(c.refine_noise_millidb as int)
    } else if step == 12 {
        millis_text(c.refine_min_silence_ms as int)
    } else if step == 13 {
        behavior_name(c.playlist_behavior)
    } else if step == 14 {
        bool_text(c.playlist_prefix_index)
    } else if step == 15 {
        match c.cookies_from_browser {
            Some(b) => b,
            None => "(none)"@,
        }
    } else if step == 16 {
        dec(c.download_timeout as nat)
    } else if step == 17 {
        install_name(c.dependency_auto_install)
    } else if step == 18 {
        bool_text(c.ytdlp_auto_update)
    } else {
        dec(c.ytdlp_update_interval_days as nat)
    }
}

/// The label and the help line of step `step`.
pub open spec fn prompt_text(step: int) -> (Seq<char>, Seq<char>) {
    if step == 0 {
        ("Default output directory"@, "Path for albums, or 'none' to use the system Music folder."@)
    } else if step == 1 {
        ("Download cover art"@, "y/n — fetch and embed album thumbnail when available."@)
    } else if step == 2 {
        ("Track filename format"@, "Placeholders: %n track number, %t title, %a artist, %A album."@)
    } else if step == 3 {
        ("Album folder name format"@, "Placeholders: %a artist, %A album."@)
    } else if step == 4 {
        ("MP3 bitrate (kbps)"@, "Allowed: 128, 192, or 320."@)
    } else if step == 5 {
        ("Audio output format"@, "1 = mp3 (default)  2 = opus  3 = m4a"@)
    } else if step == 6 {
        ("Overwrite existing files"@, "y/n — replace existing track MP3s in the output folder when re-running."@)
    } else if step == 7 {
        ("Download retries"@, "Number of retries for yt-dlp network operations."@)
    } else if step == 8 {
        ("Create .m3u playlist file"@, "y/n — write playlist.m3u in the album folder after splitting."@)
    } else if step == 9 {
        (
            "Refine chapter boundaries with silence detection"@,
            "y/n — extra ffmpeg pass to snap cuts to quiet gaps (YouTube timestamps can be slightly off)."@,
        )
    } else if step == 10 {
        ("Refine silence search window (seconds)"@, "± seconds around each chapter edge to look for a quiet cut."@)
    } else if step == 11 {
        ("Refine silence noise threshold (dB)"@, "Typical: -30 to -50 (more negative = stricter silence)."@)
    } else if step == 12 {
        ("Refine minimum silence duration (seconds)"@, "Minimum length of a gap to treat as silence for refinement."@)
    } else if step == 13 {
        ("Playlist behavior when a playlist URL is used"@, "1 = ask  2 = video_only (default)  3 = playlist_only"@)
    } else if step == 14 {
        (
            "Prefix folder with playlist index (01-, 02-, …)"@,
            "y/n — when downloading multiple videos from a playlist, avoid folder name clashes."@,
        )
    } else if step == 15 {
        (
            "Cookies from browser"@,
            "chrome, firefox, edge, … — or 'none' to disable (see also ~/.config/ytcs/cookies.txt)."@,
        )
    } else if step == 16 {
        ("Download timeout (seconds)"@, "0 = no socket timeout for yt-dlp."@)
    } else if step == 17 {
        ("Dependency auto-install (yt-dlp / ffmpeg)"@, "1 = prompt  2 = always  3 = never"@)
    } else if step == 18 {
        (
            "Auto-update yt-dlp on download failure"@,
            "y/n — offer to update yt-dlp when a failure looks like an outdated extractor."@,
        )
    } else {
        ("Minimum days between yt-dlp update checks"@, "0 = no minimum interval (reserved for future use)."@)
    }
}

/// The label and the help line of a step: see [`prompt_text`].
pub fn prompt_labels(step: usize) -> (r: (&'static str, &'static str))
    ensures
        r.0@ == prompt_text(step as int).0,
        r.1@ == prompt_text(step as int).1,
{
    match step {
        0 => ("Default output directory", "Path for albums, or 'none' to use the system Music folder."),
        1 => ("Download cover art", "y/n — fetch and embed album thumbnail when available."),
        2 => ("Track filename format", "Placeholders: %n track number, %t title, %a artist, %A album."),
        3 => ("Album folder name format", "Placeholders: %a artist, %A album."),
        4 => ("MP3 bitrate (kbps)", "Allowed: 128, 192, or 320."),
        5 => ("Audio output format", "1 = mp3 (default)  2 = opus  3 = m4a"),
        6 => ("Overwrite existing files", "y/n — replace existing track MP3s in the output folder when re-running."),
        7 => ("Download retries", "Number of retries for yt-dlp network operations."),
        8 => ("Create .m3u playlist file", "y/n — write playlist.m3u in the album folder after splitting."),
        9 => ("Refine chapter boundaries with silence detection", "y/n — extra ffmpeg pass to snap cuts to quiet gaps (YouTube timestamps can be slightly off)."),
        10 => ("Refine silence search window (seconds)", "± seconds around each chapter edge to look for a quiet cut."),
        11 => ("Refine silence noise threshold (dB)", "Typical: -30 to -50 (more negative = stricter silence)."),
        12 => ("Refine minimum silence duration (seconds)", "Minimum length of a gap to treat as silence for refinement."),
        13 => ("Playlist behavior when a playlist URL is used", "1 = ask  2 = video_only (default)  3 = playlist_only"),
        14 => ("Prefix folder with playlist index (01-, 02-, …)", "y/n — when downloading multiple videos from a playlist, avoid folder name clashes."),
        15 => ("Cookies from browser", "chrome, firefox, edge, … — or 'none' to disable (see also ~/.config/ytcs/cookies.txt)."),
        16 => ("Download timeout (seconds)", "0 = no socket timeout for yt-dlp."),
        17 => ("Dependency auto-install (yt-dlp / ffmpeg)", "1 = prompt  2 = always  3 = never"),
        18 => ("Auto-update yt-dlp on download failure", "y/n — offer to update yt-dlp when a failure looks like an outdated extractor."),
        _ => ("Minimum days between yt-dlp update checks", "0 = no minimum interval (reserved for future use)."),
    }
}

/// Appends [`scaled_text`] of `a` thousandths, negative when `neg`.
fn push_scaled(out: &mut Vec<char>, neg: bool, a: u64)
    ensures
        final(out)@ == old(out)@ + scaled_text(neg, a as nat),
{
    proof {
        reveal_strlit("-");
        reveal_strlit(".");
    }
    if neg {
        out.push('-');
    }
    push_dec(out, a / 1000);
    let f = a % 1000;
    let ghost mid = out@;
    assert(mid =~= old(out)@ + (if neg { "-"@ } else { Seq::<char>::empty() }) + dec((a / 1000) as nat));
    if f != 0 {
        out.push('.');
        if f % 100 == 0 {
            push_dec(out, f / 100);
            assert(out@ =~= mid + fraction_text(f as nat));
        } else if f % 10 == 0 {
            crate::text::push_dec2(out, f / 10);
            assert(out@ =~= mid + fraction_text(f as nat));
        } else {
            out.push(digit(f / 100));
            out.push(digit((f / 10) % 10));
            out.push(digit(f % 10));
            assert(out@ =~= mid + fraction_text(f as nat));
        }
    } else {
        assert(out@ =~= mid + fraction_text(f as nat));
    }
    assert(out@ =~= old(out)@ + scaled_text(neg, a as nat));
}

/// The character of a decimal digit.
fn digit(d: u64) -> (c: char)
    requires
        d < 10,
    ensures
        c == crate::text::digit_char(d as nat),
{
    if d == 0 { '0' } else if d == 1 { '1' } else if d == 2 { '2' } else if d == 3 { '3' } else if d == 4 { '4' }
    else if d == 5 { '5' } else if d == 6 { '6' } else if d == 7 { '7' } else if d == 8 { '8' } else { '9' }
}

/// Appends [`millis_text`] of `n`.
pub fn push_millis_text(out: &mut Vec<char>, n: i64)
    ensures
        final(out)@ == old(out)@ + millis_text(n as int),
{
    let a: u64 = if n < 0 {
        (0i128 - n as i128) as u64
    } else {
        n as u64
    };
    push_scaled(out, n < 0, a);
}

/// The wizard: the configuration being edited and the step reached.
pub struct ConfigWizard {
    pub config: Config,
    pub step: usize,
}

impl ConfigWizard {
    /// The wizard at its first step.
    pub fn new(config: Config) -> (r: Self)
        ensures
            r.config == config,
            r.step == 0,
    {
        ConfigWizard { config, step: 0 }
    }

    /// Whether every setting was answered.
    pub fn is_done(&self) -> (r: bool)
        ensures
            r == (self.step >= WIZARD_STEPS),
    {
        self.step >= WIZARD_STEPS
    }

    /// The prompt of the current step: its label, help line and the current
    /// value shown as the default.
    pub fn prompt(&self) -> (r: (&'static str, &'static str, String))
        requires
            self.step < WIZARD_STEPS,
        ensures
            r.0@ == prompt_text(self.step as int).0,
            r.1@ == prompt_text(self.step as int).1,
            r.2@ == shown_value(self.config@, self.step as int),
    {
        let (label, help) = prompt_labels(self.step);
        let mut out: Vec<char> = Vec::new();
        push_shown_value(&mut out, &self.config, self.step);
        (label, help, string_of(&out))
    }
}

/// Appends the value of `c` shown at wizard step `step`: see
/// [`shown_value`].
fn push_shown_value(out: &mut Vec<char>, c: &Config, step: usize)
    ensures
        final(out)@ == old(out)@ + shown_value(c@, step as int),
{
    match step {
        0 => match &c.default_output_dir {
            Some(d) => push_str(out, d.as_str()),
            None => push_str(out, "(none — use system Music folder)"),
        },
        1 => push_str(out, crate::text::bool_string(c.download_cover).as_str()),
        2 => push_str(out, c.filename_format.as_str()),
        3 => push_str(out, c.directory_format.as_str()),
        4 => push_dec(out, c.audio_quality as u64),
        5 => push_str(out, match c.audio_format {
            AudioFormat::Mp3 => "Mp3",
            AudioFormat::Opus => "Opus",
            AudioFormat::M4a => "M4a",
        }),
        6 => push_str(out, crate::text::bool_string(c.overwrite_existing).as_str()),
        7 => push_dec(out, c.max_retries as u64),
        8 => push_str(out, crate::text::bool_string(c.create_playlist).as_str()),
        9 => push_str(out, crate::text::bool_string(c.refine_chapters).as_str()),
        10 => {
            push_scaled(out, false, c.refine_silence_window_ms);
        },
        11 => push_millis_text(out, c.refine_noise_millidb),
        12 => {
            push_scaled(out, false, c.refine_min_silence_ms);
        },
        13 => push_str(out, match c.playlist_behavior {
            PlaylistBehavior::Ask => "Ask",
            PlaylistBehavior::VideoOnly => "VideoOnly",
            PlaylistBehavior::PlaylistOnly => "PlaylistOnly",
        }),
        14 => push_str(out, crate::text::bool_string(c.playlist_prefix_index).as_str()),
        15 => match &c.cookies_from_browser {
            Some(b) => push_str(out, b.as_str()),
            None => push_str(out, "(none)"),
        },
        16 => push_dec(out, c.download_timeout),
        17 => push_str(out, match c.dependency_auto_install {
            AutoInstallBehavior::Prompt => "Prompt",
            AutoInstallBehavior::Always => "Always",
            AutoInstallBehavior::Never => "Never",
        }),
        18 => push_str(out, crate::text::bool_string(c.ytdlp_auto_update).as_str()),
        _ => push_dec(out, c.ytdlp_update_interval_days),
    }
}

/// The label of line `i` of the configuration summary, the wizard step
/// whose value the line shows, and the text after the value.
pub open spec fn summary_row(i: int) -> (Seq<char>, int, Seq<char>) {
    if i == 0 {
        ("  default_output_dir          = "@, 0, ""@)
    } else if i == 1 {
        ("  download_cover        = "@, 1, ""@)
    } else if i == 2 {
        ("  filename_format             = "@, 2, ""@)
    } else if i == 3 {
        ("  directory_format            = "@, 3, ""@)
    } else if i == 4 {
        ("  audio_quality               = "@, 4, " kbps"@)
    } else if i == 5 {
        ("  audio_format                = "@, 5, ""@)
    } else if i == 6 {
        ("  overwrite_existing          = "@, 6, ""@)
    } else if i == 7 {
        ("  max_retries                 = "@, 7, ""@)
    } else if i == 8 {
        ("  create_playlist             = "@, 8, ""@)
    } else if i == 9 {
        ("  refine_chapters             = "@, 9, ""@)
    } else if i == 10 {
        ("  refine_silence_window       = "@, 10, " s"@)
    } else if i == 11 {
        ("  refine_noise_db             = "@, 11, ""@)
    } else if i == 12 {
        ("  refine_min_silence          = "@, 12, " s"@)
    } else if i == 13 {
        ("  playlist_prefix_index       = "@, 14, ""@)
    } else if i == 14 {
        ("  playlist_behavior           = "@, 13, ""@)
    } else if i == 15 {
        ("  cookies_from_browser        = "@, 15, ""@)
    } else if i == 16 {
        ("  download_timeout            = "@, 16, " s (0 = no timeout)"@)
    } else if i == 17 {
        ("  dependency_auto_install     = "@, 17, ""@)
    } else if i == 18 {
        ("  ytdlp_auto_update           = "@, 18, ""@)
    } else {
        ("  ytdlp_update_interval_days  = "@, 19, ""@)
    }
}

/// The label, step and trailing text of a summary line: see
/// [`summary_row`].
fn summary_labels(i: usize) -> (r: (&'static str, usize, &'static str))
    ensures
        (r.0@, r.1 as int, r.2@) == summary_row(i as int),
{
    match i {
        0 => ("  default_output_dir          = ", 0, ""),
        1 => ("  download_cover        = ", 1, ""),
        2 => ("  filename_format             = ", 2, ""),
        3 => ("  directory_format            = ", 3, ""),
        4 => ("  audio_quality               = ", 4, " kbps"),
        5 => ("  audio_format                = ", 5, ""),
        6 => ("  overwrite_existing          = ", 6, ""),
        7 => ("  max_retries                 = ", 7, ""),
        8 => ("  create_playlist             = ", 8, ""),
        9 => ("  refine_chapters             = ", 9, ""),
        10 => ("  refine_silence_window       = ", 10, " s"),
        11 => ("  refine_noise_db             = ", 11, ""),
        12 => ("  refine_min_silence          = ", 12, " s"),
        13 => ("  playlist_prefix_index       = ", 14, ""),
        14 => ("  playlist_behavior           = ", 13, ""),
        15 => ("  cookies_from_browser        = ", 15, ""),
        16 => ("  download_timeout            = ", 16, " s (0 = no timeout)"),
        17 => ("  dependency_auto_install     = ", 17, ""),
        18 => ("  ytdlp_auto_update           = ", 18, ""),
        _ => ("  ytdlp_update_interval_days  = ", 19, ""),
    }
}

/// Line `i` of the configuration summary of `c`, where `dir_shown` and
/// `browser_shown` are the output folder and the browser as they are
/// shown: the formats are quoted, the other values follow their label as
/// the wizard shows them.
pub open spec fn summary_line(c: ConfigView, i: int, dir_shown: Seq<char>, browser_shown: Seq<char>) -> Seq<char> {
    let row = summary_row(i);
    if i == 0 {
        row.0 + dir_shown
    } else if i == 15 {
        row.0 + browser_shown
    } else if i == 2 || i == 3 {
        row.0 + "\""@ + shown_value(c, row.1) + "\""@
    } else {
        row.0 + shown_value(c, row.1) + row.2
    }
}

/// The number of lines of the configuration summary.
pub const SUMMARY_LINES: usize = 20;

/// The configuration summary of `config`, one setting per line, with the
/// output folder and the browser shown as `dir_shown` and `browser_shown`:
/// see [`summary_line`].
pub fn config_summary_from(config: &Config, dir_shown: &str, browser_shown: &str) -> (r: Vec<String>)
    ensures
        r@.len() == SUMMARY_LINES,
        forall|i: int| 0 <= i < SUMMARY_LINES ==> (#[trigger] r@[i])@ == summary_line(config@, i, dir_shown@, browser_shown@),
{
    let mut lines: Vec<String> = Vec::new();
    let mut i: usize = 0;
    while i < SUMMARY_LINES
        invariant
            i <= SUMMARY_LINES,
            lines@.len() == i,
            forall|j: int| 0 <= j < i ==> (#[trigger] lines@[j])@ == summary_line(config@, j, dir_shown@, browser_shown@),
        decreases SUMMARY_LINES - i,
    {
        let (label, step, after) = summary_labels(i);
        let mut out: Vec<char> = Vec::new();
        push_str(&mut out, label);
        if i == 0 {
            push_str(&mut out, dir_shown);
        } else if i == 15 {
            push_str(&mut out, browser_shown);
        } else if i == 2 || i == 3 {
            push_str(&mut out, "\"");
            push_shown_value(&mut out, config, step);
            push_str(&mut out, "\"");
        } else {
            push_shown_value(&mut out, config, step);
            push_str(&mut out, after);
        }
        assert(out@ =~= summary_line(config@, i as int, dir_shown@, browser_shown@));
        lines.push(string_of(&out));
        i = i + 1;
    }
    lines
}

/// The text `Debug` formatting gives a string (quoted, with quotes,
/// backslashes and unprintable characters escaped).
pub uninterp spec fn debug_text(s: Seq<char>) -> Seq<char>;

/// `format!("{:?}", s)`, the standard `Debug` formatting of a string. The
/// contract only names its result [`debug_text`] of `s`; the escaping
/// rules are left unstated.
#[verifier::external_body]
fn debug_quoted(s: &str) -> (r: String)
    ensures
        r@ == debug_text(s@),
{
    format!("{:?}", s)
}

/// The output folder shown in the summary: the configured one, or the
/// system Music directory.
pub open spec fn summary_dir(c: ConfigView) -> Seq<char> {
    match c.default_output_dir {
        Some(d) => d,
        None => "(system Music directory)"@,
    }
}

/// The browser shown in the summary: the configured one, or `(none)`.
pub open spec fn summary_browser(c: ConfigView) -> Seq<char> {
    match c.cookies_from_browser {
        Some(b) => b,
        None => "(none)"@,
    }
}

/// The configuration summary of `config`: see [`summary_line`], with the
/// output folder and the browser as `Debug` formatting shows them.
pub fn config_summary_lines(config: &Config) -> (r: Vec<String>)
    ensures
        r@.len() == SUMMARY_LINES,
        forall|i: int| 0 <= i < SUMMARY_LINES ==> (#[trigger] r@[i])@ == summary_line(
            config@,
            i,
            debug_text(summary_dir(config@)),
            debug_text(summary_browser(config@)),
        ),
{
    let dir = match &config.default_output_dir {
        Some(d) => debug_quoted(d.as_str()),
        None => debug_quoted("(system Music directory)"),
    };
    let browser = match &config.cookies_from_browser {
        Some(b) => debug_quoted(b.as_str()),
        None => debug_quoted("(none)"),
    };
    config_summary_from(config, dir.as_str(), browser.as_str())
}

/// Whether `v` is the text `lit`.
fn is_text(v: &Vec<char>, lit: &str) -> (r: bool)
    ensures
        r == (v@ == lit@),
{
    let l = chars_of(lit);
    crate::text::chars_eq(v, &l)
}

/// The meaning of a yes/no answer: see [`bool_answer`].
fn bool_answer_exec(t: &Vec<char>, lower: &Vec<char>, current: bool) -> (r: Result<bool, YtcsError>)
    ensures
        match bool_answer(t@, lower@, current) {
            Ok(b) => r == Ok::<bool, YtcsError>(b),
            Err(m) => r matches Err(YtcsError::ConfigError(x)) && x@ == m,
        },
{
    if t.len() == 0 {
        Ok(current)
    } else if is_text(lower, "y") || is_text(lower, "yes") || is_text(lower, "true") || is_text(lower, "1") {
        Ok(true)
    } else if is_text(lower, "n") || is_text(lower, "no") || is_text(lower, "false") || is_text(lower, "0") {
        Ok(false)
    } else {
        Err(YtcsError::ConfigError(owned("Enter y/n, or leave empty to keep the current value")))
    }
}

/// Whether the answer clears a setting: see [`clears`].
fn clears_exec(t: &Vec<char>) -> (r: bool)
    ensures
        r == clears(t@),
{
    let none = chars_of("none");
    proof {
        reveal_strlit("none");
    }
    let mut same = t.len() == none.len();
    if same {
        let mut i: usize = 0;
        while i < t.len()
            invariant
                t@.len() == none@.len(),
                i <= t@.len(),
                same == forall|j: int| 0 <= j < i ==> ascii_lower(#[trigger] t@[j]) == ascii_lower(none@[j]),
            decreases t@.len() - i,
        {
            let a = crate::text::ascii_lower_char(t[i]);
            let b = crate::text::ascii_lower_char(none[i]);
            if a != b {
                same = false;
            }
            i = i + 1;
        }
    }
    same || is_text(t, "-")
}

/// Whether cookies can be read from the browser `b`: see [`known_browser`].
fn known_browser_exec(b: &Vec<char>) -> (r: bool)
    ensures
        r == known_browser(b@),
{
    is_text(b, "chrome") || is_text(b, "firefox") || is_text(b, "safari") || is_text(b, "edge") || is_text(b, "chromium")
        || is_text(b, "brave") || is_text(b, "opera") || is_text(b, "vivaldi")
}

/// The configuration error with a message.
fn refusal(msg: &str) -> (r: YtcsError)
    ensures
        r matches YtcsError::ConfigError(x) && x@ == msg@,
{
    YtcsError::ConfigError(owned(msg))
}

/// The answer to step `step` turned `c0` into `c1` with the result `r`:
/// see [`wizard_step`].
pub open spec fn step_done(
    c0: ConfigView,
    c1: ConfigView,
    step: int,
    t: Seq<char>,
    lower: Seq<char>,
    number: Option<i64>,
    r: Result<(), YtcsError>,
) -> bool {
    match wizard_step(c0, step, t, lower, number) {
        Ok(c) => r is Ok && c1 == c,
        Err(m) => (r matches Err(YtcsError::ConfigError(x)) && x@ == m) && c1 == c0,
    }
}

/// A yes/no step.
fn answer_bool(c: &mut Config, step: usize, t: &Vec<char>, lower: &Vec<char>, number: Option<i64>) -> (r: Result<(), YtcsError>)
    requires
        step == 1 || step == 6 || step == 8 || step == 9 || step == 14 || step == 18,
    ensures
        step_done(old(c)@, final(c)@, step as int, t@, lower@, number, r),
{
    let current = if step == 1 {
        c.download_cover
    } else if step == 6 {
        c.overwrite_existing
    } else if step == 8 {
        c.create_playlist
    } else if step == 9 {
        c.refine_chapters
    } else if step == 14 {
        c.playlist_prefix_index
    } else {
        c.ytdlp_auto_update
    };
    let b = match bool_answer_exec(t, lower, current) {
        Ok(b) => b,
        Err(e) => return Err(e),
    };
    if step == 1 {
        c.download_cover = b;
    } else if step == 6 {
        c.overwrite_existing = b;
    } else if step == 8 {
        c.create_playlist = b;
    } else if step == 9 {
        c.refine_chapters = b;
    } else if step == 14 {
        c.playlist_prefix_index = b;
    } else {
        c.ytdlp_auto_update = b;
    }
    Ok(())
}

/// A step that picks one of three by number.
fn answer_menu(c: &mut Config, step: usize, t: &Vec<char>, lower: &Vec<char>, number: Option<i64>) -> (r: Result<(), YtcsError>)
    requires
        step == 5 || step == 13 || step == 17,
    ensures
        step_done(old(c)@, final(c)@, step as int, t@, lower@, number, r),
{
    if t.len() == 0 {
        return Ok(());
    }
    let k: u8 = if is_text(t, "1") {
        1
    } else if is_text(t, "2") {
        2
    } else if is_text(t, "3") {
        3
    } else {
        return Err(refusal("Enter 1, 2, or 3 (or leave empty to keep)"));
    };
    if step == 5 {
        c.audio_format = if k == 1 {
            AudioFormat::Mp3
        } else if k == 2 {
            AudioFormat::Opus
        } else {
            AudioFormat::M4a
        };
    } else if step == 13 {
        c.playlist_behavior = if k == 1 {
            PlaylistBehavior::Ask
        } else if k == 2 {
            PlaylistBehavior::VideoOnly
        } else {
            PlaylistBehavior::PlaylistOnly
        };
    } else {
        c.dependency_auto_install = if k == 1 {
            AutoInstallBehavior::Prompt
        } else if k == 2 {
            AutoInstallBehavior::Always
        } else {
            AutoInstallBehavior::Never
        };
    }
    Ok(())
}

/// A step that takes a whole number.
fn answer_count(c: &mut Config, step: usize, t: &Vec<char>, lower: &Vec<char>, number: Option<i64>) -> (r: Result<(), YtcsError>)
    requires
        step == 4 || step == 7 || step == 16 || step == 19,
    ensures
        step_done(old(c)@, final(c)@, step as int, t@, lower@, number, r),
{
    if t.len() == 0 {
        return Ok(());
    }
    let ts = string_of(t);
    if step == 4 {
        match parse_u32(ts.as_str()) {
            Some(q) => {
                if q != 128 && q != 192 && q != 320 {
                    return Err(refusal("Audio quality must be 128, 192, or 320 kbps"));
                }
                c.audio_quality = q;
            },
            None => return Err(refusal("Audio quality must be 128, 192, or 320")),
        }
    } else if step == 7 {
        match parse_u32(ts.as_str()) {
            Some(n) => c.max_retries = n,
            None => return Err(refusal("max_retries must be a positive integer")),
        }
    } else if step == 16 {
        match parse_u64(ts.as_str()) {
            Some(n) => c.download_timeout = n,
            None => return Err(refusal("download_timeout must be a non-negative integer")),
        }
    } else {
        match parse_u64(ts.as_str()) {
            Some(n) => c.ytdlp_update_interval_days = n,
            None => return Err(refusal("ytdlp_update_interval_days must be a non-negative integer")),
        }
    }
    Ok(())
}

/// A step that takes a decimal number, handed in as thousandths.
fn answer_decimal(c: &mut Config, step: usize, t: &Vec<char>, lower: &Vec<char>, number: Option<i64>) -> (r: Result<(), YtcsError>)
    requires
        step == 10 || step == 11 || step == 12,
    ensures
        step_done(old(c)@, final(c)@, step as int, t@, lower@, number, r),
{
    if t.len() == 0 {
        return Ok(());
    }
    if step == 10 {
        match number {
            Some(n) => {
                if n < 0 {
                    return Err(refusal("refine_silence_window must be a number"));
                }
                c.refine_silence_window_ms = n as u64;
            },
            None => return Err(refusal("refine_silence_window must be a number")),
        }
    } else if step == 11 {
        match number {
            Some(n) => c.refine_noise_millidb = n,
            None => return Err(refusal("refine_noise_db must be a number")),
        }
    } else {
        match number {
            Some(n) => {
                if n < 0 {
                    return Err(refusal("refine_min_silence must be a number"));
                }
                c.refine_min_silence_ms = n as u64;
            },
            None => return Err(refusal("refine_min_silence must be a number")),
        }
    }
    Ok(())
}

/// A step that takes text.
fn answer_text(c: &mut Config, step: usize, t: &Vec<char>, lower: &Vec<char>, number: Option<i64>) -> (r: Result<(), YtcsError>)
    requires
        step == 0 || step == 2 || step == 3 || step == 15,
    ensures
        step_done(old(c)@, final(c)@, step as int, t@, lower@, number, r),
{
    if t.len() == 0 {
        return Ok(());
    }
    if step == 0 {
        if clears_exec(t) {
            c.default_output_dir = None;
        } else {
            c.default_output_dir = Some(string_of(t));
        }
    } else if step == 2 {
        c.filename_format = string_of(t);
    } else if step == 3 {
        c.directory_format = string_of(t);
    } else {
        if clears_exec(t) {
            c.cookies_from_browser = None;
        } else if known_browser_exec(lower) {
            c.cookies_from_browser = Some(string_of(lower));
        } else {
            return Err(
                refusal("Unknown browser. Use one of: chrome, firefox, safari, edge, chromium, brave, opera, vivaldi"),
            );
        }
    }
    Ok(())
}

impl ConfigWizard {
    /// Takes the answer to the current step (see [`wizard_step`]), with its
    /// value in thousandths when it reads as a number: an accepted answer
    /// sets the value and moves on; a refused one is the error and changes
    /// nothing.
    pub fn answer(&mut self, input: &str, number: Option<i64>) -> (r: Result<(), YtcsError>)
        requires
            old(self).step < WIZARD_STEPS,
        ensures
            ({
                let w = wizard_step(old(self).config@, old(self).step as int, trim(input@), str_to_lower(trim(input@)), number);
                &&& w is Ok ==> r is Ok && final(self).config@ == w->Ok_0 && final(self).step == old(self).step + 1
                &&& w is Err ==> (r matches Err(YtcsError::ConfigError(x)) && x@ == w->Err_0) && final(self).config@
                    == old(self).config@ && final(self).step == old(self).step
            }),
    {
        let raw = chars_of(input);
        let t = trim_chars(&raw);
        let lower = to_lower_chars(&t);
        let step = self.step;
        let r = if step == 1 || step == 6 || step == 8 || step == 9 || step == 14 || step == 18 {
            answer_bool(&mut self.config, step, &t, &lower, number)
        } else if step == 5 || step == 13 || step == 17 {
            answer_menu(&mut self.config, step, &t, &lower, number)
        } else if step == 4 || step == 7 || step == 16 || step == 19 {
            answer_count(&mut self.config, step, &t, &lower, number)
        } else if step == 10 || step == 11 || step == 12 {
            answer_decimal(&mut self.config, step, &t, &lower, number)
        } else {
            answer_text(&mut self.config, step, &t, &lower, number)
        };
        assert(t@ == trim(input@));
        assert(step_done(old(self).config@, self.config@, step as int, t@, lower@, number, r));
        match r {
            Ok(()) => {
                self.step = self.step + 1;
                Ok(())
            },
            Err(e) => Err(e),
        }
    }
}

} // verus!

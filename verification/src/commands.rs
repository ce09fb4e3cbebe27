//! The argument lists of the external programs the splitter runs: yt-dlp
//! to read video and playlist information and to download audio, ffmpeg to
//! find silences.

use vstd::prelude::*;
use crate::config_wizard::{millis_text, push_millis_text};
use crate::text::{chars_of, owned, push_str, string_of};

verus! {

/// The texts of a list of strings.
pub open spec fn texts(v: Seq<String>) -> Seq<Seq<char>> {
    v.map_values(|s: String| s@)
}

/// Appends copies of `more` to `args`.
fn append_all(args: &mut Vec<String>, more: &Vec<String>)
    ensures
        texts(final(args)@) == texts(old(args)@) + texts(more@),
{
    let mut i: usize = 0;
    while i < more.len()
        invariant
            i <= more@.len(),
            texts(args@) == texts(old(args)@) + texts(more@).take(i as int),
        decreases more@.len() - i,
    {
        let ghost before = texts(args@);
        args.push(owned(more[i].as_str()));
        assert(texts(args@) =~= before.push(more@[i as int]@));
        assert(texts(more@).take(i + 1) =~= texts(more@).take(i as int).push(more@[i as int]@));
        i = i + 1;
    }
    assert(texts(more@).take(more@.len() as int) =~= texts(more@));
}

/// The yt-dlp arguments that have it fetch the script solving YouTube's
/// JavaScript challenge from GitHub (cached by yt-dlp afterwards).
pub open spec fn ejs_args_spec() -> Seq<Seq<char>> {
    seq!["--remote-components"@, "ejs:github"@]
}

/// The yt-dlp arguments that print one video's information as JSON:
/// `--dump-json --no-playlist`, the challenge-solver arguments, the cookie
/// arguments, then the URL.
pub open spec fn video_info_args_spec(url: Seq<char>, cookie_args: Seq<Seq<char>>) -> Seq<Seq<char>> {
    seq!["--dump-json"@, "--no-playlist"@] + ejs_args_spec() + cookie_args + seq![url]
}

/// The yt-dlp arguments for one video's information: see
/// [`video_info_args_spec`].
pub fn video_info_args(url: &str, cookie_args: &Vec<String>) -> (r: Vec<String>)
    ensures
        texts(r@) == video_info_args_spec(url@, texts(cookie_args@)),
{
    let mut args: Vec<String> = vec![
        owned("--dump-json"),
        owned("--no-playlist"),
        owned("--remote-components"),
        owned("ejs:github"),
    ];
    append_all(&mut args, cookie_args);
    let ghost before = texts(args@);
    args.push(owned(url));
    assert(texts(args@) =~= before.push(url@));
    assert(texts(args@) =~= video_info_args_spec(url@, texts(cookie_args@)));
    args
}

/// The yt-dlp arguments that list a playlist flat as JSON lines:
/// `--dump-json --flat-playlist --no-warnings`, the cookie arguments, then
/// the URL.
pub open spec fn playlist_info_args_spec(url: Seq<char>, cookie_args: Seq<Seq<char>>) -> Seq<Seq<char>> {
    seq!["--dump-json"@, "--flat-playlist"@, "--no-warnings"@] + cookie_args + seq![url]
}

/// The yt-dlp arguments for a playlist listing: see
/// [`playlist_info_args_spec`].
pub fn playlist_info_args(url: &str, cookie_args: &Vec<String>) -> (r: Vec<String>)
    ensures
        texts(r@) == playlist_info_args_spec(url@, texts(cookie_args@)),
{
    let mut args: Vec<String> = vec![owned("--dump-json"), owned("--flat-playlist"), owned("--no-warnings")];
    append_all(&mut args, cookie_args);
    let ghost before = texts(args@);
    args.push(owned(url));
    assert(texts(args@) =~= before.push(url@));
    assert(texts(args@) =~= playlist_info_args_spec(url@, texts(cookie_args@)));
    args
}

/// The format selectors tried in turn for a download; `None` lets yt-dlp
/// choose.
pub open spec fn format_selector_spec(attempt: int) -> Option<Option<Seq<char>>> {
    if attempt == 0 {
        Some(Some("bestaudio[ext=m4a]/bestaudio"@))
    } else if attempt == 1 {
        Some(Some("140"@))
    } else if attempt == 2 {
        Some(Some("bestaudio"@))
    } else if attempt == 3 {
        Some(None)
    } else {
        None
    }
}

/// The format selector of a download attempt, or `None` once every
/// selector was tried: see [`format_selector_spec`].
pub fn format_selector(attempt: usize) -> (r: Option<Option<&'static str>>)
    ensures
        match r {
            Some(Some(f)) => format_selector_spec(attempt as int) == Some(Some(f@)),
            Some(None) => format_selector_spec(attempt as int) == Some(None::<Seq<char>>),
            None => format_selector_spec(attempt as int) is None,
        },
{
    match attempt {
        0 => Some(Some("bestaudio[ext=m4a]/bestaudio")),
        1 => Some(Some("140")),
        2 => Some(Some("bestaudio")),
        3 => Some(None),
        _ => None,
    }
}

/// The yt-dlp arguments that download a video's audio as MP3 to `output`:
/// the format selector when there is one, the extraction options, the
/// output path, `--no-playlist` and the URL, then the cookie arguments.
pub open spec fn download_args_spec(
    url: Seq<char>,
    output: Seq<char>,
    format: Option<Seq<char>>,
    cookie_args: Seq<Seq<char>>,
) -> Seq<Seq<char>> {
    let head = match format {
        Some(f) => seq!["-f"@, f],
        None => Seq::empty(),
    };
    head + seq!["-x"@, "--audio-format"@, "mp3"@, "--audio-quality"@, "0"@, "-o"@, output, "--no-playlist"@, url]
        + cookie_args
}

/// The yt-dlp arguments of a download: see [`download_args_spec`].
pub fn download_args(url: &str, output: &str, format: Option<&str>, cookie_args: &Vec<String>) -> (r: Vec<String>)
    ensures
        texts(r@) == download_args_spec(
            url@,
            output@,
            match format {
                Some(f) => Some(f@),
                None => None,
            },
            texts(cookie_args@),
        ),
{
    let mut args: Vec<String> = Vec::new();
    match format {
        Some(f) => {
            args.push(owned("-f"));
            args.push(owned(f));
        },
        None => {},
    }
    let ghost head = texts(args@);
    let tail: Vec<String> = vec![
        owned("-x"),
        owned("--audio-format"),
        owned("mp3"),
        owned("--audio-quality"),
        owned("0"),
        owned("-o"),
        owned(output),
        owned("--no-playlist"),
        owned(url),
    ];
    append_all(&mut args, &tail);
    append_all(&mut args, cookie_args);
    proof {
        let fs = match format {
            Some(f) => Some(f@),
            None => None,
        };
        let h: Seq<Seq<char>> = match fs {
            Some(f) => seq!["-f"@, f],
            None => Seq::empty(),
        };
        assert(head =~= h);
        assert(texts(tail@) =~= seq!["-x"@, "--audio-format"@, "mp3"@, "--audio-quality"@, "0"@, "-o"@, output@, "--no-playlist"@, url@]);
        assert(texts(args@) =~= download_args_spec(url@, output@, fs, texts(cookie_args@)));
    }
    args
}

/// The ffmpeg arguments that report the silences of `input` quieter than
/// `noise_millidb` thousandths of a dB and lasting `min_silence_ms`
/// milliseconds or more, with the numbers written as decimals.
pub open spec fn silence_detect_args_spec(input: Seq<char>, noise_millidb: int, min_silence_ms: int) -> Seq<Seq<char>> {
    seq![
        "-i"@,
        input,
        "-af"@,
        "silencedetect=noise="@ + millis_text(noise_millidb) + "dB:d="@ + millis_text(min_silence_ms),
        "-f"@,
        "null"@,
        "-"@,
    ]
}

/// The ffmpeg arguments of a silence detection: see
/// [`silence_detect_args_spec`].
pub fn silence_detect_args(input: &str, noise_millidb: i64, min_silence_ms: i64) -> (r: Vec<String>)
    ensures
        texts(r@) == silence_detect_args_spec(input@, noise_millidb as int, min_silence_ms as int),
{
    let mut filter: Vec<char> = chars_of("silencedetect=noise=");
    push_millis_text(&mut filter, noise_millidb);
    push_str(&mut filter, "dB:d=");
    push_millis_text(&mut filter, min_silence_ms);
    let args: Vec<String> = vec![
        owned("-i"),
        owned(input),
        owned("-af"),
        string_of(&filter),
        owned("-f"),
        owned("null"),
        owned("-"),
    ];
    assert(texts(args@) =~= silence_detect_args_spec(input@, noise_millidb as int, min_silence_ms as int));
    args
}

/// The yt-dlp arguments that write a video's thumbnail as JPEG next to
/// `out_template` without downloading the video, then the
/// challenge-solver and the cookie arguments.
pub open spec fn thumbnail_args_spec(page_url: Seq<char>, out_template: Seq<char>, cookie_args: Seq<Seq<char>>) -> Seq<Seq<char>> {
    seq![
        "--no-playlist"@,
        "--skip-download"@,
        "--write-thumbnail"@,
        "--convert-thumbnails"@,
        "jpg"@,
        "-o"@,
        out_template,
        page_url,
    ] + ejs_args_spec() + cookie_args
}

/// The yt-dlp arguments of the thumbnail fallback: see
/// [`thumbnail_args_spec`].
pub fn thumbnail_args(page_url: &str, out_template: &str, cookie_args: &Vec<String>) -> (r: Vec<String>)
    ensures
        texts(r@) == thumbnail_args_spec(page_url@, out_template@, texts(cookie_args@)),
{
    let mut args: Vec<String> = vec![
        owned("--no-playlist"),
        owned("--skip-download"),
        owned("--write-thumbnail"),
        owned("--convert-thumbnails"),
        owned("jpg"),
        owned("-o"),
        owned(out_template),
        owned(page_url),
        owned("--remote-components"),
        owned("ejs:github"),
    ];
    append_all(&mut args, cookie_args);
    assert(texts(args@) =~= thumbnail_args_spec(page_url@, out_template@, texts(cookie_args@)));
    args
}

/// The ffprobe arguments that print only the duration of `input`, in
/// seconds.
pub open spec fn duration_probe_args_spec(input: Seq<char>) -> Seq<Seq<char>> {
    seq!["-v"@, "error"@, "-show_entries"@, "format=duration"@, "-of"@, "default=noprint_wrappers=1:nokey=1"@, input]
}

/// The ffprobe arguments of a duration probe: see
/// [`duration_probe_args_spec`].
pub fn duration_probe_args(input: &str) -> (r: Vec<String>)
    ensures
        texts(r@) == duration_probe_args_spec(input@),
{
    let args: Vec<String> = vec![
        owned("-v"),
        owned("error"),
        owned("-show_entries"),
        owned("format=duration"),
        owned("-of"),
        owned("default=noprint_wrappers=1:nokey=1"),
        owned(input),
    ];
    assert(texts(args@) =~= duration_probe_args_spec(input@));
    args
}

} // verus!

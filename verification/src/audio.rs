//! What ffmpeg's silence detection reports, the chapters cut at the
//! silences, and the names and ffmpeg arguments of the split tracks.
//!
//! Running ffmpeg and ffprobe and tagging the files are left to the front
//! end. Times are in milliseconds.

use vstd::prelude::*;
use crate::chapters::Chapter;
use crate::config::{extension_spec, format_filename_spec, AudioFormat, Config};
use crate::config_wizard::millis_text;
use crate::error::YtcsError;
use crate::text::{chars_of, dec, digits_value, is_digit, regex_digit, regex_digit_exec, matches_at, matches_at_exec, push_dec, push_str, slice, string_of};
use crate::tui::components::input::lines_from;
use crate::yt_dlp_progress::split_lines;

verus! {

/// A character of a number in ffmpeg's output, as `[\d.]` has it: a
/// digit (see [`regex_digit`]) or a point.
pub open spec fn is_num_char(c: char) -> bool {
    regex_digit(c) || c == '.'
}

/// The end of the run of number characters from `k`.
pub open spec fn num_run_end(s: Seq<char>, k: int) -> int
    decreases s.len() - k,
{
    if k < 0 || k >= s.len() || !is_num_char(s[k]) {
        if k < 0 { 0 } else if k > s.len() { s.len() as int } else { k }
    } else {
        num_run_end(s, k + 1)
    }
}

/// The first position from `j` on where `lit` is followed by a number
/// character, or -1.
pub open spec fn capture_at(s: Seq<char>, lit: Seq<char>, j: int) -> int
    decreases s.len() + 1 - j,
{
    if j < 0 || j > s.len() {
        -1
    } else if matches_at(s, lit, j) && j + lit.len() < s.len() && is_num_char(s[j + lit.len()]) {
        j
    } else {
        capture_at(s, lit, j + 1)
    }
}

/// The number characters after the first `lit` that has some, if any.
pub open spec fn capture(s: Seq<char>, lit: Seq<char>) -> Option<Seq<char>> {
    let j = capture_at(s, lit, 0);
    if j < 0 {
        None
    } else {
        Some(s.subrange(j + lit.len(), num_run_end(s, j + lit.len())))
    }
}

/// The position of the first point in `t`, or its length.
pub open spec fn point_at(t: Seq<char>, k: int) -> int
    decreases t.len() - k,
{
    if k < 0 || k >= t.len() {
        t.len() as int
    } else if t[k] == '.' {
        k
    } else {
        point_at(t, k + 1)
    }
}

/// The value of up to three fraction digits, in thousandths.
pub open spec fn thousandths(f: Seq<char>) -> nat {
    let d = |i: int| if i < f.len() { crate::text::digit_value(f[i]) } else { 0nat };
    d(0) * 100 + d(1) * 10 + d(2)
}

/// A number of seconds written with ASCII digits and at most one point, at
/// least one digit, in milliseconds (the fraction cut after three
/// digits); `None` for any other text or a value beyond `u64`.
pub open spec fn decimal_ms(t: Seq<char>) -> Option<u64> {
    let p = point_at(t, 0);
    let whole = t.take(p);
    let frac = if p < t.len() { t.skip(p + 1) } else { Seq::<char>::empty() };
    if (whole.len() == 0 && frac.len() == 0) || !crate::text::all_digits(whole) || !crate::text::all_digits(frac) {
        None
    } else {
        let v = digits_value(whole) * 1000 + thousandths(frac);
        if v <= u64::MAX {
            Some(v as u64)
        } else {
            None
        }
    }
}

/// The silences (start, end) read from the first `n` lines, and the start
/// waiting for its end: a `silence_start: <t>` line sets the start (or
/// clears it when `t` is no number); otherwise a `silence_end: <t>` line
/// closes the silence when both times are numbers, and clears the start.
pub open spec fn silences_read(lines: Seq<Seq<char>>, n: int) -> (Option<u64>, Seq<(u64, u64)>)
    decreases n,
{
    if n <= 0 {
        (None, Seq::empty())
    } else {
        let (start, found) = silences_read(lines, n - 1);
        let line = lines[n - 1];
        match capture(line, "silence_start: "@) {
            Some(t) => (decimal_ms(t), found),
            None => match capture(line, "silence_end: "@) {
                Some(t) => match (start, decimal_ms(t)) {
                    (Some(s), Some(e)) => (None, found.push((s, e))),
                    _ => (None, found),
                },
                None => (start, found),
            },
        }
    }
}

/// The silences ffmpeg's `silencedetect` reported in its output, as
/// (start, end): see [`silences_read`].
pub open spec fn silences_spec(stderr: Seq<char>) -> Seq<(u64, u64)> {
    let lines = lines_from(stderr, 0);
    silences_read(lines, lines.len() as int).1
}

/// The end of the run of number characters of `v` from `k`.
fn num_run_end_exec(v: &Vec<char>, k: usize) -> (r: usize)
    requires
        k <= v@.len(),
    ensures
        r == num_run_end(v@, k as int),
        k <= r <= v@.len(),
{
    let mut j = k;
    while j < v.len() && (regex_digit_exec(v[j]) || v[j] == '.')
        invariant
            k <= j <= v@.len(),
            num_run_end(v@, k as int) == num_run_end(v@, j as int),
        decreases v@.len() - j,
    {
        j = j + 1;
    }
    j
}

/// The number characters after the first `lit` that has some: see
/// [`capture`].
fn capture_exec(v: &Vec<char>, lit: &Vec<char>) -> (r: Option<Vec<char>>)
    ensures
        match capture(v@, lit@) {
            Some(t) => r matches Some(x) && x@ == t,
            None => r is None,
        },
{
    let mut j: usize = 0;
    while j < v.len()
        invariant
            j <= v@.len(),
            capture_at(v@, lit@, 0) == capture_at(v@, lit@, j as int),
        decreases v@.len() - j,
    {
        if matches_at_exec(v, lit, j) && lit.len() < v.len() - j {
            let k = j + lit.len();
            let c = v[k];
            if regex_digit_exec(c) || c == '.' {
                let e = num_run_end_exec(v, k);
                return Some(slice(v, k, e));
            }
        }
        j = j + 1;
    }
    assert(capture_at(v@, lit@, v@.len() + 1int) == -1);
    None
}

/// The position of the first point in `t`: see [`point_at`].
fn point_at_exec(t: &Vec<char>) -> (r: usize)
    ensures
        r == point_at(t@, 0),
        r <= t@.len(),
{
    let mut k: usize = 0;
    while k < t.len() && t[k] != '.'
        invariant
            k <= t@.len(),
            point_at(t@, 0) == point_at(t@, k as int),
        decreases t@.len() - k,
    {
        k = k + 1;
    }
    k
}

/// Whether every character is an ASCII digit.
fn all_digits_exec(t: &Vec<char>) -> (r: bool)
    ensures
        r == crate::text::all_digits(t@),
{
    let mut k: usize = 0;
    while k < t.len()
        invariant
            k <= t@.len(),
            forall|i: int| 0 <= i < k ==> is_digit(#[trigger] t@[i]),
        decreases t@.len() - k,
    {
        if !('0' <= t[k] && t[k] <= '9') {
            return false;
        }
        k = k + 1;
    }
    true
}

/// The value of a string of digits, unless it exceeds `u64`.
fn digits_u64(t: &Vec<char>) -> (r: Option<u64>)
    requires
        crate::text::all_digits(t@),
    ensures
        match r {
            Some(x) => x == digits_value(t@),
            None => digits_value(t@) > u64::MAX,
        },
{
    let mut acc: u128 = 0;
    let mut k: usize = 0;
    while k < t.len()
        invariant
            k <= t@.len(),
            crate::text::all_digits(t@),
            acc == digits_value(t@.take(k as int)),
            acc <= u64::MAX,
        decreases t@.len() - k,
    {
        proof {
            assert(t@.take(k + 1).drop_last() =~= t@.take(k as int));
        }
        let d = (t[k] as u32 - '0' as u32) as u128;
        let next = acc * 10 + d;
        if next > u64::MAX as u128 {
            proof {
                lemma_digits_value_prefix(t@, k + 1);
            }
            return None;
        }
        acc = next;
        k = k + 1;
    }
    proof {
        assert(t@.take(k as int) =~= t@);
    }
    Some(acc as u64)
}

/// The value of a string of digits grows with its prefixes.
proof fn lemma_digits_value_prefix(s: Seq<char>, k: int)
    requires
        0 <= k <= s.len(),
        crate::text::all_digits(s),
    ensures
        digits_value(s.take(k)) <= digits_value(s),
    decreases s.len() - k,
{
    if k < s.len() {
        lemma_digits_value_prefix(s, k + 1);
        assert(s.take(k + 1).drop_last() =~= s.take(k));
    } else {
        assert(s.take(k) =~= s);
    }
}

/// A number of seconds in milliseconds: see [`decimal_ms`].
pub fn decimal_ms_exec(t: &Vec<char>) -> (r: Option<u64>)
    ensures
        r == decimal_ms(t@),
{
    let p = point_at_exec(t);
    let whole = slice(t, 0, p);
    let frac = if p < t.len() { slice(t, p + 1, t.len()) } else { Vec::new() };
    proof {
        assert(whole@ == t@.take(p as int));
        if p < t@.len() {
            assert(frac@ == t@.skip(p + 1));
        } else {
            assert(frac@ =~= Seq::<char>::empty());
        }
    }
    if (whole.len() == 0 && frac.len() == 0) || !all_digits_exec(&whole) || !all_digits_exec(&frac) {
        return None;
    }
    let w = match digits_u64(&whole) {
        Some(w) => w,
        None => return None,
    };
    let d0: u64 = if frac.len() > 0 { (frac[0] as u32 - '0' as u32) as u64 } else { 0 };
    let d1: u64 = if frac.len() > 1 { (frac[1] as u32 - '0' as u32) as u64 } else { 0 };
    let d2: u64 = if frac.len() > 2 { (frac[2] as u32 - '0' as u32) as u64 } else { 0 };
    let f = d0 * 100 + d1 * 10 + d2;
    proof {
        assert(f == thousandths(frac@));
    }
    if w > (u64::MAX - f) / 1000 {
        proof {
            assert(w * 1000 + f > u64::MAX) by (nonlinear_arith)
                requires
                    w > (u64::MAX - f) / 1000,
                    f <= 999,
            ;
        }
        return None;
    }
    proof {
        assert(w * 1000 + f <= u64::MAX) by (nonlinear_arith)
            requires
                w <= (u64::MAX - f) / 1000,
                f <= 999,
        ;
    }
    Some(w * 1000 + f)
}

/// The silences ffmpeg's `silencedetect` reported in its output, as
/// (start, end) in milliseconds: see [`silences_spec`].
pub fn silences_from_output(stderr: &str) -> (r: Vec<(u64, u64)>)
    ensures
        r@ == silences_spec(stderr@),
{
    let lines = split_lines(stderr);
    let ghost ls = lines_from(stderr@, 0);
    let start_lit = chars_of("silence_start: ");
    let end_lit = chars_of("silence_end: ");
    let mut start: Option<u64> = None;
    let mut found: Vec<(u64, u64)> = Vec::new();
    let mut i: usize = 0;
    while i < lines.len()
        invariant
            i <= lines@.len(),
            ls == lines_from(stderr@, 0),
            lines@.map_values(|l: String| l@) == ls,
            start_lit@ == "silence_start: "@,
            end_lit@ == "silence_end: "@,
            (start, found@) == silences_read(ls, i as int),
        decreases lines@.len() - i,
    {
        proof {
            assert(lines@.map_values(|l: String| l@)[i as int] == lines@[i as int]@);
        }
        let line = chars_of(lines[i].as_str());
        match capture_exec(&line, &start_lit) {
            Some(t) => {
                start = decimal_ms_exec(&t);
            },
            None => match capture_exec(&line, &end_lit) {
                Some(t) => {
                    match (start, decimal_ms_exec(&t)) {
                        (Some(s), Some(e)) => found.push((s, e)),
                        _ => {},
                    }
                    start = None;
                },
                None => {},
            },
        }
        i = i + 1;
    }
    found
}

/// The message when no silence was found.
pub open spec fn no_silence_message() -> Seq<char> {
    "No silence detected. Try adjusting the parameters."@
}

/// The chapters cut at the silences' middles: `Track 1` from the start to
/// the first split point, each next track from there to the next, and the
/// last to the end of the audio; no split point is an error.
pub fn chapters_from_split_points(points: &Vec<u64>, duration_ms: u64) -> (r: Result<Vec<Chapter>, YtcsError>)
    requires
        points@.len() < usize::MAX,
        points@.len() > 0 ==> 0 < points@[0] && points@.last() < duration_ms,
        forall|i: int, j: int| 0 <= i < j < points@.len() ==> points@[i] < points@[j],
    ensures
        points@.len() == 0 ==> (r matches Err(YtcsError::ChapterError(m)) && m@ == no_silence_message()),
        points@.len() > 0 ==> (r matches Ok(cs) && cs@.len() == points@.len() + 1 && forall|i: int|
            0 <= i < cs@.len() ==> (#[trigger] cs@[i]).title@ == "Track "@ + dec((i + 1) as nat) && cs@[i].start_ms
                == (if i == 0 { 0 } else { points@[i - 1] }) && cs@[i].end_ms == (if i < points@.len() {
                points@[i]
            } else {
                duration_ms
            })),
{
    if points.len() == 0 {
        return Err(YtcsError::ChapterError(crate::text::owned("No silence detected. Try adjusting the parameters.")));
    }
    let mut cs: Vec<Chapter> = Vec::new();
    let mut start: u64 = 0;
    let mut i: usize = 0;
    while i < points.len()
        invariant
            0 < points@.len(),
            0 < points@[0],
            points@.last() < duration_ms,
            forall|a: int, b: int| 0 <= a < b < points@.len() ==> points@[a] < points@[b],
            i <= points@.len(),
            cs@.len() == i,
            start == (if i == 0 { 0 } else { points@[i - 1] }),
            forall|k: int|
                0 <= k < i ==> (#[trigger] cs@[k]).title@ == "Track "@ + dec((k + 1) as nat) && cs@[k].start_ms == (if k
                    == 0 {
                    0
                } else {
                    points@[k - 1]
                }) && cs@[k].end_ms == points@[k],
        decreases points@.len() - i,
    {
        let end = points[i];
        proof {
            if i > 0 {
                assert(points@[i - 1] < points@[i as int]);
            }
        }
        let mut title: Vec<char> = Vec::new();
        push_str(&mut title, "Track ");
        push_dec(&mut title, (i as u64) + 1);
        cs.push(Chapter::new(string_of(&title), start, end));
        start = end;
        i = i + 1;
    }
    proof {
        assert(points@[i - 1] == points@.last());
        assert(i < usize::MAX);
    }
    let mut title: Vec<char> = Vec::new();
    push_str(&mut title, "Track ");
    push_dec(&mut title, (i as u64) + 1);
    cs.push(Chapter::new(string_of(&title), start, duration_ms));
    Ok(cs)
}

/// The middles of the silences (see [`silences_spec`]).
pub open spec fn split_points_spec(stderr: Seq<char>) -> Seq<u64> {
    silences_spec(stderr).map_values(|p: (u64, u64)| ((p.0 + p.1) / 2) as u64)
}

/// The chapters of an audio of `duration_ms` cut at the middles of the
/// silences ffmpeg's `silencedetect` reported in `stderr` (see
/// [`chapters_from_split_points`]); no silence is an error. The middles
/// must increase, the first after the start and the last before the end.
pub fn detect_silence_chapters(stderr: &str, duration_ms: u64) -> (r: Result<Vec<Chapter>, YtcsError>)
    requires
        split_points_spec(stderr@).len() < usize::MAX,
        split_points_spec(stderr@).len() > 0 ==> 0 < split_points_spec(stderr@)[0] && split_points_spec(
            stderr@,
        ).last() < duration_ms,
        forall|i: int, j: int|
            0 <= i < j < split_points_spec(stderr@).len() ==> split_points_spec(stderr@)[i] < split_points_spec(
                stderr@,
            )[j],
    ensures
        ({
            let points = split_points_spec(stderr@);
            &&& points.len() == 0 ==> (r matches Err(YtcsError::ChapterError(m)) && m@ == no_silence_message())
            &&& points.len() > 0 ==> (r matches Ok(cs) && cs@.len() == points.len() + 1 && forall|i: int|
                0 <= i < cs@.len() ==> (#[trigger] cs@[i]).title@ == "Track "@ + dec((i + 1) as nat)
                    && cs@[i].start_ms == (if i == 0 { 0 } else { points[i - 1] }) && cs@[i].end_ms == (if i
                    < points.len() {
                    points[i]
                } else {
                    duration_ms
                }))
        }),
{
    let silences = silences_from_output(stderr);
    let mut points: Vec<u64> = Vec::new();
    let mut i: usize = 0;
    while i < silences.len()
        invariant
            i <= silences@.len(),
            silences@ == silences_spec(stderr@),
            points@ == silences@.take(i as int).map_values(|p: (u64, u64)| ((p.0 + p.1) / 2) as u64),
        decreases silences@.len() - i,
    {
        let (a, b) = silences[i];
        let m = ((a as u128 + b as u128) / 2) as u64;
        points.push(m);
        proof {
            assert(silences@.take(i + 1) =~= silences@.take(i as int).push(silences@[i as int]));
            assert(points@ =~= silences@.take(i + 1).map_values(|p: (u64, u64)| ((p.0 + p.1) / 2) as u64));
        }
        i = i + 1;
    }
    proof {
        assert(silences@.take(i as int) =~= silences@);
    }
    chapters_from_split_points(&points, duration_ms)
}

/// The middles of the silences increase, the first lies after the start
/// and the last before the end: the silences then cut the audio into
/// tracks.
pub open spec fn cuts_in_order(stderr: Seq<char>, duration_ms: u64) -> bool {
    let points = split_points_spec(stderr);
    &&& points.len() < usize::MAX
    &&& points.len() > 0 ==> 0 < points[0] && points.last() < duration_ms
    &&& forall|i: int, j: int| 0 <= i < j < points.len() ==> points[i] < points[j]
}

/// The chapters cut at the silences (see [`detect_silence_chapters`]) when
/// [`cuts_in_order`] holds, else `None`.
pub fn detect_silence_chapters_checked(stderr: &str, duration_ms: u64) -> (r: Option<Result<Vec<Chapter>, YtcsError>>)
    ensures
        r is Some <==> cuts_in_order(stderr@, duration_ms),
        match r {
            Some(res) => {
                let points = split_points_spec(stderr@);
                &&& points.len() == 0 ==> (res matches Err(YtcsError::ChapterError(m)) && m@ == no_silence_message())
                &&& points.len() > 0 ==> (res matches Ok(cs) && cs@.len() == points.len() + 1 && forall|i: int|
                    0 <= i < cs@.len() ==> (#[trigger] cs@[i]).title@ == "Track "@ + dec((i + 1) as nat)
                        && cs@[i].start_ms == (if i == 0 { 0 } else { points[i - 1] }) && cs@[i].end_ms == (if i
                        < points.len() {
                        points[i]
                    } else {
                        duration_ms
                    }))
            },
            None => true,
        },
{
    let silences = silences_from_output(stderr);
    let ghost points = split_points_spec(stderr@);
    if silences.len() == usize::MAX {
        return None;
    }
    let mut prev: u64 = 0;
    let mut i: usize = 0;
    while i < silences.len()
        invariant
            i <= silences@.len(),
            silences@ == silences_spec(stderr@),
            points == split_points_spec(stderr@),
            points.len() == silences@.len(),
            forall|a: int, b: int| 0 <= a < b < i ==> points[a] < points[b],
            forall|a: int| 0 <= a < i ==> 0 < points[a] && points[a] <= prev,
            i > 0 ==> prev == points[i - 1],
            i == 0 ==> prev == 0,
        decreases silences@.len() - i,
    {
        let (a, b) = silences[i];
        let m = ((a as u128 + b as u128) / 2) as u64;
        assert(m == points[i as int]);
        if m <= prev {
            proof {
                if i > 0 {
                    assert(points[i - 1] >= points[i as int]);
                    assert(!(points[i - 1] < points[i as int]));
                } else {
                    assert(points.len() > 0 && points[0] == 0);
                }
                assert(!cuts_in_order(stderr@, duration_ms));
            }
            return None;
        }
        prev = m;
        i = i + 1;
    }
    if silences.len() > 0 && prev >= duration_ms {
        return None;
    }
    Some(detect_silence_chapters(stderr, duration_ms))
}

/// The file name of track `n` (from 1): the file-name template filled in
/// (see [`format_filename_spec`]) with the sanitized title, the artist and
/// the album, then a point and the format's extension. With the default
/// template `%n. %t` this is, for instance, `01. Oblivion Gate.mp3`.
pub open spec fn track_file_name(
    template: Seq<char>,
    n: nat,
    sanitized: Seq<char>,
    artist: Seq<char>,
    album: Seq<char>,
    format: AudioFormat,
) -> Seq<char> {
    format_filename_spec(template, n, sanitized, artist, album) + "."@ + extension_spec(format)
}

/// The file name of track `number` of a chapter: see [`track_file_name`].
pub fn track_filename(
    template: &str,
    number: usize,
    chapter: &Chapter,
    artist: &str,
    album: &str,
    format: AudioFormat,
) -> (r: String)
    ensures
        r@ == track_file_name(
            template@,
            number as nat,
            crate::utils::sanitize_title_spec(chapter.title@),
            artist@,
            album@,
            format,
        ),
{
    let t = chapter.sanitize_title();
    let name = Config::format_filename_with_template(template, number, t.as_str(), artist, album);
    let mut out: Vec<char> = Vec::new();
    push_str(&mut out, name.as_str());
    push_str(&mut out, ".");
    push_str(&mut out, format.extension());
    proof {
        reveal_strlit(".");
    }
    string_of(&out)
}

/// The ffmpeg encoder of an audio format.
pub open spec fn encoder_spec(format: AudioFormat) -> Seq<char> {
    match format {
        AudioFormat::Mp3 => "libmp3lame"@,
        AudioFormat::Opus => "libopus"@,
        AudioFormat::M4a => "aac"@,
    }
}

fn encoder(format: AudioFormat) -> (r: &'static str)
    ensures
        r@ == encoder_spec(format),
{
    match format {
        AudioFormat::Mp3 => "libmp3lame",
        AudioFormat::Opus => "libopus",
        AudioFormat::M4a => "aac",
    }
}

/// The ffmpeg arguments that cut track `number` of `total` out of `input`
/// into `output`: the chapter's start and length (in seconds), the
/// format's encoder at the configured bitrate (`<quality>k`), and the
/// title, artist, album and track tags.
pub open spec fn cut_args_spec(
    input: Seq<char>,
    start_ms: u64,
    length_ms: u64,
    title: Seq<char>,
    artist: Seq<char>,
    album: Seq<char>,
    number: nat,
    total: nat,
    format: AudioFormat,
    quality: u32,
    output: Seq<char>,
) -> Seq<Seq<char>> {
    seq![
        "-i"@,
        input,
        "-ss"@,
        millis_text(start_ms as int),
        "-t"@,
        millis_text(length_ms as int),
        "-c:a"@,
        encoder_spec(format),
        "-b:a"@,
        dec(quality as nat) + "k"@,
        "-metadata"@,
        "title="@ + title,
        "-metadata"@,
        "artist="@ + artist,
        "-metadata"@,
        "album="@ + album,
        "-metadata"@,
        "track="@ + dec(number) + "/"@ + dec(total),
        "-y"@,
        output,
    ]
}

/// The layout of a cut's ffmpeg arguments: the input after `-i`; the
/// start and length after `-ss` and `-t`; the format's encoder and the
/// bitrate; then four `-metadata` tags, the title after the first, the
/// artist after the second, the album after the third and the track number
/// out of the total after the fourth; and `-y` before the output, last.
pub proof fn lemma_cut_args_layout(
    input: Seq<char>,
    start_ms: u64,
    length_ms: u64,
    title: Seq<char>,
    artist: Seq<char>,
    album: Seq<char>,
    number: nat,
    total: nat,
    format: AudioFormat,
    quality: u32,
    output: Seq<char>,
)
    ensures
        ({
            let a = cut_args_spec(
                input,
                start_ms,
                length_ms,
                title,
                artist,
                album,
                number,
                total,
                format,
                quality,
                output,
            );
            &&& a.len() == 20
            &&& a[0] == "-i"@ && a[1] == input
            &&& a[2] == "-ss"@ && a[3] == millis_text(start_ms as int)
            &&& a[4] == "-t"@ && a[5] == millis_text(length_ms as int)
            &&& a[6] == "-c:a"@ && a[7] == encoder_spec(format)
            &&& a[8] == "-b:a"@ && a[9] == dec(quality as nat) + "k"@
            &&& a[10] == "-metadata"@ && a[11] == "title="@ + title
            &&& a[12] == "-metadata"@ && a[13] == "artist="@ + artist
            &&& a[14] == "-metadata"@ && a[15] == "album="@ + album
            &&& a[16] == "-metadata"@ && a[17] == "track="@ + dec(number) + "/"@ + dec(total)
            &&& a[18] == "-y"@ && a[19] == output
        }),
{
}

/// Two texts joined.
fn joined(a: &str, b: &str) -> (r: String)
    ensures
        r@ == a@ + b@,
{
    let mut v: Vec<char> = Vec::new();
    push_str(&mut v, a);
    push_str(&mut v, b);
    string_of(&v)
}

/// The text of a number of milliseconds in seconds.
fn seconds_text(ms: u64) -> (r: String)
    requires
        ms <= i64::MAX,
    ensures
        r@ == millis_text(ms as int),
{
    let mut v: Vec<char> = Vec::new();
    crate::config_wizard::push_millis_text(&mut v, ms as i64);
    string_of(&v)
}

/// The ffmpeg arguments that cut a track: see [`cut_args_spec`].
pub fn cut_args(
    input: &str,
    chapter: &Chapter,
    artist: &str,
    album: &str,
    number: usize,
    total: usize,
    format: AudioFormat,
    quality: u32,
    output: &str,
) -> (r: Vec<String>)
    requires
        chapter.start_ms <= chapter.end_ms <= i64::MAX,
    ensures
        r@.map_values(|s: String| s@) == cut_args_spec(
            input@,
            chapter.start_ms,
            (chapter.end_ms - chapter.start_ms) as u64,
            chapter.title@,
            artist@,
            album@,
            number as nat,
            total as nat,
            format,
            quality,
            output@,
        ),
{
    let mut track: Vec<char> = Vec::new();
    push_str(&mut track, "track=");
    push_dec(&mut track, number as u64);
    push_str(&mut track, "/");
    push_dec(&mut track, total as u64);
    let mut rate: Vec<char> = Vec::new();
    push_dec(&mut rate, quality as u64);
    push_str(&mut rate, "k");
    let length = chapter.end_ms - chapter.start_ms;
    let v = vec![
        crate::text::owned("-i"),
        crate::text::owned(input),
        crate::text::owned("-ss"),
        seconds_text(chapter.start_ms),
        crate::text::owned("-t"),
        seconds_text(length),
        crate::text::owned("-c:a"),
        crate::text::owned(encoder(format)),
        crate::text::owned("-b:a"),
        string_of(&rate),
        crate::text::owned("-metadata"),
        joined("title=", chapter.title.as_str()),
        crate::text::owned("-metadata"),
        joined("artist=", artist),
        crate::text::owned("-metadata"),
        joined("album=", album),
        crate::text::owned("-metadata"),
        string_of(&track),
        crate::text::owned("-y"),
        crate::text::owned(output),
    ];
    assert(v@.map_values(|s: String| s@) =~= cut_args_spec(
        input@,
        chapter.start_ms,
        (chapter.end_ms - chapter.start_ms) as u64,
        chapter.title@,
        artist@,
        album@,
        number as nat,
        total as nat,
        format,
        quality,
        output@,
    ));
    v
}

/// Whether an existing track file is kept as it is: when the
/// configuration does not ask to overwrite existing files.
pub open spec fn keeps_existing(exists: bool, overwrite: bool) -> bool {
    exists && !overwrite
}

/// How track `number` of `total` is written to `output` (a file that does
/// or does not exist yet): `None` when the existing file is kept (see
/// [`keeps_existing`]), else the ffmpeg arguments that cut it in the
/// configured format and quality (see [`cut_args_spec`]).
pub fn track_cut(
    input: &str,
    chapter: &Chapter,
    artist: &str,
    album: &str,
    number: usize,
    total: usize,
    format: AudioFormat,
    quality: u32,
    overwrite: bool,
    exists: bool,
    output: &str,
) -> (r: Option<Vec<String>>)
    requires
        chapter.start_ms <= chapter.end_ms <= i64::MAX,
    ensures
        keeps_existing(exists, overwrite) ==> r is None,
        !keeps_existing(exists, overwrite) ==> (r matches Some(v) && v@.map_values(|s: String| s@)
            == cut_args_spec(
            input@,
            chapter.start_ms,
            (chapter.end_ms - chapter.start_ms) as u64,
            chapter.title@,
            artist@,
            album@,
            number as nat,
            total as nat,
            format,
            quality,
            output@,
        )),
{
    if exists && !overwrite {
        None
    } else {
        Some(cut_args(input, chapter, artist, album, number, total, format, quality, output))
    }
}

/// The lines of a playlist file: each name followed by a newline.
pub open spec fn m3u_lines(names: Seq<Seq<char>>) -> Seq<char>
    decreases names.len(),
{
    if names.len() == 0 {
        Seq::empty()
    } else {
        m3u_lines(names.drop_last()) + names.last() + seq!['\n']
    }
}

/// The text of an M3U playlist of the track files named `names`, in order:
/// the `#EXTM3U` header line, then one line per name.
pub fn m3u_text(names: &Vec<String>) -> (r: String)
    ensures
        r@ == "#EXTM3U\n"@ + m3u_lines(names@.map_values(|n: String| n@)),
{
    let ghost ns = names@.map_values(|n: String| n@);
    let mut out: Vec<char> = Vec::new();
    push_str(&mut out, "#EXTM3U\n");
    let ghost head = out@;
    let mut i: usize = 0;
    while i < names.len()
        invariant
            i <= names@.len(),
            ns == names@.map_values(|n: String| n@),
            out@ == head + m3u_lines(ns.take(i as int)),
        decreases names@.len() - i,
    {
        push_str(&mut out, names[i].as_str());
        out.push('\n');
        proof {
            assert(ns.take(i + 1).drop_last() =~= ns.take(i as int));
            assert(ns.take(i + 1).last() == names@[i as int]@);
            assert(out@ =~= head + m3u_lines(ns.take(i + 1)));
        }
        i = i + 1;
    }
    assert(ns.take(names@.len() as int) =~= ns);
    string_of(&out)
}

} // verus!

//! What yt-dlp's output says: the progress of a download, read from one
//! of its `[download]` lines, and the error of a failed run, in one
//! message.

use vstd::prelude::*;
use crate::text::{
    byte_len, chars_of, contains, contains_exec, matches_at, matches_at_exec, owned, push_str, slice,
    str_to_lower, string_of, trim, trim_chars, utf8_len,
};
use crate::audio::{decimal_ms, decimal_ms_exec};
use crate::pattern::{all_matches, find_all, CharClass, Node};
use crate::tui::components::input::{
    boundary_position, byte_pos, char_index, is_boundary, lines_from, lemma_char_or_end_bounds, strip_cr,
};

verus! {

/// The lines of yt-dlp's error output that carry an error: a line whose
/// lower-cased text holds `http error`, or one that starts with `ERROR: `.
pub open spec fn is_error_line(line: Seq<char>, lower: Seq<char>) -> bool {
    contains(lower, "http error"@) || matches_at(line, "ERROR: "@, 0)
}

/// The message of an error line: an HTTP error line without its `ERROR: `
/// prefix (or trimmed when it has none); another error line trimmed.
pub open spec fn error_line_message(line: Seq<char>, lower: Seq<char>) -> Seq<char> {
    if contains(lower, "http error"@) && matches_at(line, "ERROR: "@, 0) {
        line.subrange(7, line.len() as int)
    } else {
        trim(line)
    }
}

/// The first error line among the lines from `k` on (with their lower-cased
/// texts), or -1.
pub open spec fn first_error_line(lines: Seq<Seq<char>>, lowers: Seq<Seq<char>>, k: int) -> int
    decreases lines.len() - k,
{
    if k < 0 || k >= lines.len() {
        -1
    } else if is_error_line(lines[k], lowers[k]) {
        k
    } else {
        first_error_line(lines, lowers, k + 1)
    }
}

/// The message when no line carries an error: an outdated yt-dlp when the
/// lower-cased output says so, else the output's last 200 bytes (with a
/// note) when it is longer, else all of it.
pub open spec fn fallback_message(stderr: Seq<char>, lower: Seq<char>) -> Seq<char> {
    if contains(lower, "older than 90 days"@) {
        "yt-dlp is outdated (older than 90 days). YouTube may be blocking downloads."@
    } else if utf8_len(stderr) > 200 {
        "yt-dlp failed. Last error: "@ + trim(stderr.skip(char_index(stderr, utf8_len(stderr) - 200))) + "..."@
    } else {
        "yt-dlp failed: "@ + trim(stderr)
    }
}

/// The message of yt-dlp's error output, given the output's lines, their
/// lower-cased texts and the lower-cased output.
pub open spec fn error_message_spec(stderr: Seq<char>, lowers: Seq<Seq<char>>, lower: Seq<char>) -> Seq<char> {
    let lines = lines_from(stderr, 0);
    let k = first_error_line(lines, lowers, 0);
    if k >= 0 {
        error_line_message(lines[k], lowers[k])
    } else {
        fallback_message(stderr, lower)
    }
}

/// Cutting the output at its last 200 bytes falls between two characters
/// (or there is no cut).
pub open spec fn tail_is_clean(stderr: Seq<char>) -> bool {
    utf8_len(stderr) > 200 ==> is_boundary(stderr, utf8_len(stderr) - 200)
}

/// Whether `line` holds `p` once lower-cased: `lower` is its lower-cased
/// text.
fn holds(lower: &str, p: &str) -> (r: bool)
    ensures
        r == contains(lower@, p@),
{
    let l = chars_of(lower);
    let pv = chars_of(p);
    contains_exec(&l, &pv)
}

/// The lines of `s` (as `str::lines` splits them).
pub fn split_lines(s: &str) -> (r: Vec<String>)
    ensures
        r@.map_values(|l: String| l@) == lines_from(s@, 0),
{
    let v = chars_of(s);
    let mut out: Vec<String> = Vec::new();
    let mut start: usize = 0;
    while start < v.len()
        invariant
            start <= v@.len(),
            out@.map_values(|l: String| l@) + lines_from(v@, start as int) == lines_from(v@, 0),
        decreases v@.len() - start,
    {
        let e = crate::playlist::char_or_end_pub(&v, '\n', start);
        proof {
            lemma_char_or_end_bounds(v@, '\n', start as int);
        }
        let mut piece = slice(&v, start, e);
        if piece.len() > 0 && piece[piece.len() - 1] == '\r' {
            piece.pop();
        }
        proof {
            assert(piece@ == strip_cr(v@.subrange(start as int, e as int)));
        }
        let ghost before = out@.map_values(|l: String| l@);
        out.push(string_of(&piece));
        proof {
            assert(out@.map_values(|l: String| l@) =~= before.push(piece@));
        }
        if e >= v.len() {
            proof {
                assert(lines_from(v@, e as int) =~= Seq::<Seq<char>>::empty());
                assert(out@.map_values(|l: String| l@) + lines_from(v@, e as int) =~= before
                    + lines_from(v@, start as int));
            }
            start = e;
        } else {
            proof {
                assert(out@.map_values(|l: String| l@) + lines_from(v@, e + 1) =~= before
                    + lines_from(v@, start as int));
            }
            start = e + 1;
        }
    }
    proof {
        assert(lines_from(v@, start as int) =~= Seq::<Seq<char>>::empty());
    }
    out
}

/// The message of yt-dlp's error output (see [`error_message_spec`]),
/// given the lower-cased text of each of its lines and of the whole. When
/// no line carries an error, a long output must be cut between two
/// characters.
pub fn error_message_from(stderr: &str, line_lowers: &Vec<String>, stderr_lower: &str) -> (r: String)
    requires
        line_lowers@.len() == lines_from(stderr@, 0).len(),
        first_error_line(lines_from(stderr@, 0), line_lowers@.map_values(|l: String| l@), 0) < 0
            && !contains(stderr_lower@, "older than 90 days"@) ==> tail_is_clean(stderr@),
    ensures
        r@ == error_message_spec(stderr@, line_lowers@.map_values(|l: String| l@), stderr_lower@),
{
    let lines = split_lines(stderr);
    let ghost ls = lines_from(stderr@, 0);
    let ghost lows = line_lowers@.map_values(|l: String| l@);
    let prefix = chars_of("ERROR: ");
    proof {
        reveal_strlit("ERROR: ");
    }
    let mut i: usize = 0;
    while i < lines.len()
        invariant
            i <= lines@.len(),
            ls == lines_from(stderr@, 0),
            lines@.len() == ls.len(),
            line_lowers@.len() == ls.len(),
            lines@.map_values(|l: String| l@) == ls,
            lows == line_lowers@.map_values(|l: String| l@),
            prefix@ == "ERROR: "@,
            prefix@.len() == 7,
            first_error_line(ls, lows, 0) == first_error_line(ls, lows, i as int),
        decreases lines@.len() - i,
    {
        proof {
            assert(lines@.map_values(|l: String| l@)[i as int] == lines@[i as int]@);
            assert(lows[i as int] == line_lowers@[i as int]@);
        }
        let line = chars_of(lines[i].as_str());
        let http = holds(line_lowers[i].as_str(), "http error");
        let starts = matches_at_exec(&line, &prefix, 0);
        if http || starts {
            proof {
                assert(first_error_line(ls, lows, i as int) == i);
            }
            if http && starts {
                return string_of(&slice(&line, 7, line.len()));
            }
            return string_of(&trim_chars(&line));
        }
        i = i + 1;
    }
    let sv = chars_of(stderr);
    if holds(stderr_lower, "older than 90 days") {
        return owned("yt-dlp is outdated (older than 90 days). YouTube may be blocking downloads.");
    }
    let n = byte_len(stderr);
    let mut out: Vec<char> = Vec::new();
    if n > 200 {
        let k = crate::tui::components::input::locate_boundary(&sv, n - 200);
        push_str(&mut out, "yt-dlp failed. Last error: ");
        let tail = slice(&sv, k, sv.len());
        let t = trim_chars(&tail);
        crate::text::extend(&mut out, &t);
        push_str(&mut out, "...");
        proof {
            assert(tail@ == sv@.skip(k as int));
        }
    } else {
        push_str(&mut out, "yt-dlp failed: ");
        let t = trim_chars(&sv);
        crate::text::extend(&mut out, &t);
    }
    string_of(&out)
}

/// The lower-cased texts of the lines of `s`.
fn lowered_lines(s: &str) -> (r: Vec<String>)
    ensures
        r@.len() == lines_from(s@, 0).len(),
        forall|i: int| 0 <= i < r@.len() ==> (#[trigger] r@[i])@ == str_to_lower(lines_from(s@, 0)[i]),
{
    let lines = split_lines(s);
    let mut out: Vec<String> = Vec::new();
    let mut i: usize = 0;
    while i < lines.len()
        invariant
            i <= lines@.len(),
            lines@.map_values(|l: String| l@) == lines_from(s@, 0),
            out@.len() == i,
            forall|k: int| 0 <= k < i ==> (#[trigger] out@[k])@ == str_to_lower(lines_from(s@, 0)[k]),
        decreases lines@.len() - i,
    {
        proof {
            assert(lines@.map_values(|l: String| l@)[i as int] == lines@[i as int]@);
        }
        out.push(crate::text::lower_string(lines[i].as_str()));
        i = i + 1;
    }
    out
}

/// The lower-cased texts of the lines of `s`, as a sequence.
pub open spec fn lowered(s: Seq<char>) -> Seq<Seq<char>> {
    lines_from(s, 0).map_values(|l: Seq<char>| str_to_lower(l))
}

/// Whether the message of yt-dlp's output can be had without cutting a
/// character: some line carries an error, the output reports an outdated
/// yt-dlp, or its tail is cut cleanly.
pub open spec fn message_is_defined(stderr: Seq<char>) -> bool {
    first_error_line(lines_from(stderr, 0), lowered(stderr), 0) < 0 && !contains(
        str_to_lower(stderr),
        "older than 90 days"@,
    ) ==> tail_is_clean(stderr)
}

/// Extracts a meaningful message from yt-dlp's error output: see
/// [`error_message_spec`], with the lines and the output lower-cased.
pub fn extract_error_message(stderr: &str) -> (r: String)
    requires
        message_is_defined(stderr@),
    ensures
        r@ == error_message_spec(stderr@, lowered(stderr@), str_to_lower(stderr@)),
{
    let lows = lowered_lines(stderr);
    let whole = crate::text::lower_string(stderr);
    proof {
        assert(lows@.map_values(|l: String| l@) =~= lowered(stderr@));
    }
    error_message_from(stderr, &lows, whole.as_str())
}

/// [`extract_error_message`] where it is defined (see
/// [`message_is_defined`]); `None` where the tail would be cut inside a
/// character.
pub fn extract_error_message_checked(stderr: &str) -> (r: Option<String>)
    ensures
        match r {
            Some(m) => message_is_defined(stderr@) && m@ == error_message_spec(
                stderr@,
                lowered(stderr@),
                str_to_lower(stderr@),
            ),
            None => !message_is_defined(stderr@),
        },
{
    let lows = lowered_lines(stderr);
    let whole = crate::text::lower_string(stderr);
    proof {
        assert(lows@.map_values(|l: String| l@) =~= lowered(stderr@));
    }
    let lines = split_lines(stderr);
    let mut i: usize = 0;
    let mut hit = false;
    while i < lines.len()
        invariant
            i <= lines@.len(),
            lines@.map_values(|l: String| l@) == lines_from(stderr@, 0),
            lows@.map_values(|l: String| l@) == lowered(stderr@),
            lows@.len() == lines@.len(),
            !hit ==> first_error_line(lines_from(stderr@, 0), lowered(stderr@), 0) == first_error_line(
                lines_from(stderr@, 0),
                lowered(stderr@),
                i as int,
            ),
            hit ==> first_error_line(lines_from(stderr@, 0), lowered(stderr@), 0) >= 0,
        decreases lines@.len() - i,
    {
        if !hit {
            proof {
                assert(lines@.map_values(|l: String| l@)[i as int] == lines@[i as int]@);
                assert(lows@.map_values(|l: String| l@)[i as int] == lows@[i as int]@);
            }
            let line = chars_of(lines[i].as_str());
            let prefix = chars_of("ERROR: ");
            if holds(lows[i].as_str(), "http error") || matches_at_exec(&line, &prefix, 0) {
                hit = true;
            }
        }
        i = i + 1;
    }
    if hit || holds(whole.as_str(), "older than 90 days") {
        return Some(extract_error_message(stderr));
    }
    let sv = chars_of(stderr);
    let n = byte_len(stderr);
    if n > 200 && boundary_position(&sv, n - 200).is_none() {
        return None;
    }
    Some(extract_error_message(stderr))
}

/// A repetition of one or more characters of a class, longest first.
pub open spec fn some_of(class: CharClass) -> Node {
    Node::Repeat { class, min: 1, max: usize::MAX, greedy: true }
}

/// Exactly the character `c`.
pub open spec fn just(c: char) -> Node {
    Node::Repeat { class: CharClass::Exactly(c), min: 1, max: 1, greedy: true }
}

/// A binary size unit: `GiB`, `MiB` or `KiB`.
pub open spec fn unit_nodes() -> Seq<Node> {
    seq![Node::Repeat { class: CharClass::UnitLetter, min: 1, max: 1, greedy: true }, just('i'), just('B')]
}

/// `(\d+\.\d+)%`: a decimal number before a percent sign; slots 0 and 1
/// delimit the number.
pub open spec fn percent_nodes() -> Seq<Node> {
    seq![Node::Mark(0), some_of(CharClass::Digit), just('.'), some_of(CharClass::Digit), Node::Mark(1), just('%')]
}

/// `(\d+\.\d+)(GiB|MiB|KiB)`: a size; slots 0 and 1 delimit the number,
/// whose unit starts at slot 1.
pub open spec fn size_nodes() -> Seq<Node> {
    seq![Node::Mark(0), some_of(CharClass::Digit), just('.'), some_of(CharClass::Digit), Node::Mark(1)] + unit_nodes()
}

/// `at\s+([\d.]+)(GiB|MiB|KiB)/s`: a speed; slots 0 and 1 delimit the
/// number, 1 and 2 the unit.
pub open spec fn speed_nodes() -> Seq<Node> {
    seq![just('a'), just('t'), some_of(CharClass::Space), Node::Mark(0), some_of(CharClass::DigitOrPoint), Node::Mark(1)]
        + unit_nodes() + seq![Node::Mark(2), just('/'), just('s')]
}

/// `ETA\s+(\d{2}:\d{2})`: the time left; slots 0 and 1 delimit it.
pub open spec fn eta_nodes() -> Seq<Node> {
    seq![
        just('E'),
        just('T'),
        just('A'),
        some_of(CharClass::Space),
        Node::Mark(0),
        Node::Repeat { class: CharClass::Digit, min: 2, max: 2, greedy: true },
        just(':'),
        Node::Repeat { class: CharClass::Digit, min: 2, max: 2, greedy: true },
        Node::Mark(1),
    ]
}

/// The capture slots a search starts with.
pub open spec fn no_caps() -> Seq<usize> {
    seq![0usize, 0usize, 0usize]
}

/// The captures of the first match of `nodes` in `s`, if any.
pub open spec fn first_match(nodes: Seq<Node>, s: Seq<char>) -> Option<Seq<usize>> {
    let ms = all_matches(nodes, s, 0, no_caps());
    if ms.len() > 0 {
        Some(ms[0])
    } else {
        None
    }
}

/// The text between capture slots `a` and `b` of a match, or `dflt` when
/// they do not delimit a part of `s`.
pub open spec fn captured_or(s: Seq<char>, c: Seq<usize>, a: int, b: int, dflt: Seq<char>) -> Seq<char> {
    if 0 <= a < c.len() && 0 <= b < c.len() && c[a] <= c[b] <= s.len() {
        s.subrange(c[a] as int, c[b] as int)
    } else {
        dflt
    }
}

/// A binary unit in KiB, by its first letter.
pub open spec fn unit_kib(letter: char) -> nat {
    if letter == 'G' {
        1048576
    } else if letter == 'M' {
        1024
    } else {
        1
    }
}

/// The value of a size match, in thousandths of its unit, and its unit's
/// letter.
pub open spec fn size_value(s: Seq<char>, c: Seq<usize>) -> Option<(u64, char)> {
    if c.len() == 3 && c[0] <= c[1] < s.len() {
        match decimal_ms(s.subrange(c[0] as int, c[1] as int)) {
            Some(v) => Some((v, s[c[1] as int])),
            None => None,
        }
    } else {
        None
    }
}

/// The first size over the second, in thousandths of a percent (rounded
/// down); 99.9 % when the second is nothing.
pub open spec fn size_ratio(a: (u64, char), b: (u64, char)) -> nat {
    let den = b.0 * unit_kib(b.1);
    if den == 0 {
        99900
    } else {
        (a.0 * unit_kib(a.1) * 100000 / den) as nat
    }
}

/// The percentage a download line shows, in thousandths of a percent: the
/// number before `%`, or else the first size over the second; `None` when
/// there is neither (or a number is too long to read).
pub open spec fn line_percentage(s: Seq<char>) -> Option<nat> {
    let sizes = all_matches(size_nodes(), s, 0, no_caps());
    match first_match(percent_nodes(), s) {
        Some(c) => match decimal_ms(captured_or(s, c, 0, 1, Seq::empty())) {
            Some(v) => Some(v as nat),
            None => None,
        },
        None => if sizes.len() >= 2 {
            match (size_value(s, sizes[0]), size_value(s, sizes[1])) {
                (Some(a), Some(b)) => Some(size_ratio(a, b)),
                _ => None,
            }
        } else {
            None
        },
    }
}

/// What a yt-dlp `[download]` line says of the download, unless it reports
/// completion (`100%`): the percentage (see [`line_percentage`], at most
/// 99.9 %), the numbers of the first two sizes (`?` when there are not
/// two), the speed as `<number> <unit>/s` and the time left (each empty
/// when absent).
pub open spec fn download_line_spec(s: Seq<char>) -> Option<(nat, Seq<char>, Seq<char>, Seq<char>, Seq<char>)> {
    if !contains(s, "[download]"@) || contains(s, "100%"@) {
        None
    } else {
        match line_percentage(s) {
            None => None,
            Some(p) => {
                let sizes = all_matches(size_nodes(), s, 0, no_caps());
                let speed = match first_match(speed_nodes(), s) {
                    Some(c) => captured_or(s, c, 0, 1, Seq::empty()) + " "@ + captured_or(s, c, 1, 2, Seq::empty())
                        + "/s"@,
                    None => Seq::empty(),
                };
                let eta = match first_match(eta_nodes(), s) {
                    Some(c) => captured_or(s, c, 0, 1, Seq::empty()),
                    None => Seq::empty(),
                };
                let (downloaded, total) = if sizes.len() >= 2 {
                    (captured_or(s, sizes[0], 0, 1, "?"@), captured_or(s, sizes[1], 0, 1, "?"@))
                } else {
                    ("?"@, "?"@)
                };
                Some((if p > 99900 { 99900 } else { p }, downloaded, total, speed, eta))
            },
        }
    }
}

/// The progress of a download.
#[derive(Debug, Clone)]
pub struct DownloadProgress {
    /// The percentage done, in thousandths of a percent (45.0 % is 45000).
    pub percentage: u64,
    /// The downloaded size (such as `23.5`).
    pub downloaded: String,
    /// The total size (such as `52.3`).
    pub total: String,
    /// The speed (such as `2.34 MiB/s`).
    pub speed: String,
    /// The time left (such as `00:12`).
    pub eta: String,
}

/// What is told of a download as it goes; each method does nothing unless
/// an implementation says otherwise.
pub trait ProgressCallback {
    /// Called with the progress of the download.
    fn on_progress(&self, progress: &DownloadProgress);

    /// Called when the download starts.
    fn on_start(&self) {
    }

    /// Called when the download is complete.
    fn on_complete(&self) {
    }
}

/// A callback that ignores the progress.
pub struct NoProgressCallback;

impl ProgressCallback for NoProgressCallback {
    fn on_progress(&self, progress: &DownloadProgress) {
    }
}

fn unit_nodes_exec() -> (r: Vec<Node>)
    ensures
        r@ == unit_nodes(),
{
    let r = vec![
        Node::Repeat { class: CharClass::UnitLetter, min: 1, max: 1, greedy: true },
        Node::Repeat { class: CharClass::Exactly('i'), min: 1, max: 1, greedy: true },
        Node::Repeat { class: CharClass::Exactly('B'), min: 1, max: 1, greedy: true },
    ];
    assert(r@ =~= unit_nodes());
    r
}

fn percent_nodes_exec() -> (r: Vec<Node>)
    ensures
        r@ == percent_nodes(),
{
    let r = vec![
        Node::Mark(0),
        Node::Repeat { class: CharClass::Digit, min: 1, max: usize::MAX, greedy: true },
        Node::Repeat { class: CharClass::Exactly('.'), min: 1, max: 1, greedy: true },
        Node::Repeat { class: CharClass::Digit, min: 1, max: usize::MAX, greedy: true },
        Node::Mark(1),
        Node::Repeat { class: CharClass::Exactly('%'), min: 1, max: 1, greedy: true },
    ];
    assert(r@ =~= percent_nodes());
    r
}

fn size_nodes_exec() -> (r: Vec<Node>)
    ensures
        r@ == size_nodes(),
{
    let mut r = vec![
        Node::Mark(0),
        Node::Repeat { class: CharClass::Digit, min: 1, max: usize::MAX, greedy: true },
        Node::Repeat { class: CharClass::Exactly('.'), min: 1, max: 1, greedy: true },
        Node::Repeat { class: CharClass::Digit, min: 1, max: usize::MAX, greedy: true },
        Node::Mark(1),
    ];
    let mut u = unit_nodes_exec();
    r.append(&mut u);
    assert(r@ =~= size_nodes());
    r
}

fn speed_nodes_exec() -> (r: Vec<Node>)
    ensures
        r@ == speed_nodes(),
{
    let mut r = vec![
        Node::Repeat { class: CharClass::Exactly('a'), min: 1, max: 1, greedy: true },
        Node::Repeat { class: CharClass::Exactly('t'), min: 1, max: 1, greedy: true },
        Node::Repeat { class: CharClass::Space, min: 1, max: usize::MAX, greedy: true },
        Node::Mark(0),
        Node::Repeat { class: CharClass::DigitOrPoint, min: 1, max: usize::MAX, greedy: true },
        Node::Mark(1),
    ];
    let mut u = unit_nodes_exec();
    r.append(&mut u);
    r.push(Node::Mark(2));
    r.push(Node::Repeat { class: CharClass::Exactly('/'), min: 1, max: 1, greedy: true });
    r.push(Node::Repeat { class: CharClass::Exactly('s'), min: 1, max: 1, greedy: true });
    assert(r@ =~= speed_nodes());
    r
}

fn eta_nodes_exec() -> (r: Vec<Node>)
    ensures
        r@ == eta_nodes(),
{
    let r = vec![
        Node::Repeat { class: CharClass::Exactly('E'), min: 1, max: 1, greedy: true },
        Node::Repeat { class: CharClass::Exactly('T'), min: 1, max: 1, greedy: true },
        Node::Repeat { class: CharClass::Exactly('A'), min: 1, max: 1, greedy: true },
        Node::Repeat { class: CharClass::Space, min: 1, max: usize::MAX, greedy: true },
        Node::Mark(0),
        Node::Repeat { class: CharClass::Digit, min: 2, max: 2, greedy: true },
        Node::Repeat { class: CharClass::Exactly(':'), min: 1, max: 1, greedy: true },
        Node::Repeat { class: CharClass::Digit, min: 2, max: 2, greedy: true },
        Node::Mark(1),
    ];
    assert(r@ =~= eta_nodes());
    r
}

/// The text between two capture slots: see [`captured_or`].
fn captured_or_exec(s: &Vec<char>, c: &Vec<usize>, a: usize, b: usize, dflt: &str) -> (r: Vec<char>)
    ensures
        r@ == captured_or(s@, c@, a as int, b as int, dflt@),
{
    if a < c.len() && b < c.len() && c[a] <= c[b] && c[b] <= s.len() {
        slice(s, c[a], c[b])
    } else {
        chars_of(dflt)
    }
}

/// The value and unit letter of a size match: see [`size_value`].
fn size_value_exec(s: &Vec<char>, c: &Vec<usize>) -> (r: Option<(u64, char)>)
    ensures
        r == size_value(s@, c@),
{
    if c.len() == 3 && c[0] <= c[1] && c[1] < s.len() {
        let t = slice(s, c[0], c[1]);
        match decimal_ms_exec(&t) {
            Some(v) => Some((v, s[c[1]])),
            None => None,
        }
    } else {
        None
    }
}

fn unit_kib_exec(letter: char) -> (r: u128)
    ensures
        r == unit_kib(letter),
{
    if letter == 'G' {
        1048576
    } else if letter == 'M' {
        1024
    } else {
        1
    }
}

/// The ratio of two sizes: see [`size_ratio`].
fn size_ratio_exec(a: (u64, char), b: (u64, char)) -> (r: u128)
    ensures
        r == size_ratio(a, b),
{
    let ub = unit_kib_exec(b.1);
    let ua = unit_kib_exec(a.1);
    assert(b.0 * ub <= 0xffff_ffff_ffff_ffff * 1048576) by (nonlinear_arith)
        requires
            b.0 <= 0xffff_ffff_ffff_ffff,
            ub <= 1048576,
    ;
    let den: u128 = b.0 as u128 * ub;
    if den == 0 {
        return 99900;
    }
    assert(a.0 * ua * 100000 <= 0xffff_ffff_ffff_ffff * 1048576 * 100000) by (nonlinear_arith)
        requires
            a.0 <= 0xffff_ffff_ffff_ffff,
            ua <= 1048576,
    ;
    let num: u128 = a.0 as u128 * ua * 100000;
    num / den
}

/// Reads the progress of a yt-dlp `[download]` line: see
/// [`download_line_spec`].
pub fn parse_download_line(line: &str) -> (r: Option<DownloadProgress>)
    ensures
        match download_line_spec(line@) {
            Some((p, d, t, sp, e)) => r matches Some(x) && x.percentage == p && x.downloaded@ == d && x.total@ == t
                && x.speed@ == sp && x.eta@ == e,
            None => r is None,
        },
{
    let s = chars_of(line);
    if !contains_exec(&s, &chars_of("[download]")) || contains_exec(&s, &chars_of("100%")) {
        return None;
    }
    let caps: Vec<usize> = vec![0, 0, 0];
    assert(caps@ =~= no_caps());
    proof {
        reveal_strlit("");
        assert(""@ =~= Seq::<char>::empty());
    }
    let size_pattern = size_nodes_exec();
    let percent_pattern = percent_nodes_exec();
    let sizes = find_all(&size_pattern, &s, &caps);
    let pm = find_all(&percent_pattern, &s, &caps);
    let ghost sz = all_matches(size_nodes(), s@, 0, no_caps());
    let ghost pz = all_matches(percent_nodes(), s@, 0, no_caps());
    assert(sizes@.len() == sz.len());
    assert(pm@.len() == pz.len());
    let pct: u128 = if pm.len() > 0 {
        assert(pm@[0]@ == pz[0]);
        assert(first_match(percent_nodes(), s@) == Some(pz[0]));
        let t = captured_or_exec(&s, &pm[0], 0, 1, "");
        match decimal_ms_exec(&t) {
            Some(v) => v as u128,
            None => return None,
        }
    } else if sizes.len() >= 2 {
        assert(first_match(percent_nodes(), s@) is None);
        assert(sizes@[0]@ == sz[0]);
        assert(sizes@[1]@ == sz[1]);
        match (size_value_exec(&s, &sizes[0]), size_value_exec(&s, &sizes[1])) {
            (Some(a), Some(b)) => size_ratio_exec(a, b),
            _ => return None,
        }
    } else {
        assert(first_match(percent_nodes(), s@) is None);
        return None;
    };
    assert(line_percentage(s@) == Some(pct as nat));
    let speed_pattern = speed_nodes_exec();
    let sm = find_all(&speed_pattern, &s, &caps);
    let ghost spz = all_matches(speed_nodes(), s@, 0, no_caps());
    let speed: Vec<char> = if sm.len() > 0 {
        assert(sm@[0]@ == spz[0]);
        assert(first_match(speed_nodes(), s@) == Some(spz[0]));
        let mut v = captured_or_exec(&s, &sm[0], 0, 1, "");
        push_str(&mut v, " ");
        let u = captured_or_exec(&s, &sm[0], 1, 2, "");
        crate::text::extend(&mut v, &u);
        push_str(&mut v, "/s");
        v
    } else {
        Vec::new()
    };
    let eta_pattern = eta_nodes_exec();
    let em = find_all(&eta_pattern, &s, &caps);
    let ghost ez = all_matches(eta_nodes(), s@, 0, no_caps());
    let eta: Vec<char> = if em.len() > 0 {
        assert(em@[0]@ == ez[0]);
        captured_or_exec(&s, &em[0], 0, 1, "")
    } else {
        Vec::new()
    };
    let (downloaded, total) = if sizes.len() >= 2 {
        assert(sizes@[0]@ == sz[0]);
        assert(sizes@[1]@ == sz[1]);
        (captured_or_exec(&s, &sizes[0], 0, 1, "?"), captured_or_exec(&s, &sizes[1], 0, 1, "?"))
    } else {
        (chars_of("?"), chars_of("?"))
    };
    let percentage: u64 = if pct > 99900 { 99900 } else { pct as u64 };
    proof {
        let spd = match first_match(speed_nodes(), s@) {
            Some(c) => captured_or(s@, c, 0, 1, Seq::empty()) + " "@ + captured_or(s@, c, 1, 2, Seq::empty()) + "/s"@,
            None => Seq::empty(),
        };
        assert(speed@ =~= spd);
    }
    Some(DownloadProgress {
        percentage,
        downloaded: string_of(&downloaded),
        total: string_of(&total),
        speed: string_of(&speed),
        eta: string_of(&eta),
    })
}

} // verus!

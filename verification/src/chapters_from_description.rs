//! Chapters read from a video's description, when its metadata has none.
//!
//! Two line formats are recognised: a track number, a dash, the title and
//! the timestamp in parentheses (`1 - Title (0:00)`); and, when no line has
//! that form, a timestamp (optionally in brackets) followed by an optional
//! separator and the title (`[00:00] - Title`, `00:00 Title`). Timestamps
//! are `M:SS`, `MM:SS` or `H:MM:SS`.

use vstd::prelude::*;
use crate::chapters::{colon_parts, timestamp_seconds, parse_timestamp, Chapter};
use crate::error::YtcsError;
use crate::pattern::{all_matches, find_all, CharClass, Node};
use crate::text::{byte_len, chars_of, owned, slice, string_of, trim, trim_chars, utf8_len};
use crate::utils::{sanitize_title, sanitize_title_spec};

verus! {

/// `\s*`
pub open spec fn spaces() -> Node {
    Node::Repeat { class: CharClass::Space, min: 0, max: usize::MAX, greedy: true }
}

/// One character `c`.
pub open spec fn one(c: char) -> Node {
    Node::Repeat { class: CharClass::Exactly(c), min: 1, max: 1, greedy: true }
}

/// An optional character `c`.
pub open spec fn maybe(c: char) -> Node {
    Node::Repeat { class: CharClass::Exactly(c), min: 0, max: 1, greedy: true }
}

/// The timestamp: one or two digits, a colon, two digits, and optionally a
/// colon and two more digits.
pub open spec fn timestamp_nodes() -> Seq<Node> {
    seq![
        Node::Repeat { class: CharClass::Digit, min: 1, max: 2, greedy: true },
        one(':'),
        Node::Repeat { class: CharClass::Digit, min: 2, max: 2, greedy: true },
        Node::OptSeconds,
    ]
}

/// The classic line: `^\s*\[?(TS)\]?\s*[-–—:]?\s*(.+?)\s*$`, capturing the
/// timestamp in slots 0–1 and the title in slots 2–3.
pub open spec fn classic_pattern() -> Seq<Node> {
    seq![Node::LineStart, spaces(), maybe('['), Node::Mark(0)] + timestamp_nodes() + seq![
        Node::Mark(1),
        maybe(']'),
        spaces(),
        Node::Repeat { class: CharClass::DashOrColon, min: 0, max: 1, greedy: true },
        spaces(),
        Node::Mark(2),
        Node::Repeat { class: CharClass::NotNewline, min: 1, max: usize::MAX, greedy: false },
        Node::Mark(3),
        spaces(),
        Node::LineEnd,
    ]
}

/// The track line: `^\s*(\d+)\s*[-–—]\s*(.+?)\s*\((TS)\)\s*$`, capturing
/// the title in slots 2–3 and the timestamp in slots 4–5.
pub open spec fn track_pattern() -> Seq<Node> {
    seq![
        Node::LineStart,
        spaces(),
        Node::Mark(0),
        Node::Repeat { class: CharClass::Digit, min: 1, max: usize::MAX, greedy: true },
        Node::Mark(1),
        spaces(),
        Node::Repeat { class: CharClass::Dash, min: 1, max: 1, greedy: true },
        spaces(),
        Node::Mark(2),
        Node::Repeat { class: CharClass::NotNewline, min: 1, max: usize::MAX, greedy: false },
        Node::Mark(3),
        spaces(),
        one('('),
        Node::Mark(4),
    ] + timestamp_nodes() + seq![Node::Mark(5), one(')'), spaces(), Node::LineEnd]
}

fn timestamp_vec(v: &mut Vec<Node>)
    ensures
        final(v)@ == old(v)@ + timestamp_nodes(),
{
    v.push(Node::Repeat { class: CharClass::Digit, min: 1, max: 2, greedy: true });
    v.push(Node::Repeat { class: CharClass::Exactly(':'), min: 1, max: 1, greedy: true });
    v.push(Node::Repeat { class: CharClass::Digit, min: 2, max: 2, greedy: true });
    v.push(Node::OptSeconds);
    assert(v@ =~= old(v)@ + timestamp_nodes());
}

fn classic_vec() -> (r: Vec<Node>)
    ensures
        r@ == classic_pattern(),
{
    let sp = Node::Repeat { class: CharClass::Space, min: 0, max: usize::MAX, greedy: true };
    let mut v: Vec<Node> = vec![
        Node::LineStart,
        sp,
        Node::Repeat { class: CharClass::Exactly('['), min: 0, max: 1, greedy: true },
        Node::Mark(0),
    ];
    timestamp_vec(&mut v);
    v.push(Node::Mark(1));
    v.push(Node::Repeat { class: CharClass::Exactly(']'), min: 0, max: 1, greedy: true });
    v.push(sp);
    v.push(Node::Repeat { class: CharClass::DashOrColon, min: 0, max: 1, greedy: true });
    v.push(sp);
    v.push(Node::Mark(2));
    v.push(Node::Repeat { class: CharClass::NotNewline, min: 1, max: usize::MAX, greedy: false });
    v.push(Node::Mark(3));
    v.push(sp);
    v.push(Node::LineEnd);
    assert(v@ =~= classic_pattern());
    v
}

fn track_vec() -> (r: Vec<Node>)
    ensures
        r@ == track_pattern(),
{
    let sp = Node::Repeat { class: CharClass::Space, min: 0, max: usize::MAX, greedy: true };
    let mut v: Vec<Node> = vec![
        Node::LineStart,
        sp,
        Node::Mark(0),
        Node::Repeat { class: CharClass::Digit, min: 1, max: usize::MAX, greedy: true },
        Node::Mark(1),
        sp,
        Node::Repeat { class: CharClass::Dash, min: 1, max: 1, greedy: true },
        sp,
        Node::Mark(2),
        Node::Repeat { class: CharClass::NotNewline, min: 1, max: usize::MAX, greedy: false },
        Node::Mark(3),
        sp,
        Node::Repeat { class: CharClass::Exactly('('), min: 1, max: 1, greedy: true },
        Node::Mark(4),
    ];
    timestamp_vec(&mut v);
    v.push(Node::Mark(5));
    v.push(Node::Repeat { class: CharClass::Exactly(')'), min: 1, max: 1, greedy: true });
    v.push(sp);
    v.push(Node::LineEnd);
    assert(v@ =~= track_pattern());
    v
}

/// What one matched line gives: its start in milliseconds and its cleaned
/// title. Nothing when the trimmed title is shorter than two bytes, the
/// timestamp does not parse, the start is not before the end of the video,
/// or the cleaned title is empty.
pub open spec fn line_entry(s: Seq<char>, caps: Seq<usize>, ts: int, tt: int, duration_ms: nat) -> Option<(u64, Seq<char>)> {
    if !(0 <= ts && 0 <= tt && ts + 1 < caps.len() && tt + 1 < caps.len() && caps[ts] <= caps[ts + 1]
        <= s.len() && caps[tt] <= caps[tt + 1] <= s.len()) {
        None
    } else {
    let stamp = s.subrange(caps[ts] as int, caps[ts + 1] as int);
    let title = trim(s.subrange(caps[tt] as int, caps[tt + 1] as int));
    if title.len() == 0 || utf8_len(title) < 2 {
        None
    } else {
        match timestamp_seconds(colon_parts(stamp, 0)) {
            Ok(secs) => if secs * 1000 < duration_ms && secs <= u64::MAX {
                let clean = sanitize_title_spec(title);
                if clean.len() > 0 {
                    Some(((secs * 1000) as u64, clean))
                } else {
                    None
                }
            } else {
                None
            },
            Err(_) => None,
        }
    }
    }
}

/// The entries of the matched lines, in order.
pub open spec fn line_entries(s: Seq<char>, ms: Seq<Seq<usize>>, ts: int, tt: int, duration_ms: nat) -> Seq<(u64, Seq<char>)>
    decreases ms.len(),
{
    if ms.len() == 0 {
        Seq::empty()
    } else {
        let rest = line_entries(s, ms.drop_last(), ts, tt, duration_ms);
        match line_entry(s, ms.last(), ts, tt, duration_ms) {
            Some(e) => rest.push(e),
            None => rest,
        }
    }
}

/// `x` inserted into the sorted `d` after the leading entries that do not
/// start after it.
pub open spec fn insert_entry(d: Seq<(u64, Seq<char>)>, x: (u64, Seq<char>)) -> Seq<(u64, Seq<char>)> {
    let p = count_not_after_from(d, x.0, 0) as int;
    d.take(p).push(x) + d.skip(p)
}

/// The entries in order of start, entries with the same start keeping
/// their order (a stable sort).
pub open spec fn sort_entries(d: Seq<(u64, Seq<char>)>) -> Seq<(u64, Seq<char>)>
    decreases d.len(),
{
    if d.len() == 0 {
        Seq::empty()
    } else {
        insert_entry(sort_entries(d.drop_last()), d.last())
    }
}

/// The chapters of sorted entries: each ends where the next starts (the
/// last at the end of the video), and only those longer than a second are
/// kept.
pub open spec fn chapters_of(d: Seq<(u64, Seq<char>)>, duration_ms: u64, i: int) -> Seq<(u64, u64, Seq<char>)>
    decreases d.len() - i,
{
    if i < 0 || i >= d.len() {
        Seq::empty()
    } else {
        let start = d[i].0;
        let end = if i + 1 < d.len() { d[i + 1].0 } else { duration_ms };
        let rest = chapters_of(d, duration_ms, i + 1);
        if end > start + 1000 {
            seq![(start, end, d[i].1)] + rest
        } else {
            rest
        }
    }
}

/// The entries read from a description: those of track lines, or, when
/// there are none, those of classic lines.
pub open spec fn description_entries(s: Seq<char>, duration_ms: nat) -> Seq<(u64, Seq<char>)> {
    let caps = Seq::new(6, |_i: int| 0usize);
    let track = line_entries(s, all_matches(track_pattern(), s, 0, caps), 4, 2, duration_ms);
    if track.len() > 0 {
        track
    } else {
        line_entries(s, all_matches(classic_pattern(), s, 0, caps.take(4)), 0, 2, duration_ms)
    }
}

/// The view of a chapter: start, end and title.
pub open spec fn chapter_view(c: Chapter) -> (u64, u64, Seq<char>) {
    (c.start_ms, c.end_ms, c.title@)
}

/// The message when fewer than two lines give chapters.
pub open spec fn not_enough_message() -> Seq<char> {
    "Not enough chapters found in description (need at least 2)"@
}

/// The message when no chapter is longer than a second.
pub open spec fn no_valid_message() -> Seq<char> {
    "No valid chapters found in description"@
}

/// The view of an entry.
pub open spec fn entry_view(e: (u64, String)) -> (u64, Seq<char>) {
    (e.0, e.1@)
}

fn line_entry_exec(s: &Vec<char>, caps: &Vec<usize>, ts: usize, tt: usize, duration_ms: u64) -> (r: Option<(u64, String)>)
    requires
        ts < 100,
        tt < 100,
    ensures
        match line_entry(s@, caps@, ts as int, tt as int, duration_ms as nat) {
            Some(e) => r is Some && entry_view(r->0) == e,
            None => r is None,
        },
{
    if !(ts + 1 < caps.len() && tt + 1 < caps.len() && caps[ts] <= caps[ts + 1] && caps[ts + 1]
        <= s.len() && caps[tt] <= caps[tt + 1] && caps[tt + 1] <= s.len()) {
        return None;
    }
    let stamp = slice(s, caps[ts], caps[ts + 1]);
    let raw = slice(s, caps[tt], caps[tt + 1]);
    let title_v = trim_chars(&raw);
    let title = string_of(&title_v);
    if title_v.len() == 0 || byte_len(title.as_str()) < 2 {
        return None;
    }
    let stamp_s = string_of(&stamp);
    match parse_timestamp(stamp_s.as_str()) {
        Ok(secs) => {
            if secs <= u64::MAX / 1000 && secs * 1000 < duration_ms {
                let clean = sanitize_title(title.as_str());
                if !clean.as_str().is_empty() {
                    Some((secs * 1000, clean))
                } else {
                    None
                }
            } else {
                None
            }
        },
        Err(_) => None,
    }
}

fn entries_exec(s: &Vec<char>, ms: &Vec<Vec<usize>>, ts: usize, tt: usize, duration_ms: u64) -> (r: Vec<(u64, String)>)
    requires
        ts < 100,
        tt < 100,
    ensures
        r@.map_values(|e: (u64, String)| entry_view(e)) == line_entries(
            s@,
            ms@.map_values(|m: Vec<usize>| m@),
            ts as int,
            tt as int,
            duration_ms as nat,
        ),
{
    let ghost mv = ms@.map_values(|m: Vec<usize>| m@);
    let mut out: Vec<(u64, String)> = Vec::new();
    let mut i: usize = 0;
    while i < ms.len()
        invariant
            i <= ms@.len(),
            ts < 100,
            tt < 100,
            mv == ms@.map_values(|m: Vec<usize>| m@),
            out@.map_values(|e: (u64, String)| entry_view(e)) == line_entries(
                s@,
                mv.take(i as int),
                ts as int,
                tt as int,
                duration_ms as nat,
            ),
        decreases ms@.len() - i,
    {
        assert(mv.take(i + 1).drop_last() =~= mv.take(i as int));
        assert(mv.take(i + 1).last() == ms@[i as int]@);
        let ghost before = out@.map_values(|e: (u64, String)| entry_view(e));
        match line_entry_exec(s, &ms[i], ts, tt, duration_ms) {
            Some(e) => {
                out.push(e);
                assert(out@.map_values(|e: (u64, String)| entry_view(e)) =~= before.push(
                    entry_view(out@.last()),
                ));
            },
            None => {},
        }
        i = i + 1;
    }
    assert(mv.take(ms@.len() as int) =~= mv);
    out
}

fn sort_exec(d: Vec<(u64, String)>) -> (r: Vec<(u64, String)>)
    ensures
        r@.map_values(|e: (u64, String)| entry_view(e)) == sort_entries(
            d@.map_values(|e: (u64, String)| entry_view(e)),
        ),
{
    let ghost dv = d@.map_values(|e: (u64, String)| entry_view(e));
    let mut d = d;
    let mut out: Vec<(u64, String)> = Vec::new();
    let n = d.len();
    let mut i: usize = 0;
    while i < n
        invariant
            i <= n,
            n == dv.len(),
            d@.len() == n - i,
            forall|k: int| 0 <= k < n - i ==> entry_view(#[trigger] d@[k]) == dv[i + k],
            out@.map_values(|e: (u64, String)| entry_view(e)) == sort_entries(dv.take(i as int)),
        decreases n - i,
    {
        let x = d.remove(0);
        let ghost ov = out@.map_values(|e: (u64, String)| entry_view(e));
        let mut p: usize = 0;
        while p < out.len() && out[p].0 <= x.0
            invariant
                p <= out@.len(),
                ov == out@.map_values(|e: (u64, String)| entry_view(e)),
                count_not_after_from(ov, x.0, 0) == p + count_not_after_from(ov, x.0, p as int),
            decreases out@.len() - p,
        {
            p = p + 1;
        }
        proof {
            lemma_count_from_stop(ov, x.0, p as int);
            assert(dv.take(i + 1).drop_last() =~= dv.take(i as int));
            assert(dv.take(i + 1).last() == entry_view(x));
        }
        out.insert(p, x);
        proof {
            assert(out@.map_values(|e: (u64, String)| entry_view(e)) =~= ov.take(p as int).push(
                entry_view(x),
            ) + ov.skip(p as int));
        }
        i = i + 1;
    }
    assert(dv.take(n as int) =~= dv);
    out
}

/// The number of entries from position `p` on whose start is at most `k`,
/// counted while they stay at most `k`.
pub open spec fn count_not_after_from(d: Seq<(u64, Seq<char>)>, k: u64, p: int) -> nat
    decreases d.len() - p,
{
    if p < 0 || p >= d.len() || d[p].0 > k {
        0
    } else {
        1 + count_not_after_from(d, k, p + 1)
    }
}

proof fn lemma_count_from_stop(d: Seq<(u64, Seq<char>)>, k: u64, p: int)
    requires
        0 <= p <= d.len(),
        p == d.len() || d[p].0 > k,
    ensures
        count_not_after_from(d, k, p) == 0,
{
}

fn chapters_exec(d: &Vec<(u64, String)>, duration_ms: u64) -> (r: Vec<Chapter>)
    ensures
        r@.map_values(|c: Chapter| chapter_view(c)) == chapters_of(
            d@.map_values(|e: (u64, String)| entry_view(e)),
            duration_ms,
            0,
        ),
        forall|k: int| 0 <= k < r@.len() ==> (#[trigger] r@[k]).end_ms > r@[k].start_ms,
{
    let ghost dv = d@.map_values(|e: (u64, String)| entry_view(e));
    let n = d.len();
    let mut out: Vec<Chapter> = Vec::new();
    let mut i: usize = n;
    while i > 0
        invariant
            i <= n,
            n == d@.len(),
            dv == d@.map_values(|e: (u64, String)| entry_view(e)),
            out@.map_values(|c: Chapter| chapter_view(c)) == chapters_of(dv, duration_ms, i as int),
            forall|k: int| 0 <= k < out@.len() ==> (#[trigger] out@[k]).end_ms > out@[k].start_ms,
        decreases i,
    {
        let k = i - 1;
        let start = d[k].0;
        let end = if k + 1 < n { d[k + 1].0 } else { duration_ms };
        if start < u64::MAX - 1000 && end > start + 1000 {
            let c = Chapter::new(owned(d[k].1.as_str()), start, end);
            let ghost before = out@.map_values(|c: Chapter| chapter_view(c));
            out.insert(0, c);
            assert(out@.map_values(|c: Chapter| chapter_view(c)) =~= seq![chapter_view(out@[0])]
                + before);
        }
        i = k;
    }
    out
}

/// Reads chapters from a video's description; `duration_ms` is the video's
/// length (rounded up to whole milliseconds).
///
/// The lines give entries (see [`description_entries`]); with fewer than
/// two the result is an error. The entries are sorted by start (see
/// [`sort_entries`]) and become the chapters longer than a second (see
/// [`chapters_of`]); when there is none the result is an error.
pub fn parse_chapters_from_description(description: &str, duration_ms: u64) -> (r: Result<Vec<Chapter>, YtcsError>)
    ensures
        ({
            let d = description_entries(description@, duration_ms as nat);
            let cs = chapters_of(sort_entries(d), duration_ms, 0);
            if d.len() < 2 {
                r is Err && r->Err_0 is ChapterError && r->Err_0->ChapterError_0@ == not_enough_message()
            } else if cs.len() == 0 {
                r is Err && r->Err_0 is ChapterError && r->Err_0->ChapterError_0@ == no_valid_message()
            } else {
                r is Ok && r->Ok_0@.map_values(|c: Chapter| chapter_view(c)) == cs
            }
        }),
{
    let s = chars_of(description);
    let caps6: Vec<usize> = vec![0, 0, 0, 0, 0, 0];
    let caps4: Vec<usize> = vec![0, 0, 0, 0];
    proof {
        assert(caps6@ =~= Seq::new(6, |_i: int| 0usize));
        assert(caps4@ =~= Seq::new(6, |_i: int| 0usize).take(4));
    }
    let tp = track_vec();
    let tm = find_all(&tp, &s, &caps6);
    proof {
        assert(tm@.map_values(|m: Vec<usize>| m@) =~= all_matches(track_pattern(), s@, 0, caps6@));
    }
    let track = entries_exec(&s, &tm, 4, 2, duration_ms);
    let data = if track.len() > 0 {
        track
    } else {
        let cp = classic_vec();
        let cm = find_all(&cp, &s, &caps4);
        proof {
            assert(cm@.map_values(|m: Vec<usize>| m@) =~= all_matches(classic_pattern(), s@, 0, caps4@));
        }
        entries_exec(&s, &cm, 0, 2, duration_ms)
    };
    if data.len() < 2 {
        return Err(YtcsError::ChapterError(owned("Not enough chapters found in description (need at least 2)")));
    }
    let sorted = sort_exec(data);
    let chapters = chapters_exec(&sorted, duration_ms);
    if chapters.len() == 0 {
        return Err(YtcsError::ChapterError(owned("No valid chapters found in description")));
    }
    Ok(chapters)
}

/// The entries are in order of start.
pub open spec fn entries_sorted(d: Seq<(u64, Seq<char>)>) -> bool {
    forall|i: int, j: int| 0 <= i < j < d.len() ==> d[i].0 <= d[j].0
}

/// The entries counted from `p` start at most at `k`; the one after them,
/// if any, starts after `k`.
proof fn lemma_count_run(d: Seq<(u64, Seq<char>)>, k: u64, p: int)
    requires
        0 <= p <= d.len(),
    ensures
        p + count_not_after_from(d, k, p) <= d.len(),
        forall|i: int| p <= i < p + count_not_after_from(d, k, p) ==> d[i].0 <= k,
        p + count_not_after_from(d, k, p) < d.len() ==> d[p + count_not_after_from(d, k, p)].0 > k,
    decreases d.len() - p,
{
    if p < d.len() && d[p].0 <= k {
        lemma_count_run(d, k, p + 1);
    }
}

/// Inserting an entry into sorted entries keeps them sorted.
proof fn lemma_insert_sorted(d: Seq<(u64, Seq<char>)>, x: (u64, Seq<char>))
    requires
        entries_sorted(d),
    ensures
        entries_sorted(insert_entry(d, x)),
        insert_entry(d, x).len() == d.len() + 1,
{
    lemma_count_run(d, x.0, 0);
    let p = count_not_after_from(d, x.0, 0) as int;
    let r = insert_entry(d, x);
    assert(r.len() == d.len() + 1);
    assert forall|i: int, j: int| 0 <= i < j < r.len() implies r[i].0 <= r[j].0 by {
        if j < p {
            assert(r[i] == d[i] && r[j] == d[j]);
        } else if j == p {
            assert(r[j] == x);
            assert(r[i] == d[i]);
        } else if i < p {
            assert(r[i] == d[i]);
            assert(r[j] == d[j - 1]);
            assert(d[i].0 <= x.0);
            if p < d.len() {
                assert(d[p].0 > x.0);
            }
        } else if i == p {
            assert(r[i] == x);
            assert(r[j] == d[j - 1]);
            assert(d[p].0 > x.0);
        } else {
            assert(r[i] == d[i - 1] && r[j] == d[j - 1]);
        }
    }
}

/// The sorted entries are in order of start.
pub proof fn lemma_sort_sorted(d: Seq<(u64, Seq<char>)>)
    ensures
        entries_sorted(sort_entries(d)),
        sort_entries(d).len() == d.len(),
    decreases d.len(),
{
    if d.len() > 0 {
        lemma_sort_sorted(d.drop_last());
        lemma_insert_sorted(sort_entries(d.drop_last()), d.last());
    }
}

/// The chapters of sorted entries from `i` on: each longer than a second,
/// none starting before entry `i`, and each ending before the next starts.
proof fn lemma_chapters_of_ordered(d: Seq<(u64, Seq<char>)>, dur: u64, i: int)
    requires
        entries_sorted(d),
        0 <= i,
    ensures
        ({
            let cs = chapters_of(d, dur, i);
            &&& forall|a: int| 0 <= a < cs.len() ==> (#[trigger] cs[a]).1 > cs[a].0 + 1000
            &&& i < d.len() ==> forall|a: int| 0 <= a < cs.len() ==> (#[trigger] cs[a]).0 >= d[i].0
            &&& forall|a: int, b: int| 0 <= a < b < cs.len() ==> cs[a].1 <= cs[b].0
        }),
    decreases d.len() - i,
{
    if i < d.len() {
        lemma_chapters_of_ordered(d, dur, i + 1);
        let cs = chapters_of(d, dur, i);
        let rest = chapters_of(d, dur, i + 1);
        let start = d[i].0;
        let end = if i + 1 < d.len() { d[i + 1].0 } else { dur };
        if end > start + 1000 {
            assert(cs == seq![(start, end, d[i].1)] + rest);
            if i + 1 < d.len() {
                assert(d[i].0 <= d[i + 1].0);
            } else {
                assert(rest.len() == 0);
            }
            assert forall|a: int, b: int| 0 <= a < b < cs.len() implies cs[a].1 <= cs[b].0 by {
                if a == 0 {
                    assert(cs[b] == rest[b - 1]);
                } else {
                    assert(cs[a] == rest[a - 1] && cs[b] == rest[b - 1]);
                }
            }
            assert forall|a: int| 0 <= a < cs.len() implies (#[trigger] cs[a]).0 >= d[i].0 by {
                if a > 0 {
                    assert(cs[a] == rest[a - 1]);
                }
            }
            assert forall|a: int| 0 <= a < cs.len() implies (#[trigger] cs[a]).1 > cs[a].0 + 1000 by {
                if a > 0 {
                    assert(cs[a] == rest[a - 1]);
                }
            }
        } else {
            if i + 1 < d.len() {
                assert(d[i].0 <= d[i + 1].0);
            }
        }
    }
}

/// The chapters read from a description are in order: each lasts more
/// than a second and ends no later than the next one starts.
pub proof fn lemma_description_chapters_in_order(description: Seq<char>, duration_ms: u64)
    ensures
        ({
            let cs = chapters_of(sort_entries(description_entries(description, duration_ms as nat)), duration_ms, 0);
            &&& forall|a: int| 0 <= a < cs.len() ==> (#[trigger] cs[a]).1 > cs[a].0 + 1000
            &&& forall|a: int, b: int| 0 <= a < b < cs.len() ==> cs[a].1 <= cs[b].0
        }),
{
    let d = sort_entries(description_entries(description, duration_ms as nat));
    lemma_sort_sorted(description_entries(description, duration_ms as nat));
    lemma_chapters_of_ordered(d, duration_ms, 0);
}

/// Where the chapter of entry `k` of sorted entries ends: where the next
/// entry starts, or at the end of the video for the last one.
pub open spec fn entry_end(d: Seq<(u64, Seq<char>)>, duration_ms: u64, k: int) -> u64 {
    if k + 1 < d.len() {
        d[k + 1].0
    } else {
        duration_ms
    }
}

/// No entry is lost but a short one: every entry from `i` on whose chapter
/// (from its start to [`entry_end`]) lasts more than a second gives that
/// chapter, with its title; and every chapter is that of such an entry.
pub proof fn lemma_chapters_keep_long_entries(d: Seq<(u64, Seq<char>)>, duration_ms: u64, i: int)
    requires
        0 <= i,
    ensures
        forall|k: int|
            #![trigger entry_end(d, duration_ms, k)]
            i <= k < d.len() && entry_end(d, duration_ms, k) > d[k].0 + 1000 ==> chapters_of(
                d,
                duration_ms,
                i,
            ).contains((d[k].0, entry_end(d, duration_ms, k), d[k].1)),
        forall|a: int|
            #![trigger chapters_of(d, duration_ms, i)[a]]
            0 <= a < chapters_of(d, duration_ms, i).len() ==> exists|k: int|
                #![trigger entry_end(d, duration_ms, k)]
                i <= k < d.len() && entry_end(d, duration_ms, k) > d[k].0 + 1000 && chapters_of(
                    d,
                    duration_ms,
                    i,
                )[a] == (d[k].0, entry_end(d, duration_ms, k), d[k].1),
    decreases d.len() - i,
{
    if i < d.len() {
        lemma_chapters_keep_long_entries(d, duration_ms, i + 1);
        let rest = chapters_of(d, duration_ms, i + 1);
        let x = (d[i].0, entry_end(d, duration_ms, i), d[i].1);
        let long = entry_end(d, duration_ms, i) > d[i].0 + 1000;
        if long {
            assert(chapters_of(d, duration_ms, i) == seq![x] + rest);
        } else {
            assert(chapters_of(d, duration_ms, i) == rest);
        }
        let cs = chapters_of(d, duration_ms, i);
        assert forall|k: int|
            #![trigger entry_end(d, duration_ms, k)]
            i <= k < d.len() && entry_end(d, duration_ms, k) > d[k].0 + 1000 implies cs.contains(
            (d[k].0, entry_end(d, duration_ms, k), d[k].1),
        ) by {
            if k == i {
                assert(cs[0] == x);
            } else {
                let y = (d[k].0, entry_end(d, duration_ms, k), d[k].1);
                assert(rest.contains(y));
                let idx = choose|idx: int| 0 <= idx < rest.len() && rest[idx] == y;
                if long {
                    assert(cs[idx + 1] == y);
                } else {
                    assert(cs[idx] == y);
                }
            }
        }
        assert forall|a: int| #![trigger chapters_of(d, duration_ms, i)[a]]
            0 <= a < chapters_of(d, duration_ms, i).len() implies exists|k: int|
                #![trigger entry_end(d, duration_ms, k)]
                i <= k < d.len() && entry_end(d, duration_ms, k) > d[k].0 + 1000
                    && chapters_of(d, duration_ms, i)[a] == (d[k].0, entry_end(d, duration_ms, k), d[k].1) by {
            if long && a == 0 {
                assert(cs[0] == x);
                assert(entry_end(d, duration_ms, i) > d[i].0 + 1000);
            } else {
                let j = if long { a - 1 } else { a };
                assert(cs[a] == rest[j]);
                assert(0 <= j < rest.len());
                let k = choose|k: int|
                    #![trigger entry_end(d, duration_ms, k)]
                    i + 1 <= k < d.len() && entry_end(d, duration_ms, k) > d[k].0 + 1000 && rest[j] == (
                        d[k].0,
                        entry_end(d, duration_ms, k),
                        d[k].1,
                    );
                assert(i <= k && entry_end(d, duration_ms, k) > d[k].0 + 1000);
            }
        }
    }
}

/// Every entry read from a description whose chapter lasts more than a
/// second is a chapter of the result (see [`lemma_chapters_keep_long_entries`]).
pub proof fn lemma_description_keeps_long_entries(description: Seq<char>, duration_ms: u64)
    ensures
        ({
            let d = sort_entries(description_entries(description, duration_ms as nat));
            let cs = chapters_of(d, duration_ms, 0);
            forall|k: int|
                #![trigger entry_end(d, duration_ms, k)]
                0 <= k < d.len() && entry_end(d, duration_ms, k) > d[k].0 + 1000 ==> cs.contains(
                    (d[k].0, entry_end(d, duration_ms, k), d[k].1),
                )
        }),
{
    let d = sort_entries(description_entries(description, duration_ms as nat));
    lemma_chapters_keep_long_entries(d, duration_ms, 0);
}

} // verus!

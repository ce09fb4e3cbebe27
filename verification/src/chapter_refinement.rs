//! Chapter refinement by silence detection: the declared cut between two
//! chapters moves to the nearest silence within a window.
//!
//! Each cut is a single boundary shared by the chapter before it and the
//! one after it, so refinement never opens a gap or an overlap; the first
//! start and the last end never move. Times are in milliseconds.

use vstd::prelude::*;
use crate::chapters::Chapter;
use crate::text::owned;

verus! {

/// Smallest distance kept between two adjacent boundaries, in
/// milliseconds.
pub const MIN_BOUNDARY_GAP_MS: u64 = 50;

/// A detected silence, by the position of its middle.
#[derive(Debug, Clone, Copy, PartialEq, Eq, Structural)]
pub struct SilencePoint {
    pub position_ms: u64,
}

impl SilencePoint {
    /// The silence from `start_ms` to `end_ms`, placed at its middle
    /// (rounded down to the millisecond).
    pub fn new(start_ms: u64, end_ms: u64) -> (r: Self)
        ensures
            r.position_ms == (start_ms + end_ms) / 2,
    {
        let p: u128 = ((start_ms as u128) + (end_ms as u128)) / 2;
        SilencePoint { position_ms: p as u64 }
    }
}

/// The distance between two times.
pub open spec fn distance(a: int, b: int) -> int {
    if a >= b { a - b } else { b - a }
}

/// The first silence, from position `i` on, among those within `window`
/// of `target` and closest to it; `best` is the closest found before `i`.
pub open spec fn nearest_from(s: Seq<SilencePoint>, target: int, window: int, i: int, best: Option<int>) -> Option<int>
    decreases s.len() - i,
{
    if i < 0 || i >= s.len() {
        best
    } else {
        let p = s[i].position_ms as int;
        let better = distance(p, target) <= window && match best {
            Some(b) => distance(p, target) < distance(b, target),
            None => true,
        };
        nearest_from(s, target, window, i + 1, if better { Some(p) } else { best })
    }
}

/// The position of the silence nearest to `target` within `window` (the
/// first of several equally near), if there is one.
pub open spec fn nearest_silence(s: Seq<SilencePoint>, target: int, window: int) -> Option<int> {
    nearest_from(s, target, window, 0, None)
}

/// The nearest silence is within the window and no silence within it is
/// nearer.
pub proof fn lemma_nearest_is_nearest(s: Seq<SilencePoint>, target: int, window: int, i: int, best: Option<int>)
    requires
        0 <= i <= s.len(),
        match best {
            Some(b) => distance(b, target) <= window && forall|k: int|
                0 <= k < i && distance(s[k].position_ms as int, target) <= window ==> distance(b, target)
                    <= distance(#[trigger] s[k].position_ms as int, target),
            None => forall|k: int| 0 <= k < i ==> distance(#[trigger] s[k].position_ms as int, target) > window,
        },
    ensures
        match nearest_from(s, target, window, i, best) {
            Some(b) => distance(b, target) <= window && forall|k: int|
                0 <= k < s.len() && distance(s[k].position_ms as int, target) <= window ==> distance(b, target)
                    <= distance(#[trigger] s[k].position_ms as int, target),
            None => forall|k: int| 0 <= k < s.len() ==> distance(#[trigger] s[k].position_ms as int, target) > window,
        },
    decreases s.len() - i,
{
    if i < s.len() {
        let p = s[i].position_ms as int;
        let better = distance(p, target) <= window && match best {
            Some(b) => distance(p, target) < distance(b, target),
            None => true,
        };
        lemma_nearest_is_nearest(s, target, window, i + 1, if better { Some(p) } else { best });
    }
}

/// Finds the silence nearest to `target_ms` within `window_ms`: see
/// [`nearest_silence`].
pub fn find_nearest_silence(silences: &Vec<SilencePoint>, target_ms: u64, window_ms: u64) -> (r: Option<u64>)
    ensures
        match nearest_silence(silences@, target_ms as int, window_ms as int) {
            Some(p) => r == Some(p as u64),
            None => r is None,
        },
{
    let mut best: Option<u64> = None;
    let mut i: usize = 0;
    while i < silences.len()
        invariant
            i <= silences@.len(),
            nearest_silence(silences@, target_ms as int, window_ms as int) == nearest_from(
                silences@,
                target_ms as int,
                window_ms as int,
                i as int,
                match best {
                    Some(b) => Some(b as int),
                    None => None,
                },
            ),
        decreases silences@.len() - i,
    {
        let p = silences[i].position_ms;
        let d = if p >= target_ms { p - target_ms } else { target_ms - p };
        let better = d <= window_ms && match best {
            Some(b) => {
                let db = if b >= target_ms { b - target_ms } else { target_ms - b };
                d < db
            },
            None => true,
        };
        if better {
            best = Some(p);
        }
        i = i + 1;
    }
    best
}

/// The declared cut before chapter `i`: the middle of the previous end and
/// this start (rounded down).
pub open spec fn declared_cut(c: Seq<Chapter>, i: int) -> int {
    (c[i - 1].end_ms + c[i].start_ms) / 2
}

/// The cut before chapter `i` snapped to the nearest silence, or left
/// where it was declared.
pub open spec fn snapped_cut(c: Seq<Chapter>, s: Seq<SilencePoint>, window: int, i: int) -> int {
    match nearest_silence(s, declared_cut(c, i), window) {
        Some(p) => p,
        None => declared_cut(c, i),
    }
}

/// The boundaries after the forward pass, up to `i`: each interior cut is
/// pushed to at least the gap after the previous one.
pub open spec fn forward(c: Seq<Chapter>, s: Seq<SilencePoint>, window: int, i: int) -> int
    decreases i,
{
    if i <= 0 {
        c[0].start_ms as int
    } else {
        let prev = forward(c, s, window, i - 1);
        let snapped = snapped_cut(c, s, window, i);
        if snapped < prev + MIN_BOUNDARY_GAP_MS {
            prev + MIN_BOUNDARY_GAP_MS
        } else {
            snapped
        }
    }
}

/// The boundaries after the backward pass, from `i` up: each interior cut
/// is pulled to at most the gap before the next one; the last boundary is
/// the last chapter's end.
pub open spec fn backward(c: Seq<Chapter>, s: Seq<SilencePoint>, window: int, i: int) -> int
    decreases c.len() - i,
{
    let n = c.len() as int;
    if i >= n {
        c[n - 1].end_ms as int
    } else {
        let next = backward(c, s, window, i + 1);
        let f = forward(c, s, window, i);
        if f > next - MIN_BOUNDARY_GAP_MS {
            next - MIN_BOUNDARY_GAP_MS
        } else {
            f
        }
    }
}

/// The `n + 1` boundaries of `n` chapters: the first start, the interior
/// cuts snapped and spaced, the last end.
pub open spec fn refined_boundary(c: Seq<Chapter>, s: Seq<SilencePoint>, window: int, i: int) -> int {
    if i == 0 {
        c[0].start_ms as int
    } else {
        backward(c, s, window, i)
    }
}

/// Every boundary lies after the one before it.
pub open spec fn strictly_increasing(c: Seq<Chapter>, s: Seq<SilencePoint>, window: int) -> bool {
    forall|i: int|
        0 < i <= c.len() ==> refined_boundary(c, s, window, i - 1) < #[trigger] refined_boundary(
            c,
            s,
            window,
            i,
        )
}

/// A bound on times that keeps the arithmetic in range.
pub open spec fn time_bound() -> int {
    0x4000_0000_0000_0000
}

/// The chapters and silences keep to [`time_bound`], with fewer than 2^32
/// chapters.
pub open spec fn within_bounds(c: Seq<Chapter>, s: Seq<SilencePoint>) -> bool {
    &&& c.len() < 0x1_0000_0000
    &&& forall|i: int| 0 <= i < c.len() ==> (#[trigger] c[i]).end_ms < time_bound() && c[i].start_ms < time_bound()
    &&& forall|i: int| 0 <= i < s.len() ==> (#[trigger] s[i]).position_ms < time_bound()
}

proof fn lemma_nearest_in(s: Seq<SilencePoint>, target: int, window: int, i: int, best: Option<int>)
    requires
        forall|k: int| 0 <= k < s.len() ==> (#[trigger] s[k]).position_ms < time_bound(),
        match best {
            Some(b) => 0 <= b < time_bound(),
            None => true,
        },
    ensures
        match nearest_from(s, target, window, i, best) {
            Some(b) => 0 <= b < time_bound(),
            None => true,
        },
    decreases s.len() - i,
{
    if 0 <= i < s.len() {
        let p = s[i].position_ms as int;
        let better = distance(p, target) <= window && match best {
            Some(b) => distance(p, target) < distance(b, target),
            None => true,
        };
        lemma_nearest_in(s, target, window, i + 1, if better { Some(p) } else { best });
    }
}

proof fn lemma_forward_bounds(c: Seq<Chapter>, s: Seq<SilencePoint>, window: int, i: int)
    requires
        within_bounds(c, s),
        0 <= i < c.len(),
    ensures
        0 <= forward(c, s, window, i) <= time_bound() + MIN_BOUNDARY_GAP_MS * i,
    decreases i,
{
    if i > 0 {
        lemma_forward_bounds(c, s, window, i - 1);
        lemma_nearest_in(s, declared_cut(c, i), window, 0, None);
    }
}

/// Computes the boundaries: see [`refined_boundary`]. The span must leave
/// room for them to increase strictly.
pub fn compute_refined_boundaries(chapters: &Vec<Chapter>, silences: &Vec<SilencePoint>, window_ms: u64) -> (r: Vec<u64>)
    requires
        chapters@.len() > 0,
        within_bounds(chapters@, silences@),
        strictly_increasing(chapters@, silences@, window_ms as int),
    ensures
        r@.len() == chapters@.len() + 1,
        forall|i: int| 0 <= i <= chapters@.len() ==> r@[i] == refined_boundary(chapters@, silences@, window_ms as int, i),
{
    let ghost c = chapters@;
    let ghost s = silences@;
    let ghost w = window_ms as int;
    let n = chapters.len();
    let mut b: Vec<u64> = Vec::new();
    b.push(chapters[0].start_ms);
    let mut i: usize = 1;
    while i < n
        invariant
            1 <= i <= n,
            n == c.len(),
            c == chapters@,
            s == silences@,
            w == window_ms as int,
            within_bounds(c, s),
            b@.len() == i,
            forall|k: int| 0 <= k < i ==> b@[k] == forward(c, s, w, k),
        decreases n - i,
    {
        proof {
            lemma_forward_bounds(c, s, w, i as int);
            lemma_forward_bounds(c, s, w, i - 1);
            lemma_nearest_in(s, declared_cut(c, i as int), w, 0, None);
        }
        let target = (chapters[i - 1].end_ms + chapters[i].start_ms) / 2;
        let snapped = match find_nearest_silence(silences, target, window_ms) {
            Some(p) => p,
            None => target,
        };
        let prev = b[i - 1];
        let v = if snapped < prev + MIN_BOUNDARY_GAP_MS { prev + MIN_BOUNDARY_GAP_MS } else { snapped };
        b.push(v);
        i = i + 1;
    }
    b.push(chapters[n - 1].end_ms);
    let mut j: usize = n;
    while j > 1
        invariant
            1 <= j <= n,
            n == c.len(),
            c == chapters@,
            s == silences@,
            w == window_ms as int,
            within_bounds(c, s),
            strictly_increasing(c, s, w),
            b@.len() == n + 1,
            b@[0] == c[0].start_ms,
            forall|k: int| 1 <= k < j ==> b@[k] == forward(c, s, w, k),
            forall|k: int| j <= k <= n ==> b@[k] == backward(c, s, w, k),
        decreases j,
    {
        let k = j - 1;
        proof {
            lemma_forward_bounds(c, s, w, k as int);
            assert(refined_boundary(c, s, w, k as int) < refined_boundary(c, s, w, k + 1));
            assert(refined_boundary(c, s, w, k as int) == backward(c, s, w, k as int));
            if k + 1 <= n {
                assert(b@[k + 1] == backward(c, s, w, k + 1));
            }
        }
        let next = b[k + 1];
        if next < MIN_BOUNDARY_GAP_MS || b[k] > next - MIN_BOUNDARY_GAP_MS {
            proof {
                assert(refined_boundary(c, s, w, k - 1) < refined_boundary(c, s, w, k as int));
                assert(refined_boundary(c, s, w, k - 1) >= 0) by {
                    if k - 1 == 0 {
                    } else {
                        lemma_backward_bounds_below(c, s, w, k - 1);
                    }
                };
            }
            b.set(k, next - MIN_BOUNDARY_GAP_MS);
        }
        j = k;
    }
    b
}

proof fn lemma_backward_bounds_below(c: Seq<Chapter>, s: Seq<SilencePoint>, w: int, i: int)
    requires
        strictly_increasing(c, s, w),
        1 <= i <= c.len(),
    ensures
        backward(c, s, w, i) > c[0].start_ms,
    decreases i,
{
    assert(refined_boundary(c, s, w, i - 1) < refined_boundary(c, s, w, i));
    if i > 1 {
        lemma_backward_bounds_below(c, s, w, i - 1);
    }
}

/// The forward pass moves each interior cut at least the gap past the one
/// before: its cuts grow by the gap at least at each step.
proof fn lemma_forward_grows(c: Seq<Chapter>, s: Seq<SilencePoint>, w: int, i: int)
    requires
        c.len() > 0,
        0 <= i < c.len(),
    ensures
        forward(c, s, w, i) >= c[0].start_ms + MIN_BOUNDARY_GAP_MS * i,
    decreases i,
{
    if i > 0 {
        lemma_forward_grows(c, s, w, i - 1);
    }
}

/// A boundary after the backward pass is the forward cut or lies the
/// gap below the next boundary, whichever is lower.
proof fn lemma_backward_below_next(c: Seq<Chapter>, s: Seq<SilencePoint>, w: int, i: int)
    requires
        c.len() > 0,
        1 <= i < c.len(),
    ensures
        backward(c, s, w, i) <= backward(c, s, w, i + 1) - MIN_BOUNDARY_GAP_MS,
{
}

/// From `i` on, a boundary is at least the lower of its forward cut and the
/// last end less the gaps that remain.
proof fn lemma_backward_floor(c: Seq<Chapter>, s: Seq<SilencePoint>, w: int, i: int)
    requires
        c.len() > 0,
        1 <= i <= c.len(),
    ensures
        i < c.len() ==> backward(c, s, w, i) >= (if forward(c, s, w, i) <= c[c.len() - 1].end_ms
            - MIN_BOUNDARY_GAP_MS * (c.len() - i) {
            forward(c, s, w, i)
        } else {
            c[c.len() - 1].end_ms - MIN_BOUNDARY_GAP_MS * (c.len() - i)
        }),
        i == c.len() ==> backward(c, s, w, i) == c[c.len() - 1].end_ms,
    decreases c.len() - i,
{
    if i < c.len() {
        lemma_backward_floor(c, s, w, i + 1);
    }
}

/// Refinement keeps the first start and the last end of the chapters: the
/// first boundary is the first chapter's start, the last is the last
/// chapter's end.
pub proof fn lemma_outer_edges_fixed(c: Seq<Chapter>, s: Seq<SilencePoint>, window: int)
    requires
        c.len() > 0,
    ensures
        refined_boundary(c, s, window, 0) == c[0].start_ms,
        refined_boundary(c, s, window, c.len() as int) == c[c.len() - 1].end_ms,
{
}

/// When the chapters span more than the minimum gap for each interior
/// cut (from the first start to the last end), the refined boundaries
/// increase strictly, wherever the silences lie.
pub proof fn lemma_spacing_gives_increase(c: Seq<Chapter>, s: Seq<SilencePoint>, window: int)
    requires
        c.len() > 0,
        c[c.len() - 1].end_ms - c[0].start_ms > MIN_BOUNDARY_GAP_MS * (c.len() - 1),
    ensures
        strictly_increasing(c, s, window),
{
    let n = c.len() as int;
    assert forall|i: int| 0 < i <= n implies refined_boundary(c, s, window, i - 1) < #[trigger] refined_boundary(
        c,
        s,
        window,
        i,
    ) by {
        if i == 1 {
            lemma_backward_floor(c, s, window, 1);
            if n > 1 {
                lemma_forward_grows(c, s, window, 1);
                assert(MIN_BOUNDARY_GAP_MS * (n - 1) >= 0) by (nonlinear_arith)
                    requires
                        n >= 1,
                ;
            }
        } else {
            lemma_backward_below_next(c, s, window, i - 1);
        }
    }
}

/// A copy of the chapters with their titles kept and the times set to the
/// given boundaries: chapter `i` runs from `b[i]` to `b[i + 1]`.
pub open spec fn with_boundaries(c: Seq<Chapter>, b: Seq<u64>, r: Seq<Chapter>) -> bool {
    &&& r.len() == c.len()
    &&& forall|i: int|
        0 <= i < c.len() ==> (#[trigger] r[i]).title@ == c[i].title@ && r[i].start_ms == b[i] && r[i].end_ms == b[
            i + 1]
}

/// The refined chapters: with no chapters, none; with no silences, the
/// chapters as they are; else each chapter between its two refined
/// boundaries (see [`refined_boundary`]), so that each chapter ends where
/// the next starts. The boundaries must increase strictly (see
/// [`lemma_spacing_gives_increase`] for a sufficient spacing).
pub fn refine_chapters_with_silence(chapters: &Vec<Chapter>, silences: &Vec<SilencePoint>, window_ms: u64) -> (r: Vec<Chapter>)
    requires
        within_bounds(chapters@, silences@),
        chapters@.len() > 0 && silences@.len() > 0 ==> strictly_increasing(chapters@, silences@, window_ms as int),
    ensures
        r@.len() == chapters@.len(),
        silences@.len() == 0 ==> forall|i: int|
            0 <= i < chapters@.len() ==> (#[trigger] r@[i]).title@ == chapters@[i].title@ && r@[i].start_ms
                == chapters@[i].start_ms && r@[i].end_ms == chapters@[i].end_ms,
        silences@.len() > 0 ==> forall|i: int|
            0 <= i < chapters@.len() ==> (#[trigger] r@[i]).title@ == chapters@[i].title@ && r@[i].start_ms
                == refined_boundary(chapters@, silences@, window_ms as int, i) && r@[i].end_ms == refined_boundary(
                chapters@,
                silences@,
                window_ms as int,
                i + 1,
            ),
{
    let mut out: Vec<Chapter> = Vec::new();
    if chapters.len() == 0 {
        return out;
    }
    if silences.len() == 0 {
        let mut i: usize = 0;
        while i < chapters.len()
            invariant
                i <= chapters@.len(),
                out@.len() == i,
                forall|k: int|
                    0 <= k < i ==> (#[trigger] out@[k]).title@ == chapters@[k].title@ && out@[k].start_ms
                        == chapters@[k].start_ms && out@[k].end_ms == chapters@[k].end_ms,
            decreases chapters@.len() - i,
        {
            let c = &chapters[i];
            out.push(Chapter { title: owned(c.title.as_str()), start_ms: c.start_ms, end_ms: c.end_ms });
            i = i + 1;
        }
        return out;
    }
    let b = compute_refined_boundaries(chapters, silences, window_ms);
    let mut i: usize = 0;
    while i < chapters.len()
        invariant
            i <= chapters@.len(),
            chapters@.len() > 0,
            silences@.len() > 0,
            b@.len() == chapters@.len() + 1,
            forall|k: int|
                0 <= k <= chapters@.len() ==> b@[k] == refined_boundary(chapters@, silences@, window_ms as int, k),
            strictly_increasing(chapters@, silences@, window_ms as int),
            out@.len() == i,
            forall|k: int|
                0 <= k < i ==> (#[trigger] out@[k]).title@ == chapters@[k].title@ && out@[k].start_ms == b@[k]
                    && out@[k].end_ms == b@[k + 1],
        decreases chapters@.len() - i,
    {
        proof {
            assert(refined_boundary(chapters@, silences@, window_ms as int, i as int) < refined_boundary(
                chapters@,
                silences@,
                window_ms as int,
                i + 1,
            ));
        }
        let c = &chapters[i];
        out.push(Chapter::new(owned(c.title.as_str()), b[i], b[i + 1]));
        i = i + 1;
    }
    out
}

/// Whether the chapters and silences are within the time bound and the
/// chapters span more than the minimum gap for each interior cut: the
/// refinement is then defined (see [`lemma_spacing_gives_increase`]).
pub open spec fn refinable(c: Seq<Chapter>, s: Seq<SilencePoint>) -> bool {
    &&& within_bounds(c, s)
    &&& c.len() > 0 ==> c[c.len() - 1].end_ms - c[0].start_ms > MIN_BOUNDARY_GAP_MS * (c.len() - 1)
}

/// Refines the chapters when [`refinable`] holds of them and the
/// silences (see [`refine_chapters_with_silence`]), else `None`.
pub fn refine_chapters_checked(chapters: &Vec<Chapter>, silences: &Vec<SilencePoint>, window_ms: u64) -> (r: Option<Vec<Chapter>>)
    ensures
        r is Some <==> refinable(chapters@, silences@),
        match r {
            Some(v) => v@.len() == chapters@.len() && (silences@.len() == 0 ==> forall|i: int|
                0 <= i < chapters@.len() ==> (#[trigger] v@[i]).title@ == chapters@[i].title@ && v@[i].start_ms
                    == chapters@[i].start_ms && v@[i].end_ms == chapters@[i].end_ms) && (silences@.len() > 0
                ==> forall|i: int|
                0 <= i < chapters@.len() ==> (#[trigger] v@[i]).title@ == chapters@[i].title@ && v@[i].start_ms
                    == refined_boundary(chapters@, silences@, window_ms as int, i) && v@[i].end_ms
                    == refined_boundary(chapters@, silences@, window_ms as int, i + 1)),
            None => true,
        },
{
    if chapters.len() as u64 >= 0x1_0000_0000 {
        return None;
    }
    let mut i: usize = 0;
    while i < chapters.len()
        invariant
            i <= chapters@.len(),
            forall|k: int| 0 <= k < i ==> (#[trigger] chapters@[k]).end_ms < time_bound() && chapters@[k].start_ms < time_bound(),
        decreases chapters@.len() - i,
    {
        if chapters[i].end_ms >= 0x4000_0000_0000_0000 || chapters[i].start_ms >= 0x4000_0000_0000_0000 {
            return None;
        }
        i = i + 1;
    }
    let mut j: usize = 0;
    while j < silences.len()
        invariant
            j <= silences@.len(),
            forall|k: int| 0 <= k < j ==> (#[trigger] silences@[k]).position_ms < time_bound(),
        decreases silences@.len() - j,
    {
        if silences[j].position_ms >= 0x4000_0000_0000_0000 {
            return None;
        }
        j = j + 1;
    }
    let n = chapters.len();
    if n > 0 {
        let first = chapters[0].start_ms;
        let last = chapters[n - 1].end_ms;
        let need: u64 = 50 * (n as u64 - 1);
        if last <= first || last - first <= need {
            return None;
        }
        proof {
            lemma_spacing_gives_increase(chapters@, silences@, window_ms as int);
        }
    }
    Some(refine_chapters_with_silence(chapters, silences, window_ms))
}

/// How far refinement moved the start of a chapter, in milliseconds.
pub open spec fn start_shift(original: Chapter, refined: Chapter) -> nat {
    if refined.start_ms >= original.start_ms {
        (refined.start_ms - original.start_ms) as nat
    } else {
        (original.start_ms - refined.start_ms) as nat
    }
}

/// Over the first `n` chapter pairs, the starts moved by a tenth of a
/// second or more: how many, the sum of their shifts, and the largest.
pub open spec fn shift_stats(original: Seq<Chapter>, refined: Seq<Chapter>, n: int) -> (nat, nat, nat)
    decreases n,
{
    if n <= 0 {
        (0, 0, 0)
    } else {
        let (count, total, max) = shift_stats(original, refined, n - 1);
        let d = start_shift(original[n - 1], refined[n - 1]);
        if d >= 100 {
            (count + 1, total + d, if d > max { d } else { max })
        } else {
            (count, total, max)
        }
    }
}

/// What refinement changed: the chapters whose start moved by a tenth of a
/// second or more, the sum of those shifts and the largest, in
/// milliseconds.
pub struct RefinementStats {
    pub adjusted: usize,
    pub total_shift_ms: u128,
    pub max_shift_ms: u64,
}

/// The changes between the chapters before and after refinement (see
/// [`shift_stats`]), or `None` when their counts differ and they cannot be
/// compared.
pub fn refinement_stats(original: &Vec<Chapter>, refined: &Vec<Chapter>) -> (r: Option<RefinementStats>)
    ensures
        match r {
            Some(st) => {
                &&& original@.len() == refined@.len()
                &&& shift_stats(original@, refined@, original@.len() as int) == (
                    st.adjusted as nat,
                    st.total_shift_ms as nat,
                    st.max_shift_ms as nat,
                )
            },
            None => original@.len() != refined@.len(),
        },
{
    if original.len() != refined.len() {
        return None;
    }
    let mut adjusted: usize = 0;
    let mut total: u128 = 0;
    let mut max: u64 = 0;
    let mut i: usize = 0;
    while i < original.len()
        invariant
            original@.len() == refined@.len(),
            i <= original@.len(),
            shift_stats(original@, refined@, i as int) == (adjusted as nat, total as nat, max as nat),
            adjusted <= i,
            total <= i * 0x1_0000_0000_0000_0000,
        decreases original@.len() - i,
    {
        let a = original[i].start_ms;
        let b = refined[i].start_ms;
        let d: u64 = if b >= a { b - a } else { a - b };
        if d >= 100 {
            adjusted = adjusted + 1;
            total = total + d as u128;
            if d > max {
                max = d;
            }
        }
        i = i + 1;
    }
    Some(RefinementStats { adjusted, total_shift_ms: total, max_shift_ms: max })
}

/// The silence points of ffmpeg's `silencedetect` output: one per silence
/// it reported (see `audio::silences_spec`), at its middle.
pub fn detect_all_silences(stderr: &str) -> (r: Vec<SilencePoint>)
    ensures
        r@.len() == crate::audio::silences_spec(stderr@).len(),
        forall|i: int|
            0 <= i < r@.len() ==> (#[trigger] r@[i]).position_ms == (crate::audio::silences_spec(stderr@)[i].0
                + crate::audio::silences_spec(stderr@)[i].1) / 2,
{
    let pairs = crate::audio::silences_from_output(stderr);
    let mut out: Vec<SilencePoint> = Vec::new();
    let mut i: usize = 0;
    while i < pairs.len()
        invariant
            i <= pairs@.len(),
            pairs@ == crate::audio::silences_spec(stderr@),
            out@.len() == i,
            forall|k: int| 0 <= k < i ==> (#[trigger] out@[k]).position_ms == (pairs@[k].0 + pairs@[k].1) / 2,
        decreases pairs@.len() - i,
    {
        let (a, b) = pairs[i];
        out.push(SilencePoint::new(a, b));
        i = i + 1;
    }
    out
}

} // verus!

//! A small backtracking matcher for the line patterns of video
//! descriptions.
//!
//! A pattern is a sequence of nodes, matched in the order a backtracking
//! matcher tries its choices: a greedy repetition tries its longest run
//! first, a lazy one its shortest; an optional part is tried with before
//! without. The first choice that lets the rest of the pattern match wins,
//! and the first start position with a match wins. This is the
//! leftmost-first semantics of regular-expression libraries.

use vstd::prelude::*;
use crate::text::{is_ws, is_ws_char, regex_digit, regex_digit_exec};

verus! {

/// A class of characters.
#[derive(Debug, Clone, Copy, PartialEq, Eq, Structural)]
pub enum CharClass {
    /// A decimal digit as `\d` has it: see [`regex_digit`].
    Digit,
    /// A Unicode white-space character.
    Space,
    /// Any character but a newline.
    NotNewline,
    /// A hyphen, an en dash or an em dash.
    Dash,
    /// A dash or a colon.
    DashOrColon,
    /// A decimal digit (see [`regex_digit`]) or a point.
    DigitOrPoint,
    /// The first letter of a binary size unit: `G`, `M` or `K`.
    UnitLetter,
    /// One given character.
    Exactly(char),
}

/// A pattern node.
#[derive(Debug, Clone, Copy, PartialEq, Eq, Structural)]
pub enum Node {
    /// Between `min` and `max` characters of a class, longest first when
    /// greedy.
    Repeat { class: CharClass, min: usize, max: usize, greedy: bool },
    /// An optional `:` and two digits, tried present first.
    OptSeconds,
    /// The start of the text or of a line.
    LineStart,
    /// The end of the text or of a line.
    LineEnd,
    /// Records the current position in capture slot `n`.
    Mark(usize),
}

/// Whether `ch` is in the class.
pub open spec fn in_class(c: CharClass, ch: char) -> bool {
    match c {
        CharClass::Digit => regex_digit(ch),
        CharClass::Space => is_ws(ch),
        CharClass::NotNewline => ch != '\n',
        CharClass::Dash => ch == '-' || ch == '–' || ch == '—',
        CharClass::DashOrColon => ch == '-' || ch == '–' || ch == '—' || ch == ':',
        CharClass::DigitOrPoint => regex_digit(ch) || ch == '.',
        CharClass::UnitLetter => ch == 'G' || ch == 'M' || ch == 'K',
        CharClass::Exactly(x) => ch == x,
    }
}

/// How many characters of the class follow position `i`.
pub open spec fn run_len(c: CharClass, s: Seq<char>, i: int) -> nat
    decreases s.len() - i,
{
    if i < 0 || i >= s.len() || !in_class(c, s[i]) {
        0
    } else {
        1 + run_len(c, s, i + 1)
    }
}

/// A run never passes the end of the text.
pub proof fn lemma_run_len(c: CharClass, s: Seq<char>, i: int)
    requires
        0 <= i <= s.len(),
    ensures
        i + run_len(c, s, i) <= s.len(),
        forall|k: int| i <= k < i + run_len(c, s, i) ==> in_class(c, #[trigger] s[k]),
    decreases s.len() - i,
{
    if i < s.len() && in_class(c, s[i]) {
        lemma_run_len(c, s, i + 1);
    }
}

/// The outcome of matching nodes `j..` at position `i` with the captures
/// so far: the end of the match and the captures, or `None`.
pub open spec fn bt(nodes: Seq<Node>, j: int, s: Seq<char>, i: int, caps: Seq<usize>) -> Option<(int, Seq<usize>)>
    decreases nodes.len() - j, s.len() + 2,
{
    if j < 0 || i < 0 || i > s.len() {
        None
    } else if j >= nodes.len() {
        Some((i, caps))
    } else {
        match nodes[j] {
            Node::Repeat { class, min, max, greedy } => {
                let avail = run_len(class, s, i);
                let hi: nat = if avail < max { avail } else { max as nat };
                proof {
                    lemma_run_len(class, s, i);
                }
                if hi < min {
                    None
                } else if greedy {
                    bt_greedy(nodes, j, s, i, caps, hi as int, min as int)
                } else {
                    bt_lazy(nodes, j, s, i, caps, min as int, hi as int)
                }
            },
            Node::OptSeconds => {
                if i < s.len() && s.len() - i > 2 && s[i] == ':' && in_class(CharClass::Digit, s[i + 1]) && in_class(
                    CharClass::Digit,
                    s[i + 2],
                ) {
                    match bt(nodes, j + 1, s, i + 3, caps) {
                        Some(r) => Some(r),
                        None => bt(nodes, j + 1, s, i, caps),
                    }
                } else {
                    bt(nodes, j + 1, s, i, caps)
                }
            },
            Node::LineStart => if i == 0 || s[i - 1] == '\n' {
                bt(nodes, j + 1, s, i, caps)
            } else {
                None
            },
            Node::LineEnd => if i == s.len() || s[i] == '\n' {
                bt(nodes, j + 1, s, i, caps)
            } else {
                None
            },
            Node::Mark(n) => if n < caps.len() {
                bt(nodes, j + 1, s, i, caps.update(n as int, i as usize))
            } else {
                bt(nodes, j + 1, s, i, caps)
            },
        }
    }
}

/// A greedy repetition of `k` down to `lo` characters.
pub open spec fn bt_greedy(nodes: Seq<Node>, j: int, s: Seq<char>, i: int, caps: Seq<usize>, k: int, lo: int) -> Option<(int, Seq<usize>)>
    decreases nodes.len() - j, if k >= lo { k - lo + 1 } else { 0 },
{
    if j < 0 || j >= nodes.len() || k < lo {
        None
    } else {
        match bt(nodes, j + 1, s, i + k, caps) {
            Some(r) => Some(r),
            None => if k > lo {
                bt_greedy(nodes, j, s, i, caps, k - 1, lo)
            } else {
                None
            },
        }
    }
}

/// A lazy repetition of `k` up to `hi` characters.
pub open spec fn bt_lazy(nodes: Seq<Node>, j: int, s: Seq<char>, i: int, caps: Seq<usize>, k: int, hi: int) -> Option<(int, Seq<usize>)>
    decreases nodes.len() - j, if hi >= k { hi - k + 1 } else { 0 },
{
    if j < 0 || j >= nodes.len() || k > hi {
        None
    } else {
        match bt(nodes, j + 1, s, i + k, caps) {
            Some(r) => Some(r),
            None => if k < hi {
                bt_lazy(nodes, j, s, i, caps, k + 1, hi)
            } else {
                None
            },
        }
    }
}

fn in_class_exec(c: CharClass, ch: char) -> (r: bool)
    ensures
        r == in_class(c, ch),
{
    match c {
        CharClass::Digit => regex_digit_exec(ch),
        CharClass::Space => is_ws_char(ch),
        CharClass::NotNewline => ch != '\n',
        CharClass::Dash => ch == '-' || ch == '–' || ch == '—',
        CharClass::DashOrColon => ch == '-' || ch == '–' || ch == '—' || ch == ':',
        CharClass::DigitOrPoint => regex_digit_exec(ch) || ch == '.',
        CharClass::UnitLetter => ch == 'G' || ch == 'M' || ch == 'K',
        CharClass::Exactly(x) => ch == x,
    }
}

fn run_len_exec(c: CharClass, s: &Vec<char>, i: usize) -> (r: usize)
    requires
        i <= s.len(),
    ensures
        r == run_len(c, s@, i as int),
        i + r <= s.len(),
{
    let mut k = i;
    while k < s.len() && in_class_exec(c, s[k])
        invariant
            i <= k <= s.len(),
            run_len(c, s@, i as int) == (k - i) + run_len(c, s@, k as int),
        decreases s.len() - k,
    {
        k = k + 1;
    }
    k - i
}

/// Matches nodes `j..` of the pattern at position `i`: see [`bt`].
pub fn bt_exec(nodes: &Vec<Node>, j: usize, s: &Vec<char>, i: usize, caps: &Vec<usize>) -> (r: Option<(usize, Vec<usize>)>)
    requires
        j <= nodes.len(),
        i <= s.len(),
    ensures
        match bt(nodes@, j as int, s@, i as int, caps@) {
            Some((e, c)) => match r {
                Some((e2, c2)) => e2 == e && c2@ == c,
                None => false,
            },
            None => r is None,
        },
    decreases nodes.len() - j,
{
    if j >= nodes.len() {
        return Some((i, caps.clone()));
    }
    match nodes[j] {
        Node::Repeat { class, min, max, greedy } => {
            let avail = run_len_exec(class, s, i);
            let hi = if avail < max { avail } else { max };
            if hi < min {
                return None;
            }
            if greedy {
                assert(bt(nodes@, j as int, s@, i as int, caps@) == bt_greedy(
                    nodes@,
                    j as int,
                    s@,
                    i as int,
                    caps@,
                    hi as int,
                    min as int,
                ));
                let mut k = hi;
                loop
                    invariant
                        min <= k <= hi,
                        hi <= avail,
                        i + avail <= s.len(),
                        j < nodes.len(),
                        nodes@[j as int] == (Node::Repeat { class, min, max, greedy }),
                        bt(nodes@, j as int, s@, i as int, caps@) == bt_greedy(
                            nodes@,
                            j as int,
                            s@,
                            i as int,
                            caps@,
                            hi as int,
                            min as int,
                        ),
                        bt_greedy(nodes@, j as int, s@, i as int, caps@, hi as int, min as int)
                            == bt_greedy(nodes@, j as int, s@, i as int, caps@, k as int, min as int),
                    decreases k,
                {
                    let r = bt_exec(nodes, j + 1, s, i + k, caps);
                    if r.is_some() {
                        return r;
                    }
                    if k > min {
                        k = k - 1;
                    } else {
                        return None;
                    }
                }
            } else {
                assert(bt(nodes@, j as int, s@, i as int, caps@) == bt_lazy(
                    nodes@,
                    j as int,
                    s@,
                    i as int,
                    caps@,
                    min as int,
                    hi as int,
                ));
                let mut k = min;
                loop
                    invariant
                        min <= k <= hi,
                        hi <= avail,
                        i + avail <= s.len(),
                        j < nodes.len(),
                        nodes@[j as int] == (Node::Repeat { class, min, max, greedy }),
                        bt(nodes@, j as int, s@, i as int, caps@) == bt_lazy(
                            nodes@,
                            j as int,
                            s@,
                            i as int,
                            caps@,
                            min as int,
                            hi as int,
                        ),
                        bt_lazy(nodes@, j as int, s@, i as int, caps@, min as int, hi as int)
                            == bt_lazy(nodes@, j as int, s@, i as int, caps@, k as int, hi as int),
                    decreases hi - k,
                {
                    let r = bt_exec(nodes, j + 1, s, i + k, caps);
                    if r.is_some() {
                        return r;
                    }
                    if k < hi {
                        k = k + 1;
                    } else {
                        return None;
                    }
                }
            }
        },
        Node::OptSeconds => {
            if i < s.len() && s.len() - i > 2 && s[i] == ':' && in_class_exec(CharClass::Digit, s[i + 1])
                && in_class_exec(CharClass::Digit, s[i + 2]) {
                let r = bt_exec(nodes, j + 1, s, i + 3, caps);
                if r.is_some() {
                    return r;
                }
            }
            bt_exec(nodes, j + 1, s, i, caps)
        },
        Node::LineStart => {
            if i == 0 || s[i - 1] == '\n' {
                bt_exec(nodes, j + 1, s, i, caps)
            } else {
                None
            }
        },
        Node::LineEnd => {
            if i == s.len() || s[i] == '\n' {
                bt_exec(nodes, j + 1, s, i, caps)
            } else {
                None
            }
        },
        Node::Mark(n) => {
            if n < caps.len() {
                let mut c2 = caps.clone();
                c2.set(n, i);
                bt_exec(nodes, j + 1, s, i, &c2)
            } else {
                bt_exec(nodes, j + 1, s, i, caps)
            }
        },
    }
}

/// The first position from `p` on where the pattern matches, or -1.
pub open spec fn first_start(nodes: Seq<Node>, s: Seq<char>, p: int, caps: Seq<usize>) -> int
    decreases s.len() + 1 - p,
{
    if p < 0 || p > s.len() {
        -1
    } else if bt(nodes, 0, s, p, caps) is Some {
        p
    } else {
        first_start(nodes, s, p + 1, caps)
    }
}

/// The captures of the successive matches of the pattern from `p` on, each
/// search starting where the previous match ended (one further after an
/// empty match).
pub open spec fn all_matches(nodes: Seq<Node>, s: Seq<char>, p: int, caps: Seq<usize>) -> Seq<Seq<usize>>
    decreases s.len() + 1 - p,
{
    let q = first_start(nodes, s, p, caps);
    if p < 0 || p > s.len() || q < 0 {
        Seq::empty()
    } else {
        let (e, c) = bt(nodes, 0, s, q, caps)->0;
        let next = if e > q { e } else { q + 1 };
        proof {
            if p >= 0 {
                lemma_first_start(nodes, s, p, caps);
            }
            lemma_bt_end(nodes, 0, s, q, caps);
        }
        seq![c] + all_matches(nodes, s, next, caps)
    }
}

/// Where [`first_start`] stops.
pub proof fn lemma_first_start(nodes: Seq<Node>, s: Seq<char>, p: int, caps: Seq<usize>)
    requires
        0 <= p,
    ensures
        first_start(nodes, s, p, caps) == -1 || (p <= first_start(nodes, s, p, caps) <= s.len()
            && bt(nodes, 0, s, first_start(nodes, s, p, caps), caps) is Some),
        forall|k: int| p <= k < first_start(nodes, s, p, caps) ==> bt(nodes, 0, s, k, caps) is None,
        first_start(nodes, s, p, caps) == -1 ==> forall|k: int| p <= k <= s.len() ==> bt(nodes, 0, s, k, caps) is None,
    decreases s.len() + 1 - p,
{
    if 0 <= p <= s.len() && bt(nodes, 0, s, p, caps) is None {
        lemma_first_start(nodes, s, p + 1, caps);
    }
}

/// A match ends within the text, at or after its start.
pub proof fn lemma_bt_end(nodes: Seq<Node>, j: int, s: Seq<char>, i: int, caps: Seq<usize>)
    ensures
        match bt(nodes, j, s, i, caps) {
            Some((e, _)) => i <= e <= s.len(),
            None => true,
        },
    decreases nodes.len() - j, s.len() + 2,
{
    if j < 0 || i < 0 || i > s.len() || j >= nodes.len() {
    } else {
        match nodes[j] {
            Node::Repeat { class, min, max, greedy } => {
                let avail = run_len(class, s, i);
                let hi: nat = if avail < max { avail } else { max as nat };
                lemma_run_len(class, s, i);
                if hi >= min {
                    if greedy {
                        lemma_greedy_end(nodes, j, s, i, caps, hi as int, min as int);
                    } else {
                        lemma_lazy_end(nodes, j, s, i, caps, min as int, hi as int);
                    }
                }
            },
            Node::OptSeconds => {
                lemma_bt_end(nodes, j + 1, s, i + 3, caps);
                lemma_bt_end(nodes, j + 1, s, i, caps);
            },
            Node::Mark(n) => {
                lemma_bt_end(nodes, j + 1, s, i, caps);
                if n < caps.len() {
                    lemma_bt_end(nodes, j + 1, s, i, caps.update(n as int, i as usize));
                }
            },
            _ => {
                lemma_bt_end(nodes, j + 1, s, i, caps);
            },
        }
    }
}

proof fn lemma_greedy_end(nodes: Seq<Node>, j: int, s: Seq<char>, i: int, caps: Seq<usize>, k: int, lo: int)
    requires
        0 <= lo,
        0 <= i,
        i + k <= s.len(),
    ensures
        match bt_greedy(nodes, j, s, i, caps, k, lo) {
            Some((e, _)) => i <= e <= s.len(),
            None => true,
        },
    decreases nodes.len() - j, if k >= lo { k - lo + 1 } else { 0 },
{
    if 0 <= j < nodes.len() && k >= lo {
        lemma_bt_end(nodes, j + 1, s, i + k, caps);
        if k > lo {
            lemma_greedy_end(nodes, j, s, i, caps, k - 1, lo);
        }
    }
}

proof fn lemma_lazy_end(nodes: Seq<Node>, j: int, s: Seq<char>, i: int, caps: Seq<usize>, k: int, hi: int)
    requires
        0 <= k,
        0 <= i,
        i + hi <= s.len(),
    ensures
        match bt_lazy(nodes, j, s, i, caps, k, hi) {
            Some((e, _)) => i <= e <= s.len(),
            None => true,
        },
    decreases nodes.len() - j, if hi >= k { hi - k + 1 } else { 0 },
{
    if 0 <= j < nodes.len() && k <= hi {
        lemma_bt_end(nodes, j + 1, s, i + k, caps);
        if k < hi {
            lemma_lazy_end(nodes, j, s, i, caps, k + 1, hi);
        }
    }
}

/// The captures of every match of the pattern in `s`: see
/// [`all_matches`].
pub fn find_all(nodes: &Vec<Node>, s: &Vec<char>, caps: &Vec<usize>) -> (r: Vec<Vec<usize>>)
    ensures
        r@.len() == all_matches(nodes@, s@, 0, caps@).len(),
        forall|k: int| 0 <= k < r@.len() ==> (#[trigger] r@[k])@ == all_matches(nodes@, s@, 0, caps@)[k],
{
    let mut out: Vec<Vec<usize>> = Vec::new();
    let mut p: usize = 0;
    let ghost acc: Seq<Seq<usize>> = Seq::empty();
    loop
        invariant
            p <= s.len(),
            out@.len() == acc.len(),
            forall|k: int| 0 <= k < out@.len() ==> (#[trigger] out@[k])@ == acc[k],
            acc + all_matches(nodes@, s@, p as int, caps@) == all_matches(nodes@, s@, 0, caps@),
        decreases s.len() + 1 - p,
    {
        let mut q = p;
        let mut found: Option<(usize, Vec<usize>)> = None;
        loop
            invariant_except_break
                found is None,
            invariant
                p <= q <= s.len(),
                first_start(nodes@, s@, p as int, caps@) == first_start(nodes@, s@, q as int, caps@),
            ensures
                match found {
                    Some((e, c)) => q <= s.len() && first_start(nodes@, s@, p as int, caps@) == q
                        && bt(nodes@, 0, s@, q as int, caps@) == Some((e as int, c@)),
                    None => first_start(nodes@, s@, p as int, caps@) == -1,
                },
            decreases s.len() - q,
        {
            let r = bt_exec(nodes, 0, s, q, caps);
            match r {
                Some(m) => {
                    found = Some(m);
                    break;
                },
                None => {},
            }
            if q == s.len() {
                assert(first_start(nodes@, s@, q + 1, caps@) == -1);
                break;
            }
            q = q + 1;
        }
        match found {
            None => {
                assert(all_matches(nodes@, s@, p as int, caps@) =~= Seq::<Seq<usize>>::empty());
                assert(acc =~= all_matches(nodes@, s@, 0, caps@));
                return out;
            },
            Some((e, c)) => {
                proof {
                    lemma_bt_end(nodes@, 0, s@, q as int, caps@);
                    acc = acc.push(c@);
                }
                out.push(c);
                if e > q {
                    p = e;
                } else if q < s.len() {
                    p = q + 1;
                } else {
                    assert(all_matches(nodes@, s@, q + 1, caps@) =~= Seq::<Seq<usize>>::empty());
                    assert(acc =~= all_matches(nodes@, s@, 0, caps@));
                    return out;
                }
            },
        }
    }
}

} // verus!

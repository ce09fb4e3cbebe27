//! Chapters of a video: a title and a time range in milliseconds.

use vstd::prelude::*;
use crate::error::YtcsError;
use crate::text::{
    byte_len, char_is_upper, char_to_upper, chars_of, dec2, extend, is_upper_char, is_ws, is_ws_char,
    owned, parse_unsigned, parse_u64, push_dec2, push_str, slice, str_eq, str_to_lower, string_of,
    to_lower_chars, to_upper_chars, utf8_len,
};
use crate::utils::{sanitize_title_spec, sanitize_title as sanitize};

verus! {

/// A chapter: its title and its start and end in milliseconds.
#[derive(Debug, Clone)]
pub struct Chapter {
    pub title: String,
    pub start_ms: u64,
    pub end_ms: u64,
}

/// The start of the word of `s` at or after `i` (the first character that
/// is not white space), or the length of `s`.
pub open spec fn word_start(s: Seq<char>, i: int) -> int
    decreases s.len() - i,
{
    if i < 0 || i >= s.len() || !is_ws(s[i]) {
        if i < 0 { 0 } else if i > s.len() { s.len() as int } else { i }
    } else {
        word_start(s, i + 1)
    }
}

/// The end of the word starting at `i` (the next white space), or the
/// length of `s`.
pub open spec fn word_end(s: Seq<char>, i: int) -> int
    decreases s.len() - i,
{
    if i < 0 || i >= s.len() || is_ws(s[i]) {
        if i < 0 { 0 } else if i > s.len() { s.len() as int } else { i }
    } else {
        word_end(s, i + 1)
    }
}

/// Where a word starts and ends.
pub proof fn lemma_word_bounds(s: Seq<char>, i: int)
    requires
        0 <= i <= s.len(),
    ensures
        i <= word_start(s, i) <= s.len(),
        word_start(s, i) <= word_end(s, word_start(s, i)) <= s.len(),
        word_start(s, i) < s.len() ==> word_start(s, i) < word_end(s, word_start(s, i)),
    decreases s.len() - i,
{
    if i < s.len() && is_ws(s[i]) {
        lemma_word_bounds(s, i + 1);
    } else {
        lemma_word_end(s, i);
    }
}

/// Where a word ends.
pub proof fn lemma_word_end(s: Seq<char>, i: int)
    requires
        0 <= i <= s.len(),
    ensures
        i <= word_end(s, i) <= s.len(),
        i < s.len() && !is_ws(s[i]) ==> i < word_end(s, i),
    decreases s.len() - i,
{
    if i < s.len() && !is_ws(s[i]) {
        lemma_word_end(s, i + 1);
    }
}

/// The words of `s` from position `i` on, as `str::split_whitespace` gives
/// them.
pub open spec fn words_from(s: Seq<char>, i: int) -> Seq<Seq<char>>
    decreases s.len() - i,
{
    if i < 0 || i > s.len() {
        Seq::empty()
    } else {
        let a = word_start(s, i);
        proof {
            lemma_word_bounds(s, i);
        }
        if a >= s.len() {
            Seq::empty()
        } else {
            let b = word_end(s, a);
            seq![s.subrange(a, b)] + words_from(s, b)
        }
    }
}

/// Whether a (lower-case) word is one of the small words that title case
/// leaves in lower case after the first word.
pub open spec fn is_small_word(w: Seq<char>) -> bool {
    w == "a"@ || w == "an"@ || w == "the"@ || w == "in"@ || w == "on"@ || w == "of"@ || w == "and"@
        || w == "or"@ || w == "but"@ || w == "for"@ || w == "nor"@ || w == "to"@ || w == "at"@
        || w == "by"@
}

/// A word in title case at position `i`: lower-cased, then its first
/// character upper-cased unless it is a small word after the first.
pub open spec fn title_word(w: Seq<char>, i: int) -> Seq<char> {
    let lower = str_to_lower(w);
    if i > 0 && is_small_word(lower) {
        lower
    } else if lower.len() == 0 {
        Seq::empty()
    } else {
        char_to_upper(lower[0]) + lower.skip(1)
    }
}

/// The words from the `i`-th on in title case, joined with single spaces.
pub open spec fn title_words(ws: Seq<Seq<char>>, i: int) -> Seq<char>
    decreases ws.len() - i,
{
    if i < 0 || i >= ws.len() {
        Seq::empty()
    } else if i + 1 == ws.len() {
        title_word(ws[i], i)
    } else {
        title_word(ws[i], i) + " "@ + title_words(ws, i + 1)
    }
}

/// `s` in title case: its words (split at white space) capitalized, small
/// words after the first in lower case, joined with single spaces.
pub open spec fn title_case(s: Seq<char>) -> Seq<char> {
    title_words(words_from(s, 0), 0)
}

/// The number of characters of `s` with the Unicode upper-case property.
pub open spec fn upper_count(s: Seq<char>) -> nat
    decreases s.len(),
{
    if s.len() == 0 {
        0
    } else {
        upper_count(s.drop_last()) + if char_is_upper(s.last()) { 1nat } else { 0nat }
    }
}

/// The title shown for a chapter: in title case when more than half of it
/// (counting its upper-case characters against half its length in bytes)
/// is upper case, else as it is.
pub open spec fn display_title_spec(title: Seq<char>) -> Seq<char> {
    if upper_count(title) > utf8_len(title) / 2 {
        title_case(title)
    } else {
        title
    }
}

fn is_small_word_exec(w: &Vec<char>) -> (r: bool)
    ensures
        r == is_small_word(w@),
{
    let s = string_of(w);
    let t = s.as_str();
    str_eq(t, "a") || str_eq(t, "an") || str_eq(t, "the") || str_eq(t, "in") || str_eq(t, "on")
        || str_eq(t, "of") || str_eq(t, "and") || str_eq(t, "or") || str_eq(t, "but") || str_eq(
        t,
        "for",
    ) || str_eq(t, "nor") || str_eq(t, "to") || str_eq(t, "at") || str_eq(t, "by")
}

fn title_word_exec(w: &Vec<char>, i: usize) -> (r: Vec<char>)
    ensures
        r@ == title_word(w@, i as int),
{
    let lower = to_lower_chars(w);
    if i > 0 && is_small_word_exec(&lower) {
        lower
    } else if lower.len() == 0 {
        Vec::new()
    } else {
        let mut out = to_upper_chars(lower[0]);
        let rest = slice(&lower, 1, lower.len());
        extend(&mut out, &rest);
        out
    }
}

/// Converts `s` to title case: see [`title_case`].
pub fn to_title_case(s: &str) -> (r: String)
    ensures
        r@ == title_case(s@),
{
    let v = chars_of(s);
    let mut words: Vec<Vec<char>> = Vec::new();
    let mut i: usize = 0;
    while i < v.len()
        invariant
            i <= v@.len(),
            words@.map_values(|w: Vec<char>| w@) + words_from(v@, i as int) == words_from(v@, 0),
        decreases v@.len() - i,
    {
        let mut a = i;
        while a < v.len() && is_ws_char(v[a])
            invariant
                i <= a <= v@.len(),
                word_start(v@, i as int) == word_start(v@, a as int),
            decreases v@.len() - a,
        {
            a = a + 1;
        }
        if a >= v.len() {
            proof {
                assert(words_from(v@, i as int) =~= Seq::<Seq<char>>::empty());
                assert(words_from(v@, v@.len() as int) =~= Seq::<Seq<char>>::empty());
            }
            i = v.len();
        } else {
            let mut b = a;
            while b < v.len() && !is_ws_char(v[b])
                invariant
                    a <= b <= v@.len(),
                    word_end(v@, a as int) == word_end(v@, b as int),
                decreases v@.len() - b,
            {
                b = b + 1;
            }
            let ghost before = words@.map_values(|w: Vec<char>| w@);
            words.push(slice(&v, a, b));
            proof {
                assert(words@.map_values(|w: Vec<char>| w@) =~= before.push(v@.subrange(a as int, b as int)));
                assert(words_from(v@, i as int) == seq![v@.subrange(a as int, b as int)] + words_from(
                    v@,
                    b as int,
                ));
                assert(before + words_from(v@, i as int) =~= before.push(v@.subrange(a as int, b as int))
                    + words_from(v@, b as int));
            }
            i = b;
        }
    }
    proof {
        assert(words_from(v@, i as int) =~= Seq::<Seq<char>>::empty());
    }
    let ghost ws = words@.map_values(|w: Vec<char>| w@);
    assert(ws =~= words_from(v@, 0));
    let n = words.len();
    let mut out: Vec<char> = Vec::new();
    let mut k: usize = n;
    while k > 0
        invariant
            k <= n,
            n == words@.len(),
            ws == words@.map_values(|w: Vec<char>| w@),
            out@ == title_words(ws, k as int),
        decreases k,
    {
        let idx = k - 1;
        let t = title_word_exec(&words[idx], idx);
        let mut piece = t;
        if idx + 1 < n {
            piece.push(' ');
            extend(&mut piece, &out);
        }
        proof {
            reveal_strlit(" ");
            if idx + 1 < n {
                assert(piece@ =~= title_word(ws[idx as int], idx as int) + " "@ + title_words(ws, k as int));
            } else {
                assert(piece@ =~= title_word(ws[idx as int], idx as int));
            }
        }
        out = piece;
        k = idx;
    }
    string_of(&out)
}

fn upper_count_exec(v: &Vec<char>) -> (r: usize)
    ensures
        r == upper_count(v@),
{
    let mut n: usize = 0;
    let mut i: usize = 0;
    while i < v.len()
        invariant
            i <= v@.len(),
            n == upper_count(v@.take(i as int)),
            n <= i,
        decreases v@.len() - i,
    {
        assert(v@.take(i + 1).drop_last() =~= v@.take(i as int));
        if is_upper_char(v[i]) {
            n = n + 1;
        }
        i = i + 1;
    }
    assert(v@.take(i as int) =~= v@);
    n
}

impl Chapter {
    /// A chapter; its end must come after its start.
    pub fn new(title: String, start_ms: u64, end_ms: u64) -> (r: Self)
        requires
            end_ms > start_ms,
        ensures
            r.title == title,
            r.start_ms == start_ms,
            r.end_ms == end_ms,
    {
        Chapter { title, start_ms, end_ms }
    }

    /// The chapter's length in milliseconds.
    pub fn duration(&self) -> (r: u64)
        requires
            self.end_ms >= self.start_ms,
        ensures
            r == self.end_ms - self.start_ms,
    {
        self.end_ms - self.start_ms
    }

    /// The title for display: see [`display_title_spec`].
    pub fn display_title(&self) -> (r: String)
        ensures
            r@ == display_title_spec(self.title@),
    {
        let v = chars_of(self.title.as_str());
        let up = upper_count_exec(&v);
        if up > byte_len(self.title.as_str()) / 2 {
            to_title_case(self.title.as_str())
        } else {
            owned(self.title.as_str())
        }
    }

    /// The title cleaned for use as a file name: see
    /// [`crate::utils::sanitize_title`].
    pub fn sanitize_title(&self) -> (r: String)
        ensures
            r@ == sanitize_title_spec(self.title@),
    {
        sanitize(self.title.as_str())
    }
}

/// A part of a timestamp as a number: an unsigned number (see
/// [`parse_unsigned`]) that fits in 64 bits.
pub open spec fn timestamp_part(p: Seq<char>) -> Option<nat> {
    match parse_unsigned(p) {
        Some(v) => if v <= u64::MAX { Some(v) } else { None },
        None => None,
    }
}

/// What parsing a timestamp yields: `SS`, `MM:SS` or `HH:MM:SS`, each part
/// a number (see [`timestamp_part`]), as a number of seconds; or the reason
/// it is refused.
pub open spec fn timestamp_seconds(parts: Seq<Seq<char>>) -> Result<nat, Seq<char>> {
    if parts.len() == 1 {
        match timestamp_part(parts[0]) {
            Some(s) => Ok(s),
            None => Err("Invalid timestamp format"@),
        }
    } else if parts.len() == 2 {
        match timestamp_part(parts[0]) {
            None => Err("Invalid minutes"@),
            Some(m) => match timestamp_part(parts[1]) {
                None => Err("Invalid seconds"@),
                Some(s) => Ok(m * 60 + s),
            },
        }
    } else if parts.len() == 3 {
        match timestamp_part(parts[0]) {
            None => Err("Invalid hours"@),
            Some(h) => match timestamp_part(parts[1]) {
                None => Err("Invalid minutes"@),
                Some(m) => match timestamp_part(parts[2]) {
                    None => Err("Invalid seconds"@),
                    Some(s) => Ok(h * 3600 + m * 60 + s),
                },
            },
        }
    } else {
        Err("Invalid timestamp format"@)
    }
}

/// The pieces of `s` between colons, from position `i` (as `str::split(':')`
/// gives them).
pub open spec fn colon_parts(s: Seq<char>, i: int) -> Seq<Seq<char>>
    decreases s.len() - i,
{
    if i < 0 || i > s.len() {
        Seq::empty()
    } else {
        let e = crate::playlist::char_or_end(s, ':', i);
        proof {
            crate::tui::components::input::lemma_char_or_end_bounds(s, ':', i);
        }
        if e >= s.len() {
            seq![s.subrange(i, s.len() as int)]
        } else {
            seq![s.subrange(i, e)] + colon_parts(s, e + 1)
        }
    }
}

/// Parses a timestamp into seconds: see [`timestamp_seconds`]. A total
/// that does not fit in 64 bits is refused as "Invalid timestamp format".
pub fn parse_timestamp(timestamp: &str) -> (r: Result<u64, YtcsError>)
    ensures
        match timestamp_seconds(colon_parts(timestamp@, 0)) {
            Ok(v) => if v <= u64::MAX {
                r == Ok::<u64, YtcsError>(v as u64)
            } else {
                r is Err && r->Err_0 is ChapterError && r->Err_0->ChapterError_0@
                    == "Invalid timestamp format"@
            },
            Err(m) => r is Err && r->Err_0 is ChapterError && r->Err_0->ChapterError_0@ == m,
        },
{
    let v = chars_of(timestamp);
    let mut parts: Vec<String> = Vec::new();
    let mut i: usize = 0;
    loop
        invariant_except_break
            parts@.map_values(|p: String| p@) + colon_parts(v@, i as int) == colon_parts(v@, 0),
        invariant
            i <= v@.len(),
            v@ == timestamp@,
        ensures
            parts@.map_values(|p: String| p@) == colon_parts(v@, 0),
        decreases v@.len() - i,
    {
        let e = crate::playlist::char_or_end_pub(&v, ':', i);
        let ghost before = parts@.map_values(|p: String| p@);
        parts.push(string_of(&slice(&v, i, e)));
        proof {
            crate::tui::components::input::lemma_char_or_end_bounds(v@, ':', i as int);
            assert(parts@.map_values(|p: String| p@) =~= before.push(v@.subrange(i as int, e as int)));
        }
        if e >= v.len() {
            proof {
                assert(colon_parts(v@, i as int) =~= seq![v@.subrange(i as int, v@.len() as int)]);
                assert(parts@.map_values(|p: String| p@) =~= colon_parts(v@, 0));
            }
            break;
        }
        proof {
            assert(before + colon_parts(v@, i as int) =~= parts@.map_values(|p: String| p@)
                + colon_parts(v@, e + 1));
        }
        i = e + 1;
    }
    let ghost ps = parts@.map_values(|p: String| p@);
    assert(ps[0] == parts@[0]@);
    if parts.len() == 1 {
        match parse_u64(parts[0].as_str()) {
            Some(s) => Ok(s),
            None => Err(YtcsError::ChapterError(owned("Invalid timestamp format"))),
        }
    } else if parts.len() == 2 {
        assert(ps[1] == parts@[1]@);
        let m = match parse_u64(parts[0].as_str()) {
            Some(m) => m,
            None => {
                return Err(YtcsError::ChapterError(owned("Invalid minutes")));
            },
        };
        let s = match parse_u64(parts[1].as_str()) {
            Some(s) => s,
            None => {
                return Err(YtcsError::ChapterError(owned("Invalid seconds")));
            },
        };
        if m <= (u64::MAX - s) / 60 {
            Ok(m * 60 + s)
        } else {
            Err(YtcsError::ChapterError(owned("Invalid timestamp format")))
        }
    } else if parts.len() == 3 {
        assert(ps[1] == parts@[1]@);
        assert(ps[2] == parts@[2]@);
        let h = match parse_u64(parts[0].as_str()) {
            Some(h) => h,
            None => {
                return Err(YtcsError::ChapterError(owned("Invalid hours")));
            },
        };
        let m = match parse_u64(parts[1].as_str()) {
            Some(m) => m,
            None => {
                return Err(YtcsError::ChapterError(owned("Invalid minutes")));
            },
        };
        let s = match parse_u64(parts[2].as_str()) {
            Some(s) => s,
            None => {
                return Err(YtcsError::ChapterError(owned("Invalid seconds")));
            },
        };
        let total: u128 = (h as u128) * 3600 + (m as u128) * 60 + (s as u128);
        if total <= u64::MAX as u128 {
            Ok(total as u64)
        } else {
            Err(YtcsError::ChapterError(owned("Invalid timestamp format")))
        }
    } else {
        Err(YtcsError::ChapterError(owned("Invalid timestamp format")))
    }
}

/// A time in whole seconds as `MM:SS`, or `HH:MM:SS` from an hour on; the
/// hours saturate at `u32::MAX`.
pub open spec fn timestamp_text(seconds: nat) -> Seq<char> {
    let h = if seconds / 3600 > u32::MAX { u32::MAX as nat } else { seconds / 3600 };
    let m = (seconds % 3600) / 60;
    let s = seconds % 60;
    if h > 0 {
        dec2(h) + ":"@ + dec2(m) + ":"@ + dec2(s)
    } else {
        dec2(m) + ":"@ + dec2(s)
    }
}

/// Formats whole seconds as a timestamp: see [`timestamp_text`].
pub fn format_timestamp(seconds: u64) -> (r: String)
    ensures
        r@ == timestamp_text(seconds as nat),
{
    let h0 = seconds / 3600;
    let h: u64 = if h0 > 0xffff_ffff { 0xffff_ffff } else { h0 };
    let m = (seconds % 3600) / 60;
    let s = seconds % 60;
    let mut out: Vec<char> = Vec::new();
    if h > 0 {
        push_dec2(&mut out, h);
        push_str(&mut out, ":");
    }
    push_dec2(&mut out, m);
    push_str(&mut out, ":");
    push_dec2(&mut out, s);
    string_of(&out)
}

/// The decimal text of a number is a string of digits worth the number.
pub proof fn lemma_dec_digits(n: nat)
    ensures
        crate::text::all_digits(crate::text::dec(n)),
        crate::text::dec(n).len() > 0,
        crate::text::digits_value(crate::text::dec(n)) == n,
    decreases n,
{
    let d = crate::text::dec(n);
    if n >= 10 {
        lemma_dec_digits(n / 10);
        assert(d.drop_last() =~= crate::text::dec(n / 10));
        assert(d.last() == crate::text::digit_char(n % 10));
        assert(crate::text::digit_value(crate::text::digit_char(n % 10)) == n % 10);
        assert(crate::text::digits_value(d) == crate::text::digits_value(d.drop_last()) * 10
            + crate::text::digit_value(d.last()));
        assert((n / 10) * 10 + n % 10 == n);
    } else {
        assert(crate::text::digit_value(crate::text::digit_char(n)) == n);
        assert(d.drop_last() =~= Seq::<char>::empty());
        assert(crate::text::digits_value(d) == crate::text::digits_value(d.drop_last()) * 10
            + crate::text::digit_value(d.last()));
    }
}

/// The two-digit text of a number reads back as the number.
pub proof fn lemma_dec2_reads_back(n: nat)
    requires
        n <= u64::MAX,
    ensures
        timestamp_part(dec2(n)) == Some(n),
        forall|k: int| 0 <= k < dec2(n).len() ==> (#[trigger] dec2(n)[k]) != ':',
{
    lemma_dec_digits(n);
    let d = dec2(n);
    if n < 10 {
        assert(d.drop_last() =~= seq!['0']);
        assert(seq!['0'].drop_last() =~= Seq::<char>::empty());
        assert(crate::text::digits_value(seq!['0']) == crate::text::digits_value(
            seq!['0'].drop_last(),
        ) * 10 + crate::text::digit_value('0'));
        assert(crate::text::digits_value(d) == crate::text::digits_value(d.drop_last()) * 10
            + crate::text::digit_value(d.last()));
        assert(crate::text::digit_value(crate::text::digit_char(n)) == n);
        assert(crate::text::all_digits(d));
        assert(crate::text::digits_value(d) == n);
    }
    assert(d[0] != '+');
    assert(crate::text::all_digits(d));
    assert forall|k: int| 0 <= k < d.len() implies (#[trigger] d[k]) != ':' by {
        assert(crate::text::is_digit(d[k]));
    }
}

/// The first `c` from `i` on is at `k` when none lies between.
proof fn lemma_char_or_end_at(s: Seq<char>, c: char, i: int, k: int)
    requires
        0 <= i <= k <= s.len(),
        forall|j: int| i <= j < k ==> s[j] != c,
        k == s.len() || s[k] == c,
    ensures
        crate::playlist::char_or_end(s, c, i) == k,
    decreases k - i,
{
    if i < k {
        lemma_char_or_end_at(s, c, i + 1, k);
    }
}

/// The pieces of texts joined by colons are the texts, when none holds a
/// colon.
proof fn lemma_colon_parts_three(a: Seq<char>, b: Seq<char>, c: Seq<char>)
    requires
        forall|k: int| 0 <= k < a.len() ==> (#[trigger] a[k]) != ':',
        forall|k: int| 0 <= k < b.len() ==> (#[trigger] b[k]) != ':',
        forall|k: int| 0 <= k < c.len() ==> (#[trigger] c[k]) != ':',
    ensures
        colon_parts(a + ":"@ + b + ":"@ + c, 0) == seq![a, b, c],
        colon_parts(b + ":"@ + c, 0) == seq![b, c],
{
    reveal_strlit(":");
    let s = a + ":"@ + b + ":"@ + c;
    let i1 = a.len() as int;
    let i2 = i1 + 1 + b.len();
    lemma_char_or_end_at(s, ':', 0, i1);
    lemma_char_or_end_at(s, ':', i1 + 1, i2);
    lemma_char_or_end_at(s, ':', i2 + 1, s.len() as int);
    assert(s.subrange(0, i1) =~= a);
    assert(s.subrange(i1 + 1, i2) =~= b);
    assert(s.subrange(i2 + 1, s.len() as int) =~= c);
    assert(colon_parts(s, i2 + 1) == seq![c]);
    assert(colon_parts(s, i1 + 1) =~= seq![b, c]);
    assert(colon_parts(s, 0) =~= seq![a, b, c]);
    let t = b + ":"@ + c;
    let j1 = b.len() as int;
    lemma_char_or_end_at(t, ':', 0, j1);
    lemma_char_or_end_at(t, ':', j1 + 1, t.len() as int);
    assert(t.subrange(0, j1) =~= b);
    assert(t.subrange(j1 + 1, t.len() as int) =~= c);
    assert(colon_parts(t, j1 + 1) == seq![c]);
    assert(colon_parts(t, 0) =~= seq![b, c]);
}

/// A formatted timestamp parses back to its seconds (below the hours at
/// which the formatting saturates).
pub proof fn lemma_timestamp_round_trip(seconds: nat)
    requires
        seconds / 3600 <= u32::MAX,
    ensures
        timestamp_seconds(colon_parts(timestamp_text(seconds), 0)) == Ok::<nat, Seq<char>>(seconds),
{
    let h = seconds / 3600;
    let m = (seconds % 3600) / 60;
    let s = seconds % 60;
    lemma_dec2_reads_back(h);
    lemma_dec2_reads_back(m);
    lemma_dec2_reads_back(s);
    assert(h * 3600 + m * 60 + s == seconds) by (nonlinear_arith)
        requires
            h == seconds / 3600,
            m == (seconds % 3600) / 60,
            s == seconds % 60,
    ;
    if h > 0 {
        lemma_colon_parts_three(dec2(h), dec2(m), dec2(s));
    } else {
        lemma_colon_parts_three(dec2(h), dec2(m), dec2(s));
    }
}

/// A formatted timestamp has two colon-separated parts below an hour and
/// three from an hour on.
pub proof fn lemma_timestamp_parts(seconds: nat)
    requires
        seconds <= u64::MAX,
    ensures
        colon_parts(timestamp_text(seconds), 0).len() == if seconds >= 3600 { 3nat } else { 2nat },
{
    let h = if seconds / 3600 > u32::MAX { u32::MAX as nat } else { seconds / 3600 };
    let m = (seconds % 3600) / 60;
    let s = seconds % 60;
    lemma_dec2_reads_back(h);
    lemma_dec2_reads_back(m);
    lemma_dec2_reads_back(s);
    lemma_colon_parts_three(dec2(h), dec2(m), dec2(s));
    assert(h > 0 <==> seconds >= 3600);
}

/// One entry of the `chapters` array of yt-dlp's video JSON: its title and
/// its start and end in milliseconds, each when present (a time that is
/// not a number counts as absent).
pub struct ChapterEntry {
    pub title: Option<String>,
    pub start_ms: Option<u64>,
    pub end_ms: Option<u64>,
}

/// The title of entry `i`: its own, or `Track <i+1>`.
pub open spec fn entry_title(e: ChapterEntry, i: int) -> Seq<char> {
    match e.title {
        Some(t) => t@,
        None => "Track "@ + crate::text::dec((i + 1) as nat),
    }
}

/// The chapters of the first `n` entries (title, start, end), or the error
/// of the first entry without a start (`Invalid start_time`), or without an
/// end or with an end not after its start (`Invalid end_time`).
pub open spec fn entries_chapters(es: Seq<ChapterEntry>, n: int) -> Result<Seq<(Seq<char>, u64, u64)>, Seq<char>>
    decreases n,
{
    if n <= 0 {
        Ok(Seq::empty())
    } else {
        match entries_chapters(es, n - 1) {
            Err(m) => Err(m),
            Ok(cs) => {
                let e = es[n - 1];
                if e.start_ms is None {
                    Err("Invalid start_time"@)
                } else if e.end_ms is None || e.end_ms->0 <= e.start_ms->0 {
                    Err("Invalid end_time"@)
                } else {
                    Ok(cs.push((entry_title(e, n - 1), e.start_ms->0, e.end_ms->0)))
                }
            },
        }
    }
}

/// The chapters read from the first `n` JSON entries, when there is no
/// error, are one per entry and in the same order: each spans its entry's
/// start to its end (a positive length), carries the entry's own title
/// when the entry has one, and is named `Track <position from 1>` only
/// when it has none.
pub proof fn lemma_json_chapters_follow_entries(es: Seq<ChapterEntry>, n: int)
    requires
        0 <= n <= es.len(),
        entries_chapters(es, n) is Ok,
    ensures
        entries_chapters(es, n)->Ok_0.len() == n,
        forall|i: int|
            0 <= i < n ==> {
                let c = #[trigger] entries_chapters(es, n)->Ok_0[i];
                &&& es[i].start_ms == Some(c.1)
                &&& es[i].end_ms == Some(c.2)
                &&& c.1 < c.2
                &&& (es[i].title matches Some(t) ==> c.0 == t@)
                &&& (es[i].title is None ==> c.0 == "Track "@ + crate::text::dec((i + 1) as nat))
            },
    decreases n,
{
    if n > 0 {
        lemma_json_chapters_follow_entries(es, n - 1);
        let prev = entries_chapters(es, n - 1)->Ok_0;
        let cs = entries_chapters(es, n)->Ok_0;
        assert forall|i: int| 0 <= i < n - 1 implies cs[i] == prev[i] by {}
    }
}

/// A chapter of the list is the given triple.
pub open spec fn chapter_is(c: Chapter, t: (Seq<char>, u64, u64)) -> bool {
    c.title@ == t.0 && c.start_ms == t.1 && c.end_ms == t.2
}

/// An error among the first `i` entries is the error of all of them.
pub proof fn lemma_entries_error_stays(es: Seq<ChapterEntry>, i: int, n: int)
    requires
        0 <= i <= n,
        entries_chapters(es, i) is Err,
    ensures
        entries_chapters(es, n) == entries_chapters(es, i),
    decreases n - i,
{
    if n > i {
        lemma_entries_error_stays(es, i, n - 1);
    }
}

/// The chapters of yt-dlp's video JSON, from its `chapters` array (`None`
/// when the JSON has none): a chapter per entry, titled `Track <n>` when
/// the entry has no title; an entry without a start or an end, or whose end
/// is not after its start, is an error (see
/// [`entries_chapters`]), as is a missing array (`No chapters found`).
pub fn parse_chapters_from_json(chapters: Option<Vec<ChapterEntry>>) -> (r: Result<Vec<Chapter>, YtcsError>)
    ensures
        match chapters {
            None => r matches Err(YtcsError::ChapterError(m)) && m@ == "No chapters found"@,
            Some(es) => match entries_chapters(es@, es@.len() as int) {
                Ok(cs) => r matches Ok(v) && v@.len() == cs.len() && forall|i: int| 0 <= i < cs.len() ==> chapter_is(#[trigger] v@[i], cs[i]),
                Err(msg) => r matches Err(YtcsError::ChapterError(m)) && m@ == msg,
            },
        },
{
    let es = match chapters {
        None => return Err(YtcsError::ChapterError(owned("No chapters found"))),
        Some(es) => es,
    };
    let mut out: Vec<Chapter> = Vec::new();
    let mut i: usize = 0;
    while i < es.len()
        invariant
            chapters is Some && chapters->0@ == es@,
            i <= es@.len(),
            entries_chapters(es@, i as int) matches Ok(cs) && out@.len() == cs.len() && forall|k: int|
                0 <= k < cs.len() ==> chapter_is(#[trigger] out@[k], cs[k]),
        decreases es@.len() - i,
    {
        let e = &es[i];
        let start = match e.start_ms {
            Some(s) => s,
            None => {
                proof {
                    lemma_entries_error_stays(es@, i + 1, es@.len() as int);
                }
                return Err(YtcsError::ChapterError(owned("Invalid start_time")));
            },
        };
        let end = match e.end_ms {
            Some(t) => t,
            None => {
                proof {
                    lemma_entries_error_stays(es@, i + 1, es@.len() as int);
                }
                return Err(YtcsError::ChapterError(owned("Invalid end_time")));
            },
        };
        if end <= start {
            proof {
                lemma_entries_error_stays(es@, i + 1, es@.len() as int);
            }
            return Err(YtcsError::ChapterError(owned("Invalid end_time")));
        }
        let title = match &e.title {
            Some(t) => owned(t.as_str()),
            None => {
                let mut m: Vec<char> = Vec::new();
                push_str(&mut m, "Track ");
                crate::text::push_dec(&mut m, (i as u64) + 1);
                string_of(&m)
            },
        };
        let ghost before = out@;
        out.push(Chapter::new(title, start, end));
        proof {
            let cs = entries_chapters(es@, i as int)->Ok_0;
            let cs2 = entries_chapters(es@, i + 1)->Ok_0;
            assert(cs2 == cs.push((entry_title(es@[i as int], i as int), start, end)));
            assert forall|k: int| 0 <= k < cs2.len() implies chapter_is(#[trigger] out@[k], cs2[k]) by {
                if k < cs.len() {
                    assert(out@[k] == before[k]);
                }
            }
        }
        i = i + 1;
    }
    Ok(out)
}

} // verus!

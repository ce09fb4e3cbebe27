//! Character-sequence helpers shared by the library's parsers and formatters.
//!
//! Every transformation here is stated as a spec function on `Seq<char>`
//! that walks the sequence from the front; the executable versions work on
//! `Vec<char>` and are proved equal to those specs.

use vstd::prelude::*;

verus! {

/// Appends one character to a string.
///
/// Wraps `String::push`, whose documentation states that it appends the
/// given char to the end of the string.
#[verifier::external_body]
pub(crate) fn push_char(s: &mut String, c: char)
    ensures
        final(s)@ == old(s)@.push(c),
{
    s.push(c);
}

/// The characters of `s`, in order.
pub fn chars_of(s: &str) -> (r: Vec<char>)
    ensures
        r@ == s@,
{
    let mut r: Vec<char> = Vec::new();
    for c in it: s.chars()
        invariant
            r@ == it.history(),
    {
        r.push(c);
    }
    r
}

/// A string holding exactly the characters of `v`.
pub fn string_of(v: &Vec<char>) -> (r: String)
    ensures
        r@ == v@,
{
    let mut r = String::new();
    let mut i: usize = 0;
    while i < v.len()
        invariant
            i <= v.len(),
            r@ == v@.take(i as int),
        decreases v.len() - i,
    {
        push_char(&mut r, v[i]);
        assert(v@.take(i as int).push(v@[i as int]) =~= v@.take(i + 1));
        i = i + 1;
    }
    assert(v@.take(v.len() as int) =~= v@);
    r
}

/// Unicode `White_Space`: the characters for which `char::is_whitespace`
/// holds, and the class that `\s` denotes in the original title patterns.
pub open spec fn is_ws(c: char) -> bool {
    ||| ('\u{9}' <= c && c <= '\u{d}')
    ||| c == ' '
    ||| c == '\u{85}'
    ||| c == '\u{a0}'
    ||| c == '\u{1680}'
    ||| ('\u{2000}' <= c && c <= '\u{200a}')
    ||| c == '\u{2028}'
    ||| c == '\u{2029}'
    ||| c == '\u{202f}'
    ||| c == '\u{205f}'
    ||| c == '\u{3000}'
}

/// Executable form of [`is_ws`].
pub fn is_ws_char(c: char) -> (r: bool)
    ensures
        r == is_ws(c),
{
    ('\u{9}' <= c && c <= '\u{d}') || c == ' ' || c == '\u{85}' || c == '\u{a0}' || c
        == '\u{1680}' || ('\u{2000}' <= c && c <= '\u{200a}') || c == '\u{2028}' || c
        == '\u{2029}' || c == '\u{202f}' || c == '\u{205f}' || c == '\u{3000}'
}

/// An ASCII decimal digit.
pub open spec fn is_digit(c: char) -> bool {
    '0' <= c && c <= '9'
}

/// The value of an ASCII decimal digit.
pub open spec fn digit_value(c: char) -> nat {
    (c as int - '0' as int) as nat
}

/// ASCII case folding to lower case; other characters are unchanged.
pub open spec fn ascii_lower(c: char) -> char {
    if 'A' <= c && c <= 'Z' {
        ((c as u32) + 32) as char
    } else {
        c
    }
}

/// Executable form of [`ascii_lower`].
pub fn ascii_lower_char(c: char) -> (r: char)
    ensures
        r == ascii_lower(c),
{
    if 'A' <= c && c <= 'Z' {
        let u: u32 = (c as u32) + 32;
        assert(u == c as u32 + 32);
        // 'a'..='z' are valid scalar values
        char_from_ascii(u)
    } else {
        c
    }
}

/// The character with an ASCII code point.
fn char_from_ascii(u: u32) -> (r: char)
    requires
        u < 128,
    ensures
        r == u as char,
{
    let b: u8 = u as u8;
    b as char
}

/// Number of consecutive whitespace characters of `s` starting at `i`.
pub open spec fn ws_run(s: Seq<char>, i: int) -> nat
    decreases s.len() - i,
{
    if i < 0 || i >= s.len() || !is_ws(s[i]) {
        0
    } else {
        1 + ws_run(s, i + 1)
    }
}

/// Number of consecutive whitespace characters of `s` ending just before `i`.
pub open spec fn ws_back(s: Seq<char>, i: int) -> nat
    decreases i,
{
    if i <= 0 || i > s.len() || !is_ws(s[i - 1]) {
        0
    } else {
        1 + ws_back(s, i - 1)
    }
}

/// `str::trim_start`: leading whitespace removed.
pub open spec fn trim_start(s: Seq<char>) -> Seq<char> {
    s.skip(ws_run(s, 0) as int)
}

/// `str::trim_end`: trailing whitespace removed.
pub open spec fn trim_end(s: Seq<char>) -> Seq<char> {
    s.take(s.len() - ws_back(s, s.len() as int))
}

/// `str::trim`: leading and trailing whitespace removed.
pub open spec fn trim(s: Seq<char>) -> Seq<char> {
    trim_end(trim_start(s))
}

/// Trimming twice is trimming once.
pub proof fn lemma_trim_idempotent(s: Seq<char>)
    ensures
        trim(trim(s)) == trim(s),
{
    let a = trim_start(s);
    lemma_ws_run_bound(s, 0);
    lemma_ws_back_bound(a, a.len() as int);
    let t = trim(s);
    if t.len() > 0 {
        assert(t[0] == a[0]);
        assert(a[0] == s[ws_run(s, 0) as int]);
        assert(t[t.len() - 1] == a[t.len() - 1]);
    }
    assert(ws_run(t, 0) == 0);
    assert(trim_start(t) =~= t);
    assert(ws_back(t, t.len() as int) == 0);
    assert(trim_end(t) =~= t);
}

pub proof fn lemma_ws_run_bound(s: Seq<char>, i: int)
    requires
        0 <= i <= s.len(),
    ensures
        i + ws_run(s, i) <= s.len(),
        forall|k: int| i <= k < i + ws_run(s, i) ==> is_ws(#[trigger] s[k]),
        i + ws_run(s, i) < s.len() ==> !is_ws(s[i + ws_run(s, i)]),
    decreases s.len() - i,
{
    if i < s.len() && is_ws(s[i]) {
        lemma_ws_run_bound(s, i + 1);
    }
}

pub proof fn lemma_ws_back_bound(s: Seq<char>, i: int)
    requires
        0 <= i <= s.len(),
    ensures
        ws_back(s, i) <= i,
        forall|k: int| i - ws_back(s, i) <= k < i ==> is_ws(#[trigger] s[k]),
        i - ws_back(s, i) > 0 ==> !is_ws(s[i - ws_back(s, i) - 1]),
    decreases i,
{
    if i > 0 && is_ws(s[i - 1]) {
        lemma_ws_back_bound(s, i - 1);
    }
}

/// Length of the whitespace run of `v` that starts at `i`.
pub fn ws_run_exec(v: &Vec<char>, i: usize) -> (r: usize)
    requires
        i <= v.len(),
    ensures
        r == ws_run(v@, i as int),
        i + r <= v.len(),
{
    proof {
        lemma_ws_run_bound(v@, i as int);
    }
    let mut j = i;
    while j < v.len() && is_ws_char(v[j])
        invariant
            i <= j <= v.len(),
            ws_run(v@, i as int) == (j - i) + ws_run(v@, j as int),
        decreases v.len() - j,
    {
        j = j + 1;
    }
    j - i
}

/// Length of the whitespace run of `v` that ends just before `i`.
pub fn ws_back_exec(v: &Vec<char>, i: usize) -> (r: usize)
    requires
        i <= v.len(),
    ensures
        r == ws_back(v@, i as int),
        r <= i,
{
    proof {
        lemma_ws_back_bound(v@, i as int);
    }
    let mut j = i;
    while j > 0 && is_ws_char(v[j - 1])
        invariant
            j <= i <= v.len(),
            ws_back(v@, i as int) == (i - j) + ws_back(v@, j as int),
        decreases j,
    {
        j = j - 1;
    }
    i - j
}

/// The characters of `v` between `a` (inclusive) and `b` (exclusive).
pub fn slice(v: &Vec<char>, a: usize, b: usize) -> (r: Vec<char>)
    requires
        a <= b <= v.len(),
    ensures
        r@ == v@.subrange(a as int, b as int),
{
    let mut r: Vec<char> = Vec::new();
    let mut i = a;
    while i < b
        invariant
            a <= i <= b <= v.len(),
            r@ == v@.subrange(a as int, i as int),
        decreases b - i,
    {
        r.push(v[i]);
        assert(v@.subrange(a as int, i as int).push(v@[i as int]) =~= v@.subrange(
            a as int,
            i + 1,
        ));
        i = i + 1;
    }
    r
}

/// Appends all of `w` to `out`.
pub fn extend(out: &mut Vec<char>, w: &Vec<char>)
    ensures
        final(out)@ == old(out)@ + w@,
{
    let mut i: usize = 0;
    while i < w.len()
        invariant
            i <= w.len(),
            out@ == old(out)@ + w@.take(i as int),
        decreases w.len() - i,
    {
        out.push(w[i]);
        assert(w@.take(i as int).push(w@[i as int]) =~= w@.take(i + 1));
        i = i + 1;
    }
    assert(w@.take(w.len() as int) =~= w@);
}

/// `str::trim` on a character vector.
pub fn trim_chars(v: &Vec<char>) -> (r: Vec<char>)
    ensures
        r@ == trim(v@),
{
    let a = ws_run_exec(v, 0);
    let t = slice(v, a, v.len());
    assert(t@ =~= trim_start(v@));
    let b = ws_back_exec(&t, t.len());
    slice(&t, 0, t.len() - b)
}

/// `p` occurs in `s` at position `i`.
pub open spec fn matches_at(s: Seq<char>, p: Seq<char>, i: int) -> bool {
    0 <= i && i + p.len() <= s.len() && s.subrange(i, i + p.len()) == p
}

/// `p` occurs somewhere in `s` (`str::contains`).
pub open spec fn contains(s: Seq<char>, p: Seq<char>) -> bool {
    exists|i: int| matches_at(s, p, i)
}

/// Executable [`matches_at`].
pub fn matches_at_exec(s: &Vec<char>, p: &Vec<char>, i: usize) -> (r: bool)
    ensures
        r == matches_at(s@, p@, i as int),
{
    if i > s.len() || p.len() > s.len() - i {
        return false;
    }
    let mut k: usize = 0;
    while k < p.len()
        invariant
            i + p.len() <= s.len(),
            k <= p.len(),
            forall|j: int| 0 <= j < k ==> s@[i + j] == p@[j],
        decreases p.len() - k,
    {
        if s[i + k] != p[k] {
            assert(s@.subrange(i as int, i + p.len())[k as int] != p@[k as int]);
            return false;
        }
        k = k + 1;
    }
    assert(s@.subrange(i as int, i + p.len()) =~= p@);
    true
}

/// The first position at or after `j` where `p` occurs in `s`, or -1.
pub open spec fn first_match(s: Seq<char>, p: Seq<char>, j: int) -> int
    decreases s.len() + 1 - j,
{
    if j < 0 || j > s.len() {
        -1
    } else if matches_at(s, p, j) {
        j
    } else {
        first_match(s, p, j + 1)
    }
}

/// The first position at or after `from` where `p` occurs in `s`.
pub fn find_from(s: &Vec<char>, p: &Vec<char>, from: usize) -> (r: Option<usize>)
    ensures
        r matches Some(i) ==> from <= i && matches_at(s@, p@, i as int) && forall|j: int|
            from <= j < i ==> !matches_at(s@, p@, j),
        r is None ==> forall|j: int| from <= j ==> !matches_at(s@, p@, j),
        r matches Some(i) ==> first_match(s@, p@, from as int) == i,
        r is None ==> first_match(s@, p@, from as int) == -1,
{
    let mut i = from;
    while i < s.len()
        invariant
            from <= i,
            forall|j: int| from <= j < i ==> !matches_at(s@, p@, j),
            first_match(s@, p@, from as int) == first_match(s@, p@, i as int),
        decreases s.len() - i,
    {
        if matches_at_exec(s, p, i) {
            return Some(i);
        }
        i = i + 1;
    }
    if i == s.len() && matches_at_exec(s, p, i) {
        return Some(i);
    }
    if i == s.len() {
        assert(first_match(s@, p@, i + 1) == -1);
    }
    None
}

/// `str::contains` on character vectors.
pub fn contains_exec(s: &Vec<char>, p: &Vec<char>) -> (r: bool)
    ensures
        r == contains(s@, p@),
{
    match find_from(s, p, 0) {
        Some(i) => true,
        None => {
            assert forall|j: int| !matches_at(s@, p@, j) by {
                if j >= 0 {
                }
            }
            false
        },
    }
}

/// Number of consecutive non-whitespace characters of `s` starting at `i`.
pub open spec fn word_run(s: Seq<char>, i: int) -> nat
    decreases s.len() - i,
{
    if i < 0 || i >= s.len() || is_ws(s[i]) {
        0
    } else {
        1 + word_run(s, i + 1)
    }
}

pub proof fn lemma_word_run_bound(s: Seq<char>, i: int)
    requires
        0 <= i <= s.len(),
    ensures
        i + word_run(s, i) <= s.len(),
        forall|k: int| i <= k < i + word_run(s, i) ==> !is_ws(#[trigger] s[k]),
        i + word_run(s, i) < s.len() ==> is_ws(s[i + word_run(s, i)]),
    decreases s.len() - i,
{
    if i < s.len() && !is_ws(s[i]) {
        lemma_word_run_bound(s, i + 1);
    }
}

/// Length of the run of non-whitespace characters of `v` that starts at `i`.
pub fn word_run_exec(v: &Vec<char>, i: usize) -> (r: usize)
    requires
        i <= v.len(),
    ensures
        r == word_run(v@, i as int),
        i + r <= v.len(),
{
    proof {
        lemma_word_run_bound(v@, i as int);
    }
    let mut j = i;
    while j < v.len() && !is_ws_char(v[j])
        invariant
            i <= j <= v.len(),
            word_run(v@, i as int) == (j - i) + word_run(v@, j as int),
        decreases v.len() - j,
    {
        j = j + 1;
    }
    j - i
}

/// Number of consecutive copies of `c` in `s` starting at `i`.
pub open spec fn char_run(s: Seq<char>, i: int, c: char) -> nat
    decreases s.len() - i,
{
    if i < 0 || i >= s.len() || s[i] != c {
        0
    } else {
        1 + char_run(s, i + 1, c)
    }
}

/// Number of consecutive copies of `c` in `s` ending just before `i`.
pub open spec fn char_back(s: Seq<char>, i: int, c: char) -> nat
    decreases i,
{
    if i <= 0 || i > s.len() || s[i - 1] != c {
        0
    } else {
        1 + char_back(s, i - 1, c)
    }
}

pub proof fn lemma_char_run_bound(s: Seq<char>, i: int, c: char)
    requires
        0 <= i <= s.len(),
    ensures
        i + char_run(s, i, c) <= s.len(),
    decreases s.len() - i,
{
    if i < s.len() && s[i] == c {
        lemma_char_run_bound(s, i + 1, c);
    }
}

pub proof fn lemma_char_back_bound(s: Seq<char>, i: int, c: char)
    requires
        0 <= i <= s.len(),
    ensures
        char_back(s, i, c) <= i,
    decreases i,
{
    if i > 0 && s[i - 1] == c {
        lemma_char_back_bound(s, i - 1, c);
    }
}

/// `str::trim_matches(c)`: leading and trailing copies of `c` removed.
pub open spec fn trim_char(s: Seq<char>, c: char) -> Seq<char> {
    let t = s.skip(char_run(s, 0, c) as int);
    t.take(t.len() - char_back(t, t.len() as int, c))
}

/// `str::trim_matches(c)` on a character vector.
pub fn trim_char_exec(v: &Vec<char>, c: char) -> (r: Vec<char>)
    ensures
        r@ == trim_char(v@, c),
{
    proof {
        lemma_char_run_bound(v@, 0, c);
    }
    let mut a: usize = 0;
    while a < v.len() && v[a] == c
        invariant
            a <= v.len(),
            char_run(v@, 0, c) == a + char_run(v@, a as int, c),
        decreases v.len() - a,
    {
        a = a + 1;
    }
    let t = slice(v, a, v.len());
    proof {
        lemma_char_back_bound(t@, t@.len() as int, c);
    }
    let mut b: usize = t.len();
    while b > 0 && t[b - 1] == c
        invariant
            b <= t.len(),
            char_back(t@, t@.len() as int, c) == (t.len() - b) + char_back(t@, b as int, c),
        decreases b,
    {
        b = b - 1;
    }
    slice(&t, 0, b)
}

/// `str::replace(p, r)` applied to the part of `s` from position `i` on,
/// for a non-empty pattern `p`: occurrences are replaced left to right and
/// do not overlap.
pub open spec fn replace_from(s: Seq<char>, p: Seq<char>, r: Seq<char>, i: int) -> Seq<char>
    decreases s.len() - i,
{
    if i < 0 || i >= s.len() || p.len() == 0 {
        if 0 <= i < s.len() {
            s.skip(i)
        } else {
            Seq::empty()
        }
    } else if matches_at(s, p, i) {
        r + replace_from(s, p, r, i + p.len())
    } else {
        seq![s[i]] + replace_from(s, p, r, i + 1)
    }
}

/// `str::replace(p, r)` for a non-empty pattern `p`.
pub open spec fn replace_all(s: Seq<char>, p: Seq<char>, r: Seq<char>) -> Seq<char> {
    replace_from(s, p, r, 0)
}

/// Executable [`replace_all`].
pub fn replace_all_exec(s: &Vec<char>, p: &Vec<char>, r: &Vec<char>) -> (out: Vec<char>)
    requires
        p.len() > 0,
    ensures
        out@ == replace_all(s@, p@, r@),
{
    let mut out: Vec<char> = Vec::new();
    let mut i: usize = 0;
    while i < s.len()
        invariant
            i <= s.len(),
            p.len() > 0,
            replace_all(s@, p@, r@) == out@ + replace_from(s@, p@, r@, i as int),
        decreases s.len() - i,
    {
        if matches_at_exec(s, p, i) {
            let ghost before = out@;
            extend(&mut out, r);
            assert(before + (r@ + replace_from(s@, p@, r@, i + p.len())) =~= out@
                + replace_from(s@, p@, r@, i + p.len()));
            i = i + p.len();
        } else {
            let ghost before = out@;
            out.push(s[i]);
            assert(before + (seq![s@[i as int]] + replace_from(s@, p@, r@, i + 1)) =~= out@
                + replace_from(s@, p@, r@, i + 1));
            i = i + 1;
        }
    }
    assert(out@ + replace_from(s@, p@, r@, i as int) =~= out@);
    out
}

/// The ASCII digit character for `d < 10`.
pub open spec fn digit_char(d: nat) -> char {
    (d + 48) as char
}

/// Decimal representation of `n`, without leading zeros.
pub open spec fn dec(n: nat) -> Seq<char>
    decreases n,
{
    if n < 10 {
        seq![digit_char(n)]
    } else {
        dec(n / 10).push(digit_char(n % 10))
    }
}

/// Decimal representation of `n` padded with zeros to at least two digits
/// (`{:02}`).
pub open spec fn dec2(n: nat) -> Seq<char> {
    if n < 10 {
        seq!['0', digit_char(n)]
    } else {
        dec(n)
    }
}

/// Appends the decimal representation of `n`.
pub fn push_dec(out: &mut Vec<char>, n: u64)
    ensures
        final(out)@ == old(out)@ + dec(n as nat),
    decreases n,
{
    if n >= 10 {
        push_dec(out, n / 10);
    }
    let d: u8 = (n % 10) as u8;
    let c: char = (d + 48) as char;
    out.push(c);
    assert(old(out)@ + dec(n as nat) =~= out@);
}

/// Appends the decimal representation of `n`, zero-padded to two digits.
pub fn push_dec2(out: &mut Vec<char>, n: u64)
    ensures
        final(out)@ == old(out)@ + dec2(n as nat),
{
    if n < 10 {
        out.push('0');
    }
    push_dec(out, n);
    assert(old(out)@ + dec2(n as nat) =~= out@);
}

/// The characters of the decimal representation of `n`.
pub fn dec_chars(n: u64) -> (r: Vec<char>)
    ensures
        r@ == dec(n as nat),
{
    let mut r: Vec<char> = Vec::new();
    push_dec(&mut r, n);
    assert(r@ =~= dec(n as nat));
    r
}

/// What `char::to_uppercase` yields for `c`, collected into a string
/// (the full Unicode upper-case mapping; it may be several characters).
pub uninterp spec fn char_to_upper(c: char) -> Seq<char>;

/// What `str::to_lowercase` returns for a string with the characters `s`
/// (the full Unicode lower-case mapping, context-sensitive for final sigma).
pub uninterp spec fn str_to_lower(s: Seq<char>) -> Seq<char>;

/// What `char::is_uppercase` returns for `c` (the Unicode `Uppercase`
/// property).
pub uninterp spec fn char_is_upper(c: char) -> bool;

/// Calls `char::to_uppercase` and collects the mapping into a string. The
/// contract only names the result: it is the Unicode upper-case mapping of
/// `c`, which nothing here restates.
#[verifier::external_body]
fn upper_string(c: char) -> (r: String)
    ensures
        r@ == char_to_upper(c),
{
    c.to_uppercase().collect()
}

/// Calls `str::to_lowercase`. The contract names the result only: the
/// Unicode lower-case mapping of the string, which nothing here restates.
#[verifier::external_body]
pub(crate) fn lower_string(s: &str) -> (r: String)
    ensures
        r@ == str_to_lower(s@),
{
    s.to_lowercase()
}

/// Calls `char::is_uppercase`; the contract names its result.
#[verifier::external_body]
fn upper_property(c: char) -> (r: bool)
    ensures
        r == char_is_upper(c),
{
    c.is_uppercase()
}

/// Whether the `\d` class of the `regex` crate (Unicode's
/// `Decimal_Number` category) holds `c`.
pub uninterp spec fn unicode_decimal(c: char) -> bool;

/// Matches `c` alone against the `regex` crate's `\d`; the contract names
/// the answer. `Regex::new` fails only on a pattern it cannot parse or
/// that is too large, which this constant pattern is not.
#[verifier::external_body]
fn decimal_number(c: char) -> (r: bool)
    ensures
        r == unicode_decimal(c),
{
    match regex::Regex::new(r"\A\d\z") {
        Ok(re) => re.is_match(&c.to_string()),
        Err(_) => false,
    }
}

/// A character that `\d` matches: an ASCII digit, or outside ASCII a
/// character of Unicode's `Decimal_Number` category.
pub open spec fn regex_digit(c: char) -> bool {
    if (c as u32) < 128u32 {
        is_digit(c)
    } else {
        unicode_decimal(c)
    }
}

/// Whether `\d` matches `c`: see [`regex_digit`].
pub fn regex_digit_exec(c: char) -> (r: bool)
    ensures
        r == regex_digit(c),
{
    if (c as u32) < 128u32 {
        '0' <= c && c <= '9'
    } else {
        decimal_number(c)
    }
}

/// The Unicode upper-case mapping of `c`.
pub fn to_upper_chars(c: char) -> (r: Vec<char>)
    ensures
        r@ == char_to_upper(c),
{
    let s = upper_string(c);
    chars_of(s.as_str())
}

/// The Unicode lower-case mapping of the string `v`.
pub fn to_lower_chars(v: &Vec<char>) -> (r: Vec<char>)
    ensures
        r@ == str_to_lower(v@),
{
    let s = string_of(v);
    let l = lower_string(s.as_str());
    chars_of(l.as_str())
}

/// Whether `c` has the Unicode `Uppercase` property.
pub fn is_upper_char(c: char) -> (r: bool)
    ensures
        r == char_is_upper(c),
{
    upper_property(c)
}

/// Appends the characters of `s` to `out`.
pub fn push_str(out: &mut Vec<char>, s: &str)
    ensures
        final(out)@ == old(out)@ + s@,
{
    let v = chars_of(s);
    extend(out, &v);
}

/// The concatenation of two strings.
pub fn concat2(a: &str, b: &str) -> (r: String)
    ensures
        r@ == a@ + b@,
{
    let mut v = chars_of(a);
    push_str(&mut v, b);
    string_of(&v)
}

/// An owned copy of `s`.
pub fn owned(s: &str) -> (r: String)
    ensures
        r@ == s@,
{
    s.to_owned()
}

/// Whether two character vectors are equal.
pub fn chars_eq(a: &Vec<char>, b: &Vec<char>) -> (r: bool)
    ensures
        r == (a@ == b@),
{
    if a.len() != b.len() {
        return false;
    }
    let mut i: usize = 0;
    while i < a.len()
        invariant
            a.len() == b.len(),
            i <= a.len(),
            forall|j: int| 0 <= j < i ==> a@[j] == b@[j],
        decreases a.len() - i,
    {
        if a[i] != b[i] {
            return false;
        }
        i = i + 1;
    }
    assert(a@ =~= b@);
    true
}

/// Whether two strings hold the same characters.
pub fn str_eq(a: &str, b: &str) -> (r: bool)
    ensures
        r == (a@ == b@),
{
    let va = chars_of(a);
    let vb = chars_of(b);
    chars_eq(&va, &vb)
}

/// Number of bytes that UTF-8 takes for `c`.
pub open spec fn utf8_width(c: char) -> nat {
    if (c as u32) < 0x80 {
        1
    } else if (c as u32) < 0x800 {
        2
    } else if (c as u32) < 0x10000 {
        3
    } else {
        4
    }
}

/// Number of bytes of the UTF-8 encoding of `s` (what `str::len` returns).
pub open spec fn utf8_len(s: Seq<char>) -> nat
    decreases s.len(),
{
    if s.len() == 0 {
        0
    } else {
        utf8_len(s.drop_last()) + utf8_width(s.last())
    }
}

/// `utf8_len` grows with the prefix taken.
pub proof fn lemma_utf8_len_prefix(s: Seq<char>, i: int, j: int)
    requires
        0 <= i <= j <= s.len(),
    ensures
        utf8_len(s.take(i)) + (j - i) <= utf8_len(s.take(j)) <= utf8_len(s.take(i)) + 4 * (j - i),
    decreases j - i,
{
    if i < j {
        lemma_utf8_len_prefix(s, i, j - 1);
        assert(s.take(j).drop_last() =~= s.take(j - 1));
    }
}

/// `utf8_len` of a concatenation.
pub proof fn lemma_utf8_len_concat(a: Seq<char>, b: Seq<char>)
    ensures
        utf8_len(a + b) == utf8_len(a) + utf8_len(b),
    decreases b.len(),
{
    if b.len() > 0 {
        lemma_utf8_len_concat(a, b.drop_last());
        assert((a + b).drop_last() =~= a + b.drop_last());
    } else {
        assert(a + b =~= a);
    }
}

/// Bytes that UTF-8 takes for `c`.
pub fn utf8_width_exec(c: char) -> (r: usize)
    ensures
        r == utf8_width(c),
{
    let u = c as u32;
    if u < 0x80 {
        1
    } else if u < 0x800 {
        2
    } else if u < 0x10000 {
        3
    } else {
        4
    }
}

/// Byte length of the UTF-8 encoding of `v`, saturated at `usize::MAX`.
pub fn utf8_len_exec(v: &Vec<char>) -> (r: usize)
    ensures
        r == if utf8_len(v@) <= usize::MAX { utf8_len(v@) } else { usize::MAX as nat },
{
    let mut n: usize = 0;
    let mut i: usize = 0;
    while i < v.len()
        invariant
            i <= v.len(),
            n == if utf8_len(v@.take(i as int)) <= usize::MAX {
                utf8_len(v@.take(i as int))
            } else {
                usize::MAX as nat
            },
        decreases v.len() - i,
    {
        let w = utf8_width_exec(v[i]);
        assert(v@.take(i + 1).drop_last() =~= v@.take(i as int));
        n = n.saturating_add(w);
        i = i + 1;
    }
    assert(v@.take(v.len() as int) =~= v@);
    n
}

/// `n` copies of `c`.
pub open spec fn repeat(c: char, n: nat) -> Seq<char> {
    Seq::new(n, |_i: int| c)
}

/// Appends `n` copies of `c` to `out`.
pub fn push_repeat(out: &mut Vec<char>, c: char, n: usize)
    ensures
        final(out)@ == old(out)@ + repeat(c, n as nat),
{
    let ghost start = out@;
    let mut i: usize = 0;
    while i < n
        invariant
            i <= n,
            out@ == start + repeat(c, i as nat),
        decreases n - i,
    {
        out.push(c);
        i = i + 1;
        assert(out@ =~= start + repeat(c, i as nat));
    }
}

/// A string of `n` copies of `c`.
pub fn repeat_string(c: char, n: usize) -> (r: String)
    ensures
        r@ == repeat(c, n as nat),
{
    let mut v: Vec<char> = Vec::new();
    push_repeat(&mut v, c, n);
    assert(v@ =~= repeat(c, n as nat));
    string_of(&v)
}

/// `utf8_len` is the length of the UTF-8 encoding.
pub proof fn lemma_utf8_len_encoded(s: Seq<char>)
    ensures
        vstd::utf8::encode_utf8(s).len() == utf8_len(s),
    decreases s.len(),
{
    if s.len() > 0 {
        lemma_utf8_len_encoded(s.drop_first());
        lemma_utf8_len_concat(seq![s[0]], s.drop_first());
        assert(seq![s[0]] + s.drop_first() =~= s);
        assert(seq![s[0]].drop_last() =~= Seq::<char>::empty());
        let one = seq![s[0]];
        assert(one.drop_last() =~= Seq::<char>::empty());
        assert(utf8_len(one.drop_last()) == 0);
        assert(utf8_len(one) == utf8_width(s[0]));
        vstd::utf8::char_is_scalar(s[0]);
        assert(vstd::utf8::encode_scalar(s[0] as u32).len() == utf8_width(s[0]));
    }
}

/// The number of bytes of `s`, which is [`utf8_len`] of its characters.
pub fn byte_len(s: &str) -> (r: usize)
    ensures
        r == utf8_len(s@),
{
    proof {
        lemma_utf8_len_encoded(s@);
    }
    let b = s.as_bytes();
    b.len()
}

/// Every character of `s` is an ASCII digit.
pub open spec fn all_digits(s: Seq<char>) -> bool {
    forall|i: int| 0 <= i < s.len() ==> is_digit(#[trigger] s[i])
}

/// The decimal value of a string of digits.
pub open spec fn digits_value(s: Seq<char>) -> nat
    decreases s.len(),
{
    if s.len() == 0 {
        0
    } else {
        digits_value(s.drop_last()) * 10 + digit_value(s.last())
    }
}

/// What parsing `s` as an unsigned integer yields (as `str::parse` does
/// for unsigned types): an optional `+`, then one or more ASCII digits;
/// anything else is rejected.
pub open spec fn parse_unsigned(s: Seq<char>) -> Option<nat> {
    let d = if s.len() > 0 && s[0] == '+' { s.skip(1) } else { s };
    if d.len() > 0 && all_digits(d) {
        Some(digits_value(d))
    } else {
        None
    }
}

/// Parses `s` as a `u64`: [`parse_unsigned`], rejecting values above
/// `u64::MAX`.
pub fn parse_u64(s: &str) -> (r: Option<u64>)
    ensures
        r == match parse_unsigned(s@) {
            Some(v) => if v <= u64::MAX { Some(v as u64) } else { None },
            None => None,
        },
{
    let v = chars_of(s);
    let start: usize = if v.len() > 0 && v[0] == '+' { 1 } else { 0 };
    let ghost d = if v@.len() > 0 && v@[0] == '+' { v@.skip(1) } else { v@ };
    assert(d =~= v@.skip(start as int));
    if start >= v.len() {
        return None;
    }
    let mut acc: u64 = 0;
    let mut overflow = false;
    let mut i: usize = start;
    assert(v@.subrange(start as int, start as int) =~= Seq::<char>::empty());
    while i < v.len()
        invariant
            v@ == s@,
            d == (if s@.len() > 0 && s@[0] == '+' { s@.skip(1) } else { s@ }),
            start <= i <= v@.len(),
            d =~= v@.skip(start as int),
            all_digits(v@.subrange(start as int, i as int)),
            overflow ==> digits_value(v@.subrange(start as int, i as int)) > u64::MAX,
            !overflow ==> acc == digits_value(v@.subrange(start as int, i as int)),
        decreases v@.len() - i,
    {
        let c = v[i];
        if !('0' <= c && c <= '9') {
            proof {
                assert(d[i - start] == c);
                assert(!is_digit(d[i - start]));
            }
            return None;
        }
        let dv: u64 = (c as u32 - '0' as u32) as u64;
        let ghost prev = v@.subrange(start as int, i as int);
        proof {
            assert(v@.subrange(start as int, i + 1).drop_last() =~= prev);
            assert(v@.subrange(start as int, i + 1).last() == c);
        }
        if !overflow {
            match acc.checked_mul(10) {
                Some(m) => match m.checked_add(dv) {
                    Some(n) => {
                        acc = n;
                    },
                    None => {
                        overflow = true;
                    },
                },
                None => {
                    overflow = true;
                },
            }
        } else {
            proof {
                assert(digits_value(prev) * 10 + digit_value(c) > u64::MAX) by (nonlinear_arith)
                    requires
                        digits_value(prev) > u64::MAX,
                ;
            }
        }
        i = i + 1;
    }
    assert(v@.subrange(start as int, v@.len() as int) =~= d);
    if overflow {
        None
    } else {
        Some(acc)
    }
}

/// Parses `s` as a `u32`: [`parse_unsigned`], rejecting values above
/// `u32::MAX`.
pub fn parse_u32(s: &str) -> (r: Option<u32>)
    ensures
        r == match parse_unsigned(s@) {
            Some(v) => if v <= u32::MAX { Some(v as u32) } else { None },
            None => None,
        },
{
    match parse_u64(s) {
        Some(v) => if v <= 0xffff_ffff {
            Some(v as u32)
        } else {
            None
        },
        None => None,
    }
}

/// What parsing `s` as a `bool` yields: only "true" and "false" are
/// accepted.
pub open spec fn parse_bool_spec(s: Seq<char>) -> Option<bool> {
    if s == "true"@ {
        Some(true)
    } else if s == "false"@ {
        Some(false)
    } else {
        None
    }
}

/// Parses `s` as a `bool`: see [`parse_bool_spec`].
pub fn parse_bool(s: &str) -> (r: Option<bool>)
    ensures
        r == parse_bool_spec(s@),
{
    if str_eq(s, "true") {
        Some(true)
    } else if str_eq(s, "false") {
        Some(false)
    } else {
        None
    }
}

/// The text of a boolean, as `bool::to_string` gives it.
pub open spec fn bool_text(b: bool) -> Seq<char> {
    if b { "true"@ } else { "false"@ }
}

/// The text of a boolean.
pub fn bool_string(b: bool) -> (r: String)
    ensures
        r@ == bool_text(b),
{
    if b { owned("true") } else { owned("false") }
}

} // verus!

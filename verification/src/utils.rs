//! Cleaning of video titles into folder names, artist/album detection and
//! track-title sanitising.
//!
//! The title patterns are this project's own grammar; each step is stated
//! as a spec function over the characters of the title.

use vstd::prelude::*;
use crate::text::{
    ascii_lower, ascii_lower_char, char_to_upper, chars_of, extend, is_ws, is_ws_char,
    lemma_word_run_bound, lemma_ws_back_bound, lemma_ws_run_bound, slice, str_to_lower, string_of,
    to_lower_chars, to_upper_chars, trim, trim_char, trim_char_exec, trim_chars, word_run,
    contains, contains_exec, find_from, first_match, matches_at, matches_at_exec, is_digit, regex_digit, regex_digit_exec,
    word_run_exec, ws_back, ws_back_exec, ws_run, ws_run_exec,
};

verus! {

/// `s` holds, from position `i`, the lower-case ASCII word `w` in any ASCII
/// case.
pub open spec fn ci_at(s: Seq<char>, w: Seq<char>, i: int) -> bool {
    &&& 0 <= i
    &&& i + w.len() <= s.len()
    &&& forall|k: int| 0 <= k < w.len() ==> ascii_lower(#[trigger] s[i + k]) == w[k]
}

pub open spec fn word_full() -> Seq<char> {
    seq!['f', 'u', 'l', 'l']
}

pub open spec fn word_album() -> Seq<char> {
    seq!['a', 'l', 'b', 'u', 'm']
}

/// Executable [`ci_at`].
fn ci_at_exec(v: &Vec<char>, w: &Vec<char>, i: usize) -> (r: bool)
    ensures
        r == ci_at(v@, w@, i as int),
{
    if i > v.len() || w.len() > v.len() - i {
        return false;
    }
    let mut k: usize = 0;
    while k < w.len()
        invariant
            i + w.len() <= v.len(),
            k <= w.len(),
            forall|j: int| 0 <= j < k ==> ascii_lower(#[trigger] v@[i + j]) == w@[j],
        decreases w.len() - k,
    {
        if ascii_lower_char(v[i + k]) != w[k] {
            return false;
        }
        k = k + 1;
    }
    true
}

fn full_chars() -> (r: Vec<char>)
    ensures
        r@ == word_full(),
{
    let r = vec!['f', 'u', 'l', 'l'];
    assert(r@ =~= word_full());
    r
}

fn album_chars() -> (r: Vec<char>)
    ensures
        r@ == word_album(),
{
    let r = vec!['a', 'l', 'b', 'u', 'm'];
    assert(r@ =~= word_album());
    r
}

/// No line break in `s` after position `e`.
pub open spec fn no_newline_after(s: Seq<char>, e: int) -> bool {
    forall|k: int| e < k < s.len() ==> s[k] != '\n'
}

/// At `j` stands `[full album]` or `(full album)` (any ASCII case, one or
/// more whitespace characters between the words) with no line break after
/// it: the part of `(?i)\s*[\[(]full\s+album[\])].*$` after its leading
/// whitespace.
pub open spec fn bracketed_full_album_at(s: Seq<char>, j: int) -> bool {
    let m = ws_run(s, j + 5);
    let e = j + 10 + m;
    &&& 0 <= j < s.len()
    &&& (s[j] == '[' || s[j] == '(')
    &&& ci_at(s, word_full(), j + 1)
    &&& m >= 1
    &&& ci_at(s, word_album(), j + 5 + m)
    &&& e < s.len()
    &&& (s[e] == ']' || s[e] == ')')
    &&& no_newline_after(s, e)
}

/// The first position at or after `j` where [`bracketed_full_album_at`]
/// holds, or -1.
pub open spec fn first_full_album(s: Seq<char>, j: int) -> int
    decreases s.len() - j,
{
    if j < 0 || j >= s.len() {
        -1
    } else if bracketed_full_album_at(s, j) {
        j
    } else {
        first_full_album(s, j + 1)
    }
}

/// The title with everything from the first bracketed "full album" marker
/// on removed, together with the whitespace just before it.
pub open spec fn strip_full_album(s: Seq<char>) -> Seq<char> {
    let j = first_full_album(s, 0);
    if j >= 0 {
        s.take(j - ws_back(s, j))
    } else {
        s
    }
}

fn no_newline_after_exec(v: &Vec<char>, e: usize) -> (r: bool)
    ensures
        r == no_newline_after(v@, e as int),
{
    if e >= v.len() {
        return true;
    }
    let mut k = e + 1;
    while k < v.len()
        invariant
            e < k,
            e < v.len(),
            forall|q: int| e < q < k ==> v@[q] != '\n',
        decreases v.len() - k,
    {
        if v[k] == '\n' {
            return false;
        }
        k = k + 1;
    }
    true
}

fn bracketed_full_album_at_exec(v: &Vec<char>, j: usize) -> (r: bool)
    requires
        j < v.len(),
    ensures
        r == bracketed_full_album_at(v@, j as int),
{
    if !(v[j] == '[' || v[j] == '(') {
        return false;
    }
    let full = full_chars();
    if !ci_at_exec(v, &full, j + 1) {
        return false;
    }
    let m = ws_run_exec(v, j + 5);
    if m < 1 {
        return false;
    }
    let album = album_chars();
    if !ci_at_exec(v, &album, j + 5 + m) {
        return false;
    }
    let e = j + 10 + m;
    if e >= v.len() {
        return false;
    }
    if !(v[e] == ']' || v[e] == ')') {
        return false;
    }
    no_newline_after_exec(v, e)
}

/// Executable [`strip_full_album`].
pub fn strip_full_album_exec(v: &Vec<char>) -> (r: Vec<char>)
    ensures
        r@ == strip_full_album(v@),
{
    let mut j: usize = 0;
    while j < v.len()
        invariant
            j <= v.len(),
            first_full_album(v@, 0) == first_full_album(v@, j as int),
        decreases v.len() - j,
    {
        if bracketed_full_album_at_exec(v, j) {
            let b = ws_back_exec(v, j);
            return slice(v, 0, j - b);
        }
        j = j + 1;
    }
    slice(v, 0, v.len())
}

/// Position of the first `close` at or after `k` that comes before any line
/// break, or -1.
pub open spec fn close_from(s: Seq<char>, close: char, k: int) -> int
    decreases s.len() - k,
{
    if k < 0 || k >= s.len() || s[k] == '\n' {
        -1
    } else if s[k] == close {
        k
    } else {
        close_from(s, close, k + 1)
    }
}

pub proof fn lemma_close_from_bound(s: Seq<char>, close: char, k: int)
    ensures
        close_from(s, close, k) == -1 || (k <= close_from(s, close, k) < s.len()),
    decreases s.len() - k,
{
    if 0 <= k < s.len() && s[k] != '\n' && s[k] != close {
        lemma_close_from_bound(s, close, k + 1);
    }
}

/// `\[.*?\]|\(.*?\)` replaced by nothing, from position `i` on: each opening
/// bracket together with everything up to the first matching closing bracket
/// on the same line is dropped.
pub open spec fn strip_brackets_from(s: Seq<char>, i: int) -> Seq<char>
    decreases s.len() - i,
{
    if i < 0 || i >= s.len() {
        Seq::empty()
    } else if s[i] == '[' && close_from(s, ']', i + 1) >= 0 {
        proof {
            lemma_close_from_bound(s, ']', i + 1);
        }
        strip_brackets_from(s, close_from(s, ']', i + 1) + 1)
    } else if s[i] == '(' && close_from(s, ')', i + 1) >= 0 {
        proof {
            lemma_close_from_bound(s, ')', i + 1);
        }
        strip_brackets_from(s, close_from(s, ')', i + 1) + 1)
    } else {
        seq![s[i]] + strip_brackets_from(s, i + 1)
    }
}

/// Every bracketed or parenthesised part of the title removed.
pub open spec fn strip_brackets(s: Seq<char>) -> Seq<char> {
    strip_brackets_from(s, 0)
}

fn close_from_exec(v: &Vec<char>, close: char, k: usize) -> (r: Option<usize>)
    ensures
        r matches Some(c) ==> close_from(v@, close, k as int) == c as int,
        r is None ==> close_from(v@, close, k as int) == -1,
{
    let mut q = k;
    while q < v.len()
        invariant
            k <= q,
            close_from(v@, close, k as int) == close_from(v@, close, q as int),
        decreases v.len() - q,
    {
        if v[q] == '\n' {
            return None;
        }
        if v[q] == close {
            return Some(q);
        }
        q = q + 1;
    }
    None
}

/// Executable [`strip_brackets`].
pub fn strip_brackets_exec(v: &Vec<char>) -> (r: Vec<char>)
    ensures
        r@ == strip_brackets(v@),
{
    let mut out: Vec<char> = Vec::new();
    let mut i: usize = 0;
    while i < v.len()
        invariant
            i <= v.len(),
            strip_brackets(v@) == out@ + strip_brackets_from(v@, i as int),
        decreases v.len() - i,
    {
        let c = v[i];
        if c == '[' || c == '(' {
            let close = if c == '[' {
                ']'
            } else {
                ')'
            };
            match close_from_exec(v, close, i + 1) {
                Some(e) => {
                    proof {
                        lemma_close_from_bound(v@, close, i + 1);
                    }
                    i = e + 1;
                    continue ;
                },
                None => {},
            }
        }
        let ghost before = out@;
        out.push(c);
        assert(before + (seq![c] + strip_brackets_from(v@, i + 1)) =~= out@
            + strip_brackets_from(v@, i + 1));
        i = i + 1;
    }
    assert(out@ + strip_brackets_from(v@, i as int) =~= out@);
    out
}

/// Underscores, pipes and slashes become dashes.
pub open spec fn dashify(c: char) -> char {
    if c == '_' || c == '|' || c == '/' {
        '-'
    } else {
        c
    }
}

pub open spec fn dashify_all(s: Seq<char>) -> Seq<char> {
    s.map_values(|c: char| dashify(c))
}

fn dashify_exec(v: &Vec<char>) -> (r: Vec<char>)
    ensures
        r@ == dashify_all(v@),
{
    let mut r: Vec<char> = Vec::new();
    let mut i: usize = 0;
    while i < v.len()
        invariant
            i <= v.len(),
            r@ == dashify_all(v@.take(i as int)),
        decreases v.len() - i,
    {
        let c = v[i];
        let d = if c == '_' || c == '|' || c == '/' {
            '-'
        } else {
            c
        };
        r.push(d);
        assert(dashify_all(v@.take(i as int)).push(d) =~= dashify_all(v@.take(i + 1)));
        i = i + 1;
    }
    assert(v@.take(v.len() as int) =~= v@);
    r
}

/// Where a trailing `- full album` (any ASCII case, whitespace around the
/// dash and after the words, one or more whitespace characters between the
/// words) begins, including the whitespace before the dash; -1 when the title
/// does not end that way. This is the start of the match of
/// `(?i)\s*-\s*full\s+album\s*$`.
pub open spec fn unbracketed_cut(s: Seq<char>) -> int {
    let e0 = s.len() - ws_back(s, s.len() as int);
    let p1 = e0 - 5;
    let w = ws_back(s, p1);
    let p2 = p1 - w;
    let p3 = p2 - 4;
    let p4 = p3 - ws_back(s, p3);
    let d = p4 - 1;
    if p1 >= 0 && ci_at(s, word_album(), p1) && w >= 1 && p3 >= 0 && ci_at(s, word_full(), p3)
        && d >= 0 && s[d] == '-' {
        d - ws_back(s, d)
    } else {
        -1
    }
}

/// The title with a trailing `- full album` removed.
pub open spec fn strip_unbracketed(s: Seq<char>) -> Seq<char> {
    if unbracketed_cut(s) >= 0 {
        s.take(unbracketed_cut(s))
    } else {
        s
    }
}

fn strip_unbracketed_exec(v: &Vec<char>) -> (r: Vec<char>)
    ensures
        r@ == strip_unbracketed(v@),
{
    proof {
        lemma_ws_back_bound(v@, v@.len() as int);
    }
    let e0 = v.len() - ws_back_exec(v, v.len());
    if e0 < 5 {
        return slice(v, 0, v.len());
    }
    let p1 = e0 - 5;
    let album = album_chars();
    if !ci_at_exec(v, &album, p1) {
        return slice(v, 0, v.len());
    }
    let w = ws_back_exec(v, p1);
    if w < 1 || p1 - w < 4 {
        return slice(v, 0, v.len());
    }
    let p3 = p1 - w - 4;
    let full = full_chars();
    if !ci_at_exec(v, &full, p3) {
        return slice(v, 0, v.len());
    }
    let p4 = p3 - ws_back_exec(v, p3);
    if p4 < 1 || v[p4 - 1] != '-' {
        return slice(v, 0, v.len());
    }
    let d = p4 - 1;
    let b = ws_back_exec(v, d);
    slice(v, 0, d - b)
}

/// `\s+` replaced by a single space, from position `i` on.
pub open spec fn collapse_ws_from(s: Seq<char>, i: int) -> Seq<char>
    decreases s.len() - i,
{
    if i < 0 || i >= s.len() {
        Seq::empty()
    } else if is_ws(s[i]) {
        proof {
            lemma_ws_run_bound(s, i);
        }
        seq![' '] + collapse_ws_from(s, i + ws_run(s, i))
    } else {
        seq![s[i]] + collapse_ws_from(s, i + 1)
    }
}

fn collapse_ws_exec(v: &Vec<char>) -> (r: Vec<char>)
    ensures
        r@ == collapse_ws_from(v@, 0),
{
    let mut out: Vec<char> = Vec::new();
    let mut i: usize = 0;
    while i < v.len()
        invariant
            i <= v.len(),
            collapse_ws_from(v@, 0) == out@ + collapse_ws_from(v@, i as int),
        decreases v.len() - i,
    {
        let ghost before = out@;
        if is_ws_char(v[i]) {
            let n = ws_run_exec(v, i);
            out.push(' ');
            assert(before + (seq![' '] + collapse_ws_from(v@, i + n)) =~= out@ + collapse_ws_from(
                v@,
                i + n,
            ));
            i = i + n;
        } else {
            out.push(v[i]);
            assert(before + (seq![v@[i as int]] + collapse_ws_from(v@, i + 1)) =~= out@
                + collapse_ws_from(v@, i + 1));
            i = i + 1;
        }
    }
    assert(out@ + collapse_ws_from(v@, i as int) =~= out@);
    out
}

/// A word with its first character upper-cased and the rest lower-cased.
pub open spec fn capitalize(w: Seq<char>) -> Seq<char> {
    if w.len() == 0 {
        w
    } else {
        char_to_upper(w[0]) + str_to_lower(w.skip(1))
    }
}

/// The whitespace-separated words of `s` from position `i` on, each
/// [`capitalize`]d, joined by single spaces.
pub open spec fn capitalize_words_from(s: Seq<char>, i: int) -> Seq<char>
    decreases s.len() - i,
{
    let a = i + ws_run(s, i);
    let n = word_run(s, a);
    let b = a + n;
    if i < 0 || a >= s.len() || n == 0 {
        Seq::empty()
    } else if b + ws_run(s, b) >= s.len() {
        capitalize(s.subrange(a, b))
    } else {
        capitalize(s.subrange(a, b)) + seq![' '] + capitalize_words_from(s, b)
    }
}

fn capitalize_exec(w: &Vec<char>) -> (r: Vec<char>)
    ensures
        r@ == capitalize(w@),
{
    if w.len() == 0 {
        return Vec::new();
    }
    let mut r = to_upper_chars(w[0]);
    let rest = slice(w, 1, w.len());
    assert(rest@ =~= w@.skip(1));
    let low = to_lower_chars(&rest);
    extend(&mut r, &low);
    r
}

fn capitalize_words_exec(v: &Vec<char>) -> (r: Vec<char>)
    ensures
        r@ == capitalize_words_from(v@, 0),
{
    let mut out: Vec<char> = Vec::new();
    let mut i: usize = 0;
    loop
        invariant
            i <= v.len(),
            capitalize_words_from(v@, 0) == out@ + capitalize_words_from(v@, i as int),
        decreases v.len() - i,
    {
        let a = i + ws_run_exec(v, i);
        if a >= v.len() {
            proof {
                lemma_word_run_bound(v@, a as int);
            }
            assert(out@ + capitalize_words_from(v@, i as int) =~= out@);
            return out;
        }
        proof {
            lemma_ws_run_bound(v@, i as int);
        }
        let n = word_run_exec(v, a);
        assert(n > 0);
        let b = a + n;
        let word = slice(v, a, b);
        let cap = capitalize_exec(&word);
        let ghost before = out@;
        extend(&mut out, &cap);
        let m = ws_run_exec(v, b);
        if b + m >= v.len() {
            assert(out@ + capitalize_words_from(v@, b + m) =~= out@);
            assert(before + capitalize_words_from(v@, i as int) =~= out@);
            return out;
        }
        out.push(' ');
        assert(before + (cap@ + seq![' '] + capitalize_words_from(v@, b as int)) =~= out@
            + capitalize_words_from(v@, b as int));
        i = b;
    }
}

/// Clean-up of a raw title into a folder name:
/// the first bracketed "full album" marker and everything after it dropped;
/// remaining bracketed parts dropped; `_`, `|` and `/` made dashes; a
/// trailing `- full album` dropped; whitespace runs collapsed; each word
/// capitalised; spaces and dashes trimmed from both ends.
pub open spec fn clean_folder_name_spec(s: Seq<char>) -> Seq<char> {
    let a = strip_brackets(strip_full_album(s));
    let b = strip_unbracketed(dashify_all(a));
    let c = capitalize_words_from(collapse_ws_from(b, 0), 0);
    trim(trim_char(trim(c), '-'))
}

/// Dropping a trailing `- full album` keeps a prefix of the text.
proof fn lemma_strip_unbracketed_prefix(s: Seq<char>)
    ensures
        strip_unbracketed(s).len() <= s.len(),
        forall|k: int| 0 <= k < strip_unbracketed(s).len() ==> strip_unbracketed(s)[k] == s[k],
{
    lemma_ws_back_bound(s, s.len() as int);
    let e0 = s.len() - ws_back(s, s.len() as int);
    let p1 = e0 - 5;
    if p1 >= 0 {
        lemma_ws_back_bound(s, p1);
        let p3 = p1 - ws_back(s, p1) - 4;
        if p3 >= 0 {
            lemma_ws_back_bound(s, p3);
            let d = p3 - ws_back(s, p3) - 1;
            if d >= 0 {
                lemma_ws_back_bound(s, d);
            }
        }
    }
}

/// A character that separates words in a raw title and that a folder name
/// does not keep: `_`, `|` or `/`.
pub open spec fn is_name_separator(c: char) -> bool {
    c == '_' || c == '|' || c == '/'
}

/// No `_`, `|` or `/` of a title is left when its words are capitalised:
/// the cleaned folder name is the word-by-word capitalisation of a text
/// (its whitespace collapsed) that holds none of them, trimmed of spaces
/// and dashes. Every such character of the title has become a dash, or
/// was dropped with a bracketed part or a full-album suffix.
pub proof fn lemma_folder_name_without_separators(s: Seq<char>)
    ensures
        exists|t: Seq<char>|
            #![trigger collapse_ws_from(t, 0)]
            (forall|k: int| 0 <= k < t.len() ==> !is_name_separator(#[trigger] t[k])) && clean_folder_name_spec(s)
                == trim(trim_char(trim(capitalize_words_from(collapse_ws_from(t, 0), 0)), '-')),
{
    let a = strip_brackets(strip_full_album(s));
    let x = dashify_all(a);
    let b = strip_unbracketed(x);
    lemma_strip_unbracketed_prefix(x);
    assert forall|k: int| 0 <= k < b.len() implies !is_name_separator(#[trigger] b[k]) by {
        assert(b[k] == x[k]);
        assert(x[k] == dashify(a[k]));
    }
    assert(clean_folder_name_spec(s) == trim(trim_char(trim(capitalize_words_from(collapse_ws_from(b, 0), 0)), '-')));
}

fn clean_folder_name_chars(v: &Vec<char>) -> (r: Vec<char>)
    ensures
        r@ == clean_folder_name_spec(v@),
{
    let a0 = strip_full_album_exec(v);
    let a = strip_brackets_exec(&a0);
    let d = dashify_exec(&a);
    let b = strip_unbracketed_exec(&d);
    let c0 = collapse_ws_exec(&b);
    let c = capitalize_words_exec(&c0);
    let t = trim_chars(&c);
    let u = trim_char_exec(&t, '-');
    trim_chars(&u)
}

/// Cleans and formats a folder name: see [`clean_folder_name_spec`].
pub fn clean_folder_name(name: &str) -> (r: String)
    ensures
        r@ == clean_folder_name_spec(name@),
{
    let v = chars_of(name);
    string_of(&clean_folder_name_chars(&v))
}

/// Characters that file systems refuse become `_`.
pub open spec fn fs_safe(c: char) -> char {
    if c == '/' || c == '\\' || c == ':' || c == '*' || c == '?' || c == '"' || c == '<' || c
        == '>' || c == '|' {
        '_'
    } else {
        c
    }
}

pub open spec fn fs_safe_all(s: Seq<char>) -> Seq<char> {
    s.map_values(|c: char| fs_safe(c))
}

fn fs_safe_exec(v: &Vec<char>) -> (r: Vec<char>)
    ensures
        r@ == fs_safe_all(v@),
{
    let mut r: Vec<char> = Vec::new();
    let mut i: usize = 0;
    while i < v.len()
        invariant
            i <= v.len(),
            r@ == fs_safe_all(v@.take(i as int)),
        decreases v.len() - i,
    {
        let c = v[i];
        let d = if c == '/' || c == '\\' || c == ':' || c == '*' || c == '?' || c == '"' || c
            == '<' || c == '>' || c == '|' {
            '_'
        } else {
            c
        };
        r.push(d);
        assert(fs_safe_all(v@.take(i as int)).push(d) =~= fs_safe_all(v@.take(i + 1)));
        i = i + 1;
    }
    assert(v@.take(v.len() as int) =~= v@);
    r
}

/// Replaces the characters that file systems refuse (`/ \ : * ? " < > |`)
/// with `_`.
pub fn sanitize_filesystem_chars(s: &str) -> (r: String)
    ensures
        r@ == fs_safe_all(s@),
{
    let v = chars_of(s);
    string_of(&fs_safe_exec(&v))
}

/// Number of consecutive digits (as `\d` has them, see
/// [`regex_digit`]) of `s` starting at `i`.
pub open spec fn digit_run(s: Seq<char>, i: int) -> nat
    decreases s.len() - i,
{
    if i < 0 || i >= s.len() || !regex_digit(s[i]) {
        0
    } else {
        1 + digit_run(s, i + 1)
    }
}

pub proof fn lemma_digit_run_bound(s: Seq<char>, i: int)
    requires
        0 <= i <= s.len(),
    ensures
        i + digit_run(s, i) <= s.len(),
    decreases s.len() - i,
{
    if i < s.len() && regex_digit(s[i]) {
        lemma_digit_run_bound(s, i + 1);
    }
}

/// Length of the run of digits of `v` that starts at `i`: see
/// [`digit_run`].
pub fn digit_run_exec(v: &Vec<char>, i: usize) -> (r: usize)
    requires
        i <= v.len(),
    ensures
        r == digit_run(v@, i as int),
        i + r <= v.len(),
{
    proof {
        lemma_digit_run_bound(v@, i as int);
    }
    let mut j = i;
    while j < v.len() && regex_digit_exec(v[j])
        invariant
            i <= j <= v.len(),
            digit_run(v@, i as int) == (j - i) + digit_run(v@, j as int),
        decreases v.len() - j,
    {
        j = j + 1;
    }
    j - i
}

pub open spec fn word_track() -> Seq<char> {
    seq!['T', 'r', 'a', 'c', 'k']
}

pub open spec fn is_track_punct(c: char) -> bool {
    c == '-' || c == '.' || c == ':' || c == ')'
}

/// Where a leading track number ends (`1 - `, `01. `, `Track 5: `), or -1:
/// the end of the match of `^\s*(?:Track\s+)?\d+\s*[-.:)]?\s+`.
pub open spec fn track_prefix_end(s: Seq<char>) -> int {
    let a = ws_run(s, 0) as int;
    let q = if matches_at(s, word_track(), a) && ws_run(s, a + 5) >= 1 {
        a + 5 + ws_run(s, a + 5)
    } else {
        a
    };
    let d = digit_run(s, q);
    let w1 = ws_run(s, q + d);
    let t = q + d + w1;
    if d == 0 {
        -1
    } else if t < s.len() && is_track_punct(s[t]) && ws_run(s, t + 1) >= 1 {
        t + 1 + ws_run(s, t + 1)
    } else if w1 >= 1 {
        t
    } else {
        -1
    }
}

/// A chapter title made safe as a file name: a leading track number removed,
/// then the characters that file systems refuse made `_`.
pub open spec fn sanitize_title_spec(s: Seq<char>) -> Seq<char> {
    let e = track_prefix_end(s);
    fs_safe_all(
        if e >= 0 {
            s.skip(e)
        } else {
            s
        },
    )
}

fn track_chars() -> (r: Vec<char>)
    ensures
        r@ == word_track(),
{
    let r = vec!['T', 'r', 'a', 'c', 'k'];
    assert(r@ =~= word_track());
    r
}

fn track_prefix_end_exec(v: &Vec<char>) -> (r: Option<usize>)
    ensures
        r matches Some(e) ==> track_prefix_end(v@) == e && e <= v.len(),
        r is None ==> track_prefix_end(v@) == -1,
{
    let a = ws_run_exec(v, 0);
    let track = track_chars();
    let mut q = a;
    if matches_at_exec(v, &track, a) {
        let w = ws_run_exec(v, a + 5);
        if w >= 1 {
            q = a + 5 + w;
        }
    }
    let d = digit_run_exec(v, q);
    if d == 0 {
        return None;
    }
    let w1 = ws_run_exec(v, q + d);
    let t = q + d + w1;
    if t < v.len() && (v[t] == '-' || v[t] == '.' || v[t] == ':' || v[t] == ')') {
        let w2 = ws_run_exec(v, t + 1);
        if w2 >= 1 {
            return Some(t + 1 + w2);
        }
    }
    if w1 >= 1 {
        Some(t)
    } else {
        None
    }
}

/// Cleans a chapter title for use as a file name: see
/// [`sanitize_title_spec`].
pub fn sanitize_title(title: &str) -> (r: String)
    ensures
        r@ == sanitize_title_spec(title@),
{
    let v = chars_of(title);
    let rest = match track_prefix_end_exec(&v) {
        Some(e) => slice(&v, e, v.len()),
        None => slice(&v, 0, v.len()),
    };
    string_of(&fs_safe_exec(&rest))
}

/// The text of `s` before the first occurrence of `sep`, and the text between
/// that occurrence and the next one (or the end).
pub open spec fn first_two_parts(s: Seq<char>, sep: Seq<char>) -> (Seq<char>, Seq<char>) {
    let i1 = first_match(s, sep, 0);
    let i2 = first_match(s, sep, i1 + sep.len());
    (s.take(i1), s.subrange(i1 + sep.len(), if i2 >= 0 { i2 } else { s.len() as int }))
}

pub open spec fn unknown_artist() -> Seq<char> {
    seq!['U', 'n', 'k', 'n', 'o', 'w', 'n', ' ', 'A', 'r', 't', 'i', 's', 't']
}

pub open spec fn sep_dash() -> Seq<char> {
    seq![' ', '-', ' ']
}

pub open spec fn sep_pipe() -> Seq<char> {
    seq![' ', '|', ' ']
}

/// Artist and album read from a title `ARTIST - ALBUM [...]` or
/// `ARTIST | ALBUM [...]`, each cleaned as a folder name; `Unknown Artist`
/// and the cleaned title when neither separator occurs.
pub open spec fn parse_artist_album_spec(title: Seq<char>) -> (Seq<char>, Seq<char>) {
    let cleaned = strip_brackets(strip_full_album(title));
    if contains(cleaned, sep_dash()) || contains(cleaned, sep_pipe()) {
        let sep = if contains(cleaned, sep_dash()) {
            sep_dash()
        } else {
            sep_pipe()
        };
        let parts = first_two_parts(cleaned, sep);
        (clean_folder_name_spec(trim(parts.0)), clean_folder_name_spec(trim(parts.1)))
    } else {
        (unknown_artist(), clean_folder_name_spec(trim(cleaned)))
    }
}

/// The first occurrence of `p` from `from` on is at `i` when `p` occurs at
/// `i` and nowhere between `from` and `i`.
proof fn lemma_first_match_at(s: Seq<char>, p: Seq<char>, from: int, i: int)
    requires
        0 <= from <= i,
        matches_at(s, p, i),
        forall|k: int| from <= k < i ==> !matches_at(s, p, k),
    ensures
        first_match(s, p, from) == i,
    decreases i - from,
{
    if from < i {
        lemma_first_match_at(s, p, from + 1, i);
    }
}

/// There is no occurrence of a non-empty `p` from `from` on when it occurs
/// at no position from `from` to the end.
proof fn lemma_first_match_none(s: Seq<char>, p: Seq<char>, from: int)
    requires
        0 <= from,
        p.len() > 0,
        forall|k: int| from <= k < s.len() ==> !matches_at(s, p, k),
    ensures
        first_match(s, p, from) == -1,
    decreases s.len() + 1 - from,
{
    if from <= s.len() {
        lemma_first_match_none(s, p, from + 1);
    }
}

/// The two parts of `s` around a separator occurring first at `i`, and
/// next at `j` (or nowhere after it, with `j` the end).
proof fn lemma_two_parts_at(s: Seq<char>, sep: Seq<char>, i: int, j: int)
    requires
        sep.len() > 0,
        matches_at(s, sep, i),
        forall|k: int| 0 <= k < i ==> !matches_at(s, sep, k),
        i + sep.len() <= j <= s.len(),
        j == s.len() || matches_at(s, sep, j),
        forall|k: int| i + sep.len() <= k < j ==> !matches_at(s, sep, k),
    ensures
        first_two_parts(s, sep) == (s.take(i), s.subrange(i + sep.len(), j)),
{
    lemma_first_match_at(s, sep, 0, i);
    if j < s.len() {
        lemma_first_match_at(s, sep, i + sep.len(), j);
    } else {
        lemma_first_match_none(s, sep, i + sep.len());
    }
}

/// The text a title's artist and album are read from: the title without
/// its full-album suffix and its bracketed parts.
pub open spec fn artist_album_text(title: Seq<char>) -> Seq<char> {
    strip_brackets(strip_full_album(title))
}

/// A title whose text (see [`artist_album_text`]) holds ` - ` gives as
/// artist that text before the first ` - `, and as album the text from
/// there to the next ` - ` or the end, each trimmed and cleaned as a folder
/// name.
pub proof fn lemma_dash_separates_artist_album(title: Seq<char>, i: int, j: int)
    requires
        matches_at(artist_album_text(title), seq![' ', '-', ' '], i),
        forall|k: int| 0 <= k < i ==> !matches_at(artist_album_text(title), seq![' ', '-', ' '], k),
        i + 3 <= j <= artist_album_text(title).len(),
        j == artist_album_text(title).len() || matches_at(artist_album_text(title), seq![' ', '-', ' '], j),
        forall|k: int| i + 3 <= k < j ==> !matches_at(artist_album_text(title), seq![' ', '-', ' '], k),
    ensures
        parse_artist_album_spec(title) == (
            clean_folder_name_spec(trim(artist_album_text(title).take(i))),
            clean_folder_name_spec(trim(artist_album_text(title).subrange(i + 3, j))),
        ),
{
    let c = artist_album_text(title);
    assert(sep_dash() =~= seq![' ', '-', ' ']);
    lemma_two_parts_at(c, sep_dash(), i, j);
}

/// A title whose text (see [`artist_album_text`]) holds ` | ` but no ` - `
/// gives as artist that text before the first ` | `, and as album the text
/// from there to the next ` | ` or the end, each trimmed and cleaned as a
/// folder name.
pub proof fn lemma_pipe_separates_artist_album(title: Seq<char>, i: int, j: int)
    requires
        !contains(artist_album_text(title), seq![' ', '-', ' ']),
        matches_at(artist_album_text(title), seq![' ', '|', ' '], i),
        forall|k: int| 0 <= k < i ==> !matches_at(artist_album_text(title), seq![' ', '|', ' '], k),
        i + 3 <= j <= artist_album_text(title).len(),
        j == artist_album_text(title).len() || matches_at(artist_album_text(title), seq![' ', '|', ' '], j),
        forall|k: int| i + 3 <= k < j ==> !matches_at(artist_album_text(title), seq![' ', '|', ' '], k),
    ensures
        parse_artist_album_spec(title) == (
            clean_folder_name_spec(trim(artist_album_text(title).take(i))),
            clean_folder_name_spec(trim(artist_album_text(title).subrange(i + 3, j))),
        ),
{
    let c = artist_album_text(title);
    assert(sep_dash() =~= seq![' ', '-', ' ']);
    assert(sep_pipe() =~= seq![' ', '|', ' ']);
    assert(contains(c, sep_pipe()));
    lemma_two_parts_at(c, sep_pipe(), i, j);
}

fn two_parts_exec(s: &Vec<char>, sep: &Vec<char>, i1: usize) -> (r: (Vec<char>, Vec<char>))
    requires
        first_match(s@, sep@, 0) == i1,
        matches_at(s@, sep@, i1 as int),
    ensures
        (r.0@, r.1@) == first_two_parts(s@, sep@),
{
    assert(i1 + sep.len() <= s.len());
    let p0 = slice(s, 0, i1);
    let start = i1 + sep.len();
    let end = match find_from(s, sep, start) {
        Some(i2) => i2,
        None => s.len(),
    };
    let p1 = if end >= start {
        slice(s, start, end)
    } else {
        slice(s, start, start)
    };
    proof {
        if first_match(s@, sep@, start as int) >= 0 {
            assert(matches_at(s@, sep@, end as int));
        }
    }
    (p0, p1)
}

/// Parses a video title into `(artist, album)`: see
/// [`parse_artist_album_spec`].
pub fn parse_artist_album(title: &str) -> (r: (String, String))
    ensures
        (r.0@, r.1@) == parse_artist_album_spec(title@),
{
    let v = chars_of(title);
    let a = strip_full_album_exec(&v);
    let cleaned = strip_brackets_exec(&a);
    let dash = vec![' ', '-', ' '];
    let pipe = vec![' ', '|', ' '];
    assert(dash@ =~= sep_dash());
    assert(pipe@ =~= sep_pipe());
    let found = match find_from(&cleaned, &dash, 0) {
        Some(i) => Some((i, dash)),
        None => match find_from(&cleaned, &pipe, 0) {
            Some(i) => Some((i, pipe)),
            None => None,
        },
    };
    match found {
        Some((i1, sep)) => {
            proof {
                assert(contains(cleaned@, sep@));
            }
            let parts = two_parts_exec(&cleaned, &sep, i1);
            let artist = clean_folder_name_chars(&trim_chars(&parts.0));
            let album = clean_folder_name_chars(&trim_chars(&parts.1));
            (string_of(&artist), string_of(&album))
        },
        None => {
            let album = clean_folder_name_chars(&trim_chars(&cleaned));
            let u = vec!['U', 'n', 'k', 'n', 'o', 'w', 'n', ' ', 'A', 'r', 't', 'i', 's', 't'];
            assert(u@ =~= unknown_artist());
            (string_of(&u), string_of(&album))
        },
    }
}

/// A duration in whole seconds as `Hh MMm SSs`, or `Mm SSs` under an hour.
pub open spec fn duration_text(secs: nat) -> Seq<char> {
    let h = secs / 3600;
    let m = (secs % 3600) / 60;
    let s = secs % 60;
    if h > 0 {
        crate::text::dec(h) + "h "@ + crate::text::dec2(m) + "m "@ + crate::text::dec2(s) + "s"@
    } else {
        crate::text::dec(m) + "m "@ + crate::text::dec2(s) + "s"@
    }
}

/// Formats a duration in whole seconds: see [`duration_text`].
pub fn format_duration(seconds: u64) -> (r: String)
    ensures
        r@ == duration_text(seconds as nat),
{
    let h = seconds / 3600;
    let m = (seconds % 3600) / 60;
    let s = seconds % 60;
    let mut out: Vec<char> = Vec::new();
    if h > 0 {
        crate::text::push_dec(&mut out, h);
        crate::text::push_str(&mut out, "h ");
        crate::text::push_dec2(&mut out, m);
    } else {
        crate::text::push_dec(&mut out, m);
    }
    crate::text::push_str(&mut out, "m ");
    crate::text::push_dec2(&mut out, s);
    crate::text::push_str(&mut out, "s");
    string_of(&out)
}

/// A duration in whole seconds as `Mm SSs`, minutes not split into hours.
pub open spec fn duration_short_text(secs: nat) -> Seq<char> {
    crate::text::dec(secs / 60) + "m "@ + crate::text::dec2(secs % 60) + "s"@
}

/// Formats a duration in whole seconds in short form: see
/// [`duration_short_text`].
pub fn format_duration_short(seconds: u64) -> (r: String)
    ensures
        r@ == duration_short_text(seconds as nat),
{
    let mut out: Vec<char> = Vec::new();
    crate::text::push_dec(&mut out, seconds / 60);
    crate::text::push_str(&mut out, "m ");
    crate::text::push_dec2(&mut out, seconds % 60);
    crate::text::push_str(&mut out, "s");
    string_of(&out)
}

} // verus!

//! Text input fields.
//!
//! A single-line input keeps its cursor as a byte offset into the value, as
//! the standard string type counts; the cursor always sits between two
//! characters.

use vstd::prelude::*;
use crate::text::{
    byte_len, chars_of, extend, lemma_utf8_len_prefix, owned, slice, string_of, utf8_len,
    utf8_width, utf8_width_exec,
};
use crate::tui::keys::{KeyCode, KeyEvent};

verus! {

/// The byte offset of the `k`-th character of `s`.
pub open spec fn byte_pos(s: Seq<char>, k: int) -> nat {
    utf8_len(s.take(k))
}

/// `b` is the byte offset of a position between characters of `s`.
pub open spec fn is_boundary(s: Seq<char>, b: int) -> bool {
    exists|k: int| 0 <= k <= s.len() && byte_pos(s, k) == b
}

/// The character position at the byte offset `b`.
pub open spec fn char_index(s: Seq<char>, b: int) -> int {
    choose|k: int| 0 <= k <= s.len() && byte_pos(s, k) == b
}

/// Byte offsets grow strictly with the character position.
pub proof fn lemma_byte_pos_strict(s: Seq<char>, i: int, j: int)
    requires
        0 <= i < j <= s.len(),
    ensures
        byte_pos(s, i) < byte_pos(s, j),
{
    lemma_utf8_len_prefix(s, i, j);
}

/// The character position of a boundary is the only one with that byte
/// offset.
pub proof fn lemma_char_index(s: Seq<char>, b: int)
    requires
        is_boundary(s, b),
    ensures
        0 <= char_index(s, b) <= s.len(),
        byte_pos(s, char_index(s, b)) == b,
        forall|k: int| 0 <= k <= s.len() && byte_pos(s, k) == b ==> k == char_index(s, b),
{
    let c = char_index(s, b);
    assert forall|k: int| 0 <= k <= s.len() && byte_pos(s, k) == b implies k == c by {
        if k < c {
            lemma_byte_pos_strict(s, k, c);
        } else if c < k {
            lemma_byte_pos_strict(s, c, k);
        }
    }
}

/// One character more in the prefix adds its width.
pub proof fn lemma_byte_pos_step(s: Seq<char>, k: int)
    requires
        0 <= k < s.len(),
    ensures
        byte_pos(s, k + 1) == byte_pos(s, k) + utf8_width(s[k]),
{
    assert(s.take(k + 1).drop_last() =~= s.take(k));
}

/// The character position of the byte offset `b` in `v`, if `b` falls
/// between two characters.
pub fn boundary_position(v: &Vec<char>, b: usize) -> (r: Option<usize>)
    ensures
        match r {
            Some(k) => is_boundary(v@, b as int) && k == char_index(v@, b as int),
            None => !is_boundary(v@, b as int),
        },
{
    let mut i: usize = 0;
    let mut acc: u128 = 0;
    assert(v@.take(0) =~= Seq::<char>::empty());
    while i < v.len()
        invariant
            i <= v@.len(),
            acc == byte_pos(v@, i as int),
            acc <= 4 * i,
            forall|j: int| 0 <= j < i ==> byte_pos(v@, j) < b,
        ensures
            i <= v@.len(),
            acc == byte_pos(v@, i as int),
            forall|j: int| 0 <= j < i ==> byte_pos(v@, j) < b,
            i == v@.len() || acc >= b,
        decreases v@.len() - i,
    {
        if acc >= b as u128 {
            break;
        }
        proof {
            lemma_byte_pos_step(v@, i as int);
        }
        acc = acc + utf8_width_exec(v[i]) as u128;
        i = i + 1;
    }
    proof {
        assert forall|j: int| i < j <= v@.len() implies byte_pos(v@, j) > acc by {
            lemma_byte_pos_strict(v@, i as int, j);
        }
    }
    if acc == b as u128 {
        proof {
            assert(byte_pos(v@, i as int) == b);
            assert(is_boundary(v@, b as int));
            lemma_char_index(v@, b as int);
            assert(0 <= i <= v@.len() && byte_pos(v@, i as int) == b);
            assert(i as int == char_index(v@, b as int));
        }
        Some(i)
    } else {
        proof {
            if is_boundary(v@, b as int) {
                let k = choose|k: int| 0 <= k <= v@.len() && byte_pos(v@, k) == b;
                if k < i {
                } else if k > i {
                }
            }
        }
        None
    }
}

/// The character position of a byte offset between characters.
pub fn locate_boundary(v: &Vec<char>, b: usize) -> (k: usize)
    requires
        is_boundary(v@, b as int),
    ensures
        k <= v@.len(),
        byte_pos(v@, k as int) == b,
        k == char_index(v@, b as int),
{
    locate(v, b)
}

fn locate(v: &Vec<char>, b: usize) -> (k: usize)
    requires
        is_boundary(v@, b as int),
    ensures
        k <= v@.len(),
        byte_pos(v@, k as int) == b,
        k == char_index(v@, b as int),
{
    proof {
        lemma_char_index(v@, b as int);
    }
    let ghost target = char_index(v@, b as int);
    let n = v.len();
    let mut i: usize = 0;
    let mut acc: usize = 0;
    assert(v@.take(0) =~= Seq::<char>::empty());
    while acc < b
        invariant
            n == v@.len(),
            0 <= target <= v@.len(),
            byte_pos(v@, target) == b,
            i <= target,
            acc == byte_pos(v@, i as int),
            acc <= b,
        decreases target - i,
    {
        proof {
            if i == target {
                assert(false);
            }
            lemma_byte_pos_step(v@, i as int);
            if i + 1 < target {
                lemma_byte_pos_strict(v@, i + 1, target);
            }
        }
        acc = acc + utf8_width_exec(v[i]);
        i = i + 1;
    }
    proof {
        if i < target {
            lemma_byte_pos_strict(v@, i as int, target);
        }
    }
    i
}

/// An input's answer to a key: its new value, its new cursor, and whether
/// it used the key.
///
/// A character is inserted at the cursor, which moves past it, unless a
/// limit is set and the value has reached it (the key is then used but
/// changes nothing). Backspace removes the character before the cursor,
/// Delete the one after it. Left and Right move the cursor by one
/// character, Home and End to the start and the end. Other keys are not
/// used.
pub open spec fn input_step(t: TextInput, code: KeyCode) -> (Seq<char>, int, bool) {
    let s = t.value@;
    let k = char_index(s, t.cursor as int);
    let b = t.cursor as int;
    match code {
        KeyCode::Char(c) => if t.max_length > 0 && utf8_len(s) >= t.max_length {
            (s, b, true)
        } else {
            (s.take(k) + seq![c] + s.skip(k), b + utf8_width(c), true)
        },
        KeyCode::Backspace => if b > 0 {
            (s.take(k - 1) + s.skip(k), byte_pos(s, k - 1) as int, true)
        } else {
            (s, b, true)
        },
        KeyCode::Delete => if k < s.len() {
            (s.take(k) + s.skip(k + 1), b, true)
        } else {
            (s, b, true)
        },
        KeyCode::Left => (s, if b > 0 { byte_pos(s, k - 1) as int } else { b }, true),
        KeyCode::Right => (s, if k < s.len() { byte_pos(s, k + 1) as int } else { b }, true),
        KeyCode::Home => (s, 0, true),
        KeyCode::End => (s, utf8_len(s) as int, true),
        _ => (s, b, false),
    }
}

/// A single-line text input.
pub struct TextInput {
    pub value: String,
    /// Byte offset of the cursor in `value`.
    pub cursor: usize,
    pub placeholder: String,
    pub title: String,
    pub focused: bool,
    /// Largest accepted length in bytes; 0 for no limit.
    pub max_length: usize,
}

impl TextInput {
    /// The cursor sits between two characters of the value.
    pub open spec fn wf(&self) -> bool {
        is_boundary(self.value@, self.cursor as int)
    }

    /// The character position of the cursor.
    pub open spec fn cursor_chars(&self) -> int {
        char_index(self.value@, self.cursor as int)
    }

    /// An empty, unfocused input without limit.
    pub fn new() -> (r: Self)
        ensures
            r.wf(),
            r.value@ == Seq::<char>::empty(),
            r.cursor == 0,
            r.placeholder@ == Seq::<char>::empty(),
            r.title@ == Seq::<char>::empty(),
            !r.focused,
            r.max_length == 0,
    {
        let r = TextInput {
            value: String::new(),
            cursor: 0,
            placeholder: String::new(),
            title: String::new(),
            focused: false,
            max_length: 0,
        };
        assert(byte_pos(r.value@, 0) == 0);
        r
    }

    /// The input holding `value`, with the cursor at its end.
    pub fn with_value(self, value: &str) -> (r: Self)
        ensures
            r.wf(),
            r.value@ == value@,
            r.cursor == utf8_len(value@),
            r.placeholder == self.placeholder,
            r.title == self.title,
            r.focused == self.focused,
            r.max_length == self.max_length,
    {
        let mut s = self;
        s.cursor = byte_len(value);
        s.value = owned(value);
        assert(s.value@.take(s.value@.len() as int) =~= s.value@);
        assert(byte_pos(s.value@, s.value@.len() as int) == s.cursor);
        s
    }

    /// The input with a placeholder.
    pub fn with_placeholder(self, placeholder: &str) -> (r: Self)
        ensures
            r.placeholder@ == placeholder@,
            r.value == self.value,
            r.cursor == self.cursor,
            r.title == self.title,
            r.focused == self.focused,
            r.max_length == self.max_length,
    {
        let mut s = self;
        s.placeholder = owned(placeholder);
        s
    }

    /// The input with a title.
    pub fn with_title(self, title: &str) -> (r: Self)
        ensures
            r.title@ == title@,
            r.value == self.value,
            r.cursor == self.cursor,
            r.placeholder == self.placeholder,
            r.focused == self.focused,
            r.max_length == self.max_length,
    {
        let mut s = self;
        s.title = owned(title);
        s
    }

    /// The input, focused or not.
    pub fn with_focused(self, focused: bool) -> (r: Self)
        ensures
            r.focused == focused,
            r.value == self.value,
            r.cursor == self.cursor,
            r.placeholder == self.placeholder,
            r.title == self.title,
            r.max_length == self.max_length,
    {
        let mut s = self;
        s.focused = focused;
        s
    }

    /// The input with a length limit in bytes (0 for none).
    pub fn with_max_length(self, max_length: usize) -> (r: Self)
        ensures
            r.max_length == max_length,
            r.value == self.value,
            r.cursor == self.cursor,
            r.placeholder == self.placeholder,
            r.title == self.title,
            r.focused == self.focused,
    {
        let mut s = self;
        s.max_length = max_length;
        s
    }

    /// Empties the value and puts the cursor at the start.
    pub fn clear(&mut self)
        ensures
            final(self).wf(),
            final(self).value@ == Seq::<char>::empty(),
            final(self).cursor == 0,
            final(self).placeholder == old(self).placeholder,
            final(self).title == old(self).title,
            final(self).focused == old(self).focused,
            final(self).max_length == old(self).max_length,
    {
        self.value = String::new();
        self.cursor = 0;
        assert(byte_pos(self.value@, 0) == 0);
    }

    /// Whether the value is empty.
    pub fn is_empty(&self) -> (r: bool)
        ensures
            r == (self.value@.len() == 0),
    {
        self.value.as_str().is_empty()
    }

    /// The number of characters before the cursor, where the text shown
    /// (`text`, the value or else the placeholder) reaches the cursor's
    /// byte offset: characters are counted until their bytes reach it.
    pub fn cursor_position_in_display(&self, text: &str) -> (r: usize)
        ensures
            r <= text@.len(),
            r == text@.len() || byte_pos(text@, r as int) >= self.cursor,
            forall|j: int| 0 <= j < r ==> byte_pos(text@, j) < self.cursor,
    {
        let v = chars_of(text);
        let mut i: usize = 0;
        let mut acc: u128 = 0;
        assert(v@.take(0) =~= Seq::<char>::empty());
        while i < v.len()
            invariant
                i <= v@.len(),
                acc == byte_pos(v@, i as int),
                acc <= 4 * i,
                forall|j: int| 0 <= j < i ==> byte_pos(v@, j) < self.cursor,
            ensures
                i <= v@.len(),
                acc == byte_pos(v@, i as int),
                forall|j: int| 0 <= j < i ==> byte_pos(v@, j) < self.cursor,
                i == v@.len() || acc >= self.cursor,
            decreases v@.len() - i,
        {
            if acc >= self.cursor as u128 {
                break;
            }
            proof {
                lemma_byte_pos_step(v@, i as int);
            }
            acc = acc + utf8_width_exec(v[i]) as u128;
            i = i + 1;
        }
        i
    }

    /// Handles a key press; returns whether the input used it.
    ///
    /// A character is inserted at the cursor, which moves past it, unless
    /// a limit is set and the value has reached it (the key is then used
    /// but changes nothing). Backspace removes the character before the
    /// cursor, Delete the one after it. Left and Right move the cursor by
    /// one character, Home and End to the start and the end. Other keys
    /// are not used.
    pub fn handle_key_event(&mut self, key: KeyEvent) -> (r: bool)
        requires
            old(self).wf(),
            key.code is Char ==> utf8_len(old(self).value@) + 4 <= usize::MAX,
        ensures
            final(self).wf(),
            final(self).placeholder == old(self).placeholder,
            final(self).title == old(self).title,
            final(self).focused == old(self).focused,
            final(self).max_length == old(self).max_length,
            (final(self).value@, final(self).cursor as int, r) == input_step(*old(self), key.code),
            !r ==> *final(self) == *old(self),
    {
        let v = chars_of(self.value.as_str());
        let k = locate(&v, self.cursor);
        let ghost s = v@;
        proof {
            lemma_char_index(s, self.cursor as int);
            assert(s.take(s.len() as int) =~= s);
            if k < s.len() {
                lemma_byte_pos_strict(s, k as int, s.len() as int);
            }
            if k > 0 {
                lemma_byte_pos_step(s, k - 1);
            }
            if k < s.len() {
                lemma_byte_pos_step(s, k as int);
            }
        }
        match key.code {
            KeyCode::Char(c) => {
                if self.max_length > 0 && byte_len(self.value.as_str()) >= self.max_length {
                    return true;
                }
                let mut nv = slice(&v, 0, k);
                nv.push(c);
                let rest = slice(&v, k, v.len());
                extend(&mut nv, &rest);
                proof {
                    assert(nv@ =~= s.take(k as int) + seq![c] + s.skip(k as int));
                    assert(nv@.take(k + 1).drop_last() =~= s.take(k as int));
                    lemma_utf8_len_prefix(s, k as int, s.len() as int);
                }
                self.value = string_of(&nv);
                self.cursor = self.cursor + utf8_width_exec(c);
                proof {
                    assert(byte_pos(self.value@, k + 1) == self.cursor);
                    assert(self.wf());
                }
                true
            },
            KeyCode::Backspace => {
                if self.cursor > 0 {
                    let mut nv = slice(&v, 0, k - 1);
                    let rest = slice(&v, k, v.len());
                    extend(&mut nv, &rest);
                    let nc = self.cursor - utf8_width_exec(v[k - 1]);
                    proof {
                        assert(nv@ =~= s.take(k - 1) + s.skip(k as int));
                        assert(nv@.take(k - 1) =~= s.take(k - 1));
                    }
                    self.value = string_of(&nv);
                    self.cursor = nc;
                    assert(byte_pos(self.value@, k - 1) == self.cursor);
                }
                true
            },
            KeyCode::Delete => {
                if k < v.len() {
                    let mut nv = slice(&v, 0, k);
                    let rest = slice(&v, k + 1, v.len());
                    extend(&mut nv, &rest);
                    proof {
                        assert(nv@ =~= s.take(k as int) + s.skip(k + 1));
                        assert(nv@.take(k as int) =~= s.take(k as int));
                    }
                    self.value = string_of(&nv);
                    assert(byte_pos(self.value@, k as int) == self.cursor);
                }
                true
            },
            KeyCode::Left => {
                if self.cursor > 0 {
                    self.cursor = self.cursor - utf8_width_exec(v[k - 1]);
                    assert(byte_pos(self.value@, k - 1) == self.cursor);
                }
                true
            },
            KeyCode::Right => {
                if k < v.len() {
                    proof {
                        lemma_utf8_len_prefix(s, k + 1, s.len() as int);
                    }
                    let total = byte_len(self.value.as_str());
                    self.cursor = self.cursor + utf8_width_exec(v[k]);
                    assert(byte_pos(self.value@, k + 1) == self.cursor);
                }
                true
            },
            KeyCode::Home => {
                self.cursor = 0;
                proof {
                    assert(s.take(0) =~= Seq::<char>::empty());
                    assert(byte_pos(self.value@, 0) == self.cursor);
                }
                true
            },
            KeyCode::End => {
                self.cursor = byte_len(self.value.as_str());
                assert(byte_pos(self.value@, s.len() as int) == self.cursor);
                true
            },
            _ => false,
        }
    }
}

impl Default for TextInput {
    fn default() -> (r: Self)
        ensures
            r.wf(),
            r.value@ == Seq::<char>::empty(),
            r.cursor == 0,
            r.placeholder@ == Seq::<char>::empty(),
            r.title@ == Seq::<char>::empty(),
            !r.focused,
            r.max_length == 0,
    {
        Self::new()
    }
}

} // verus!

verus! {

/// Lines joined with newlines between them.
pub open spec fn join_lines(lines: Seq<Seq<char>>) -> Seq<char>
    decreases lines.len(),
{
    if lines.len() == 0 {
        Seq::empty()
    } else if lines.len() == 1 {
        lines[0]
    } else {
        join_lines(lines.drop_last()) + seq!['\n'] + lines.last()
    }
}

/// A line without the one carriage return that may end it.
pub open spec fn strip_cr(line: Seq<char>) -> Seq<char> {
    if line.len() > 0 && line.last() == '\r' {
        line.drop_last()
    } else {
        line
    }
}

/// The lines of `s` from position `start`, as `str::lines` gives them: the
/// pieces between newlines, each without a final carriage return; a final
/// newline ends the last line rather than starting an empty one.
pub open spec fn lines_from(s: Seq<char>, start: int) -> Seq<Seq<char>>
    decreases s.len() - start,
{
    if start < 0 || start >= s.len() {
        Seq::empty()
    } else {
        let e = crate::playlist::char_or_end(s, '\n', start);
        proof {
            lemma_char_or_end_bounds(s, '\n', start);
        }
        if e >= s.len() {
            seq![strip_cr(s.subrange(start, s.len() as int))]
        } else {
            seq![strip_cr(s.subrange(start, e))] + lines_from(s, e + 1)
        }
    }
}

/// The lines a text area holds for the text `s`: those of [`lines_from`],
/// or one empty line when there are none.
pub open spec fn text_lines(s: Seq<char>) -> Seq<Seq<char>> {
    if lines_from(s, 0).len() == 0 {
        seq![Seq::<char>::empty()]
    } else {
        lines_from(s, 0)
    }
}

/// Joining a line in front of other lines puts a newline between it and
/// their join.
pub proof fn lemma_join_front(a: Seq<char>, rest: Seq<Seq<char>>)
    requires
        rest.len() > 0,
    ensures
        join_lines(seq![a] + rest) == a + seq!['\n'] + join_lines(rest),
    decreases rest.len(),
{
    let all = seq![a] + rest;
    if rest.len() == 1 {
        assert(all.drop_last() =~= seq![a]);
        assert(join_lines(seq![a]) == a);
        assert(join_lines(rest) == rest[0]);
        assert(all.last() == rest[0]);
        assert(join_lines(all) == join_lines(all.drop_last()) + seq!['\n'] + all.last());
    } else {
        lemma_join_front(a, rest.drop_last());
        assert(all.drop_last() =~= seq![a] + rest.drop_last());
        assert(all.last() == rest.last());
        assert(join_lines(all) == join_lines(all.drop_last()) + seq!['\n'] + all.last());
        assert(join_lines(rest) == join_lines(rest.drop_last()) + seq!['\n'] + rest.last());
        assert(a + seq!['\n'] + join_lines(rest.drop_last()) + seq!['\n'] + rest.last() =~= a
            + seq!['\n'] + (join_lines(rest.drop_last()) + seq!['\n'] + rest.last()));
    }
}

/// The lines of `s` from a position on, joined, give the text from there
/// on, when `s` holds no carriage return and does not end with a newline.
proof fn lemma_lines_from_join(s: Seq<char>, start: int)
    requires
        0 <= start < s.len(),
        forall|k: int| 0 <= k < s.len() ==> s[k] != '\r',
        s.last() != '\n',
    ensures
        lines_from(s, start).len() > 0,
        join_lines(lines_from(s, start)) == s.subrange(start, s.len() as int),
    decreases s.len() - start,
{
    let e = crate::playlist::char_or_end(s, '\n', start);
    lemma_char_or_end_bounds(s, '\n', start);
    if e >= s.len() {
        let piece = s.subrange(start, s.len() as int);
        assert(piece.last() == s[s.len() - 1]);
        assert(strip_cr(piece) == piece);
    } else {
        let piece = s.subrange(start, e);
        if piece.len() > 0 {
            assert(piece.last() == s[e - 1]);
        }
        assert(strip_cr(piece) == piece);
        assert(e + 1 < s.len());
        lemma_lines_from_join(s, e + 1);
        lemma_join_front(piece, lines_from(s, e + 1));
        assert(piece + seq!['\n'] + s.subrange(e + 1, s.len() as int) =~= s.subrange(
            start,
            s.len() as int,
        ));
    }
}

/// Setting a text area's text and reading it back gives the text, when
/// it holds no carriage return and does not end with a newline.
pub proof fn lemma_set_text_reads_back(s: Seq<char>)
    requires
        forall|k: int| 0 <= k < s.len() ==> s[k] != '\r',
        s.len() == 0 || s.last() != '\n',
    ensures
        join_lines(text_lines(s)) == s,
{
    if s.len() == 0 {
        assert(join_lines(text_lines(s)) =~= s);
    } else {
        lemma_lines_from_join(s, 0);
        assert(s.subrange(0, s.len() as int) =~= s);
    }
}

/// The texts of a list of strings.
pub open spec fn line_texts(v: Seq<String>) -> Seq<Seq<char>> {
    v.map_values(|s: String| s@)
}

/// Where [`crate::playlist::char_or_end`] stops: at `c` or at the end.
pub proof fn lemma_char_or_end_bounds(s: Seq<char>, c: char, k: int)
    requires
        0 <= k,
    ensures
        k <= crate::playlist::char_or_end(s, c, k) <= s.len() || k > s.len(),
        crate::playlist::char_or_end(s, c, k) < s.len() ==> s[crate::playlist::char_or_end(
            s,
            c,
            k,
        )] == c,
        forall|j: int|
            k <= j < crate::playlist::char_or_end(s, c, k) && j < s.len() ==> s[j] != c,
    decreases s.len() - k,
{
    if k < s.len() && s[k] != c {
        lemma_char_or_end_bounds(s, c, k + 1);
    }
}

/// The width in bytes that Backspace takes off the cursor: that of the
/// last character of the line (not of the one before the cursor), or 1 on
/// an empty line.
pub open spec fn last_width(line: Seq<char>) -> nat {
    if line.len() > 0 { utf8_width(line.last()) } else { 1 }
}

/// The line split at character position `k`: its start stays, its rest
/// becomes the next line.
pub open spec fn split_line(t: Seq<Seq<char>>, l: int, k: int) -> Seq<Seq<char>> {
    t.take(l) + seq![t[l].take(k), t[l].skip(k)] + t.skip(l + 1)
}

/// A text area's answer to a key: its new lines, cursor line, cursor byte
/// column, and whether it used the key.
///
/// A character, or Enter for a newline, is put at the cursor (a newline
/// splits the line and moves the cursor to the start of the new one).
/// Backspace inside a line takes the width of the line's last character
/// off the column and removes the character that starts there; at the
/// start of a line it joins the line to the previous one. Up and Down move
/// to the neighbouring line, keeping the column within it. Left and Right
/// move the column by one byte within the line. Other keys are not used.
pub open spec fn area_step(t: Seq<Seq<char>>, l: int, col: int, code: KeyCode) -> (Seq<Seq<char>>, int, int, bool) {
    let line = t[l];
    let k = char_index(line, col);
    match code {
        KeyCode::Char(c) => if c == '\n' {
            (split_line(t, l, k), l + 1, 0, true)
        } else {
            (t.update(l, line.take(k) + seq![c] + line.skip(k)), l, col + utf8_width(c), true)
        },
        KeyCode::Enter => (split_line(t, l, k), l + 1, 0, true),
        KeyCode::Backspace => if col > 0 {
            let j = char_index(line, col - last_width(line));
            (t.update(l, line.take(j) + line.skip(j + 1)), l, col - last_width(line), true)
        } else if l > 0 {
            (t.take(l - 1) + seq![t[l - 1] + line] + t.skip(l + 1), l - 1, utf8_len(t[l - 1]) as int, true)
        } else {
            (t, l, col, true)
        },
        KeyCode::Up => if l > 0 {
            (t, l - 1, if col <= utf8_len(t[l - 1]) { col } else { utf8_len(t[l - 1]) as int }, true)
        } else {
            (t, l, col, true)
        },
        KeyCode::Down => if l + 1 < t.len() {
            (t, l + 1, if col <= utf8_len(t[l + 1]) { col } else { utf8_len(t[l + 1]) as int }, true)
        } else {
            (t, l, col, true)
        },
        KeyCode::Left => (t, l, if col > 0 { col - 1 } else { col }, true),
        KeyCode::Right => (t, l, if col < utf8_len(line) { col + 1 } else { col }, true),
        _ => (t, l, col, false),
    }
}

/// The keys on which [`area_step`] is defined as the text area acts: the
/// cursor line exists where the line is read, and the byte offsets used to
/// insert, split or remove fall between characters.
pub open spec fn area_key_ok(t: Seq<Seq<char>>, l: int, col: int, code: KeyCode) -> bool {
    match code {
        KeyCode::Char(_) | KeyCode::Enter => l < t.len() && is_boundary(t[l], col),
        KeyCode::Backspace => if col > 0 {
            &&& l < t.len()
            &&& col >= last_width(t[l])
            &&& col - last_width(t[l]) < utf8_len(t[l])
            &&& is_boundary(t[l], col - last_width(t[l]))
        } else {
            l > 0 ==> l < t.len()
        },
        KeyCode::Right => l < t.len(),
        KeyCode::Up => l > 0 ==> l <= t.len(),
        _ => true,
    }
}

/// Enter then Backspace gives a text area back its lines and its cursor:
/// Enter splits the line at the cursor, and Backspace at the start of the
/// new line joins the two again, the cursor back where it was.
pub proof fn lemma_enter_then_backspace(t: Seq<Seq<char>>, l: int, col: int)
    requires
        0 <= l < t.len(),
        is_boundary(t[l], col),
    ensures
        area_step(t, l, col, KeyCode::Enter).3,
        area_key_ok(
            area_step(t, l, col, KeyCode::Enter).0,
            area_step(t, l, col, KeyCode::Enter).1,
            area_step(t, l, col, KeyCode::Enter).2,
            KeyCode::Backspace,
        ),
        area_step(
            area_step(t, l, col, KeyCode::Enter).0,
            area_step(t, l, col, KeyCode::Enter).1,
            area_step(t, l, col, KeyCode::Enter).2,
            KeyCode::Backspace,
        ) == (t, l, col, true),
{
    let line = t[l];
    lemma_char_index(line, col);
    let k = char_index(line, col);
    let t1 = split_line(t, l, k);
    assert(t1.len() == t.len() + 1);
    assert(t1[l] == line.take(k));
    assert(t1[l + 1] == line.skip(k));
    assert(line.take(k) + line.skip(k) =~= line);
    assert(t1.take(l) + seq![t1[l] + t1[l + 1]] + t1.skip(l + 2) =~= t);
    assert(utf8_len(line.take(k)) == col);
}

/// A multi-line text area. The cursor is a line and a byte column.
pub struct TextArea {
    pub lines: Vec<String>,
    pub cursor_line: usize,
    pub cursor_col: usize,
    pub placeholder: String,
    pub focused: bool,
    pub scroll: usize,
}

impl TextArea {
    /// A text area holding one empty line, the cursor at its start.
    pub fn new() -> (r: Self)
        ensures
            line_texts(r.lines@) == seq![Seq::<char>::empty()],
            r.cursor_line == 0,
            r.cursor_col == 0,
            r.placeholder@ == Seq::<char>::empty(),
            !r.focused,
            r.scroll == 0,
    {
        let lines = vec![String::new()];
        assert(line_texts(lines@) =~= seq![Seq::<char>::empty()]);
        TextArea {
            lines,
            cursor_line: 0,
            cursor_col: 0,
            placeholder: String::new(),
            focused: false,
            scroll: 0,
        }
    }

    /// The text: the lines joined with newlines.
    pub fn text(&self) -> (r: String)
        ensures
            r@ == join_lines(line_texts(self.lines@)),
    {
        let mut out: Vec<char> = Vec::new();
        let mut i: usize = 0;
        while i < self.lines.len()
            invariant
                i <= self.lines@.len(),
                out@ == join_lines(line_texts(self.lines@).take(i as int)),
            decreases self.lines@.len() - i,
        {
            let ghost t = line_texts(self.lines@);
            if i > 0 {
                out.push('\n');
            }
            let lv = chars_of(self.lines[i].as_str());
            extend(&mut out, &lv);
            proof {
                assert(t.take(i + 1).drop_last() =~= t.take(i as int));
                if i == 0 {
                    assert(t.take(0) =~= Seq::<Seq<char>>::empty());
                    assert(out@ =~= t.take(1)[0]);
                } else {
                    assert(out@ =~= join_lines(t.take(i as int)) + seq!['\n'] + t.take(i + 1).last());
                }
            }
            i = i + 1;
        }
        assert(line_texts(self.lines@).take(self.lines@.len() as int) =~= line_texts(self.lines@));
        string_of(&out)
    }

    /// Replaces the text: the lines of `text` (see [`lines_from`]), or one
    /// empty line when it has none; the cursor goes to the end of the last
    /// line.
    pub fn set_text(&mut self, text: &str)
        ensures
            line_texts(final(self).lines@) == text_lines(text@),
            final(self).cursor_line == final(self).lines@.len() - 1,
            final(self).cursor_col == utf8_len(final(self).lines@.last()@),
            final(self).placeholder == old(self).placeholder,
            final(self).focused == old(self).focused,
            final(self).scroll == old(self).scroll,
    {
        let v = chars_of(text);
        let mut lines: Vec<String> = Vec::new();
        let mut start: usize = 0;
        while start < v.len()
            invariant
                start <= v@.len(),
                line_texts(lines@) + lines_from(v@, start as int) == lines_from(v@, 0),
            decreases v@.len() - start,
        {
            let e = crate::playlist::char_or_end_pub(&v, '\n', start);
            let mut piece = slice(&v, start, e);
            if piece.len() > 0 && piece[piece.len() - 1] == '\r' {
                piece.pop();
            }
            proof {
                assert(piece@ == strip_cr(v@.subrange(start as int, e as int)));
            }
            let ghost before = line_texts(lines@);
            lines.push(string_of(&piece));
            proof {
                assert(line_texts(lines@) =~= before.push(piece@));
                lemma_char_or_end_bounds(v@, '\n', start as int);
            }
            if e >= v.len() {
                proof {
                    assert(line_texts(lines@) =~= before + lines_from(v@, start as int));
                }
                start = e;
            } else {
                proof {
                    assert(line_texts(lines@) + lines_from(v@, e + 1) =~= before + lines_from(
                        v@,
                        start as int,
                    ));
                }
                start = e + 1;
            }
        }
        proof {
            assert(lines_from(v@, start as int) =~= Seq::<Seq<char>>::empty());
            assert(line_texts(lines@) =~= lines_from(v@, 0));
        }
        if lines.len() == 0 {
            lines.push(String::new());
            assert(line_texts(lines@) =~= seq![Seq::<char>::empty()]);
        }
        let n = lines.len();
        let col = byte_len(lines[n - 1].as_str());
        self.lines = lines;
        self.cursor_line = n - 1;
        self.cursor_col = col;
    }

    /// Handles a key press; returns whether the text area used it: see
    /// [`area_step`].
    pub fn handle_key_event(&mut self, key: KeyEvent) -> (r: bool)
        requires
            area_key_ok(line_texts(old(self).lines@), old(self).cursor_line as int, old(self).cursor_col as int, key.code),
            old(self).lines@.len() < usize::MAX,
            old(self).cursor_line < old(self).lines@.len() ==> utf8_len(old(self).lines@[old(self).cursor_line as int]@) + 4 <= usize::MAX,
        ensures
            (line_texts(final(self).lines@), final(self).cursor_line as int, final(self).cursor_col as int, r)
                == area_step(line_texts(old(self).lines@), old(self).cursor_line as int, old(self).cursor_col as int, key.code),
            final(self).placeholder == old(self).placeholder,
            final(self).focused == old(self).focused,
            final(self).scroll == old(self).scroll,
    {
        let ghost t = line_texts(self.lines@);
        let l = self.cursor_line;
        let col = self.cursor_col;
        match key.code {
            KeyCode::Char(c) => {
                if c == '\n' {
                    self.split_at_cursor();
                } else {
                    let v = chars_of(self.lines[l].as_str());
                    let k = locate(&v, col);
                    let mut nv = slice(&v, 0, k);
                    nv.push(c);
                    let rest = slice(&v, k, v.len());
                    extend(&mut nv, &rest);
                    proof {
                        assert(nv@ =~= v@.take(k as int) + seq![c] + v@.skip(k as int));
                        lemma_char_index(v@, col as int);
                        lemma_utf8_len_prefix(v@, k as int, v@.len() as int);
                        assert(v@.take(v@.len() as int) =~= v@);
                    }
                    self.lines.set(l, string_of(&nv));
                    self.cursor_col = col + utf8_width_exec(c);
                    assert(line_texts(self.lines@) =~= t.update(l as int, nv@));
                }
                true
            },
            KeyCode::Enter => {
                self.split_at_cursor();
                true
            },
            KeyCode::Backspace => {
                if col > 0 {
                    let v = chars_of(self.lines[l].as_str());
                    let w = if v.len() > 0 { utf8_width_exec(v[v.len() - 1]) } else { 1 };
                    let nc = col - w;
                    let j = locate(&v, nc);
                    proof {
                        lemma_char_index(v@, nc as int);
                        assert(v@.take(v@.len() as int) =~= v@);
                        if j == v@.len() {
                            assert(false);
                        }
                    }
                    let mut nv = slice(&v, 0, j);
                    let rest = slice(&v, j + 1, v.len());
                    extend(&mut nv, &rest);
                    assert(nv@ =~= v@.take(j as int) + v@.skip(j + 1));
                    self.lines.set(l, string_of(&nv));
                    self.cursor_col = nc;
                    assert(line_texts(self.lines@) =~= t.update(l as int, nv@));
                } else if l > 0 {
                    let prev_len = byte_len(self.lines[l - 1].as_str());
                    let mut joined = chars_of(self.lines[l - 1].as_str());
                    let cur = chars_of(self.lines[l].as_str());
                    extend(&mut joined, &cur);
                    self.lines.set(l - 1, string_of(&joined));
                    let ghost mid = line_texts(self.lines@);
                    assert(mid =~= t.update(l - 1, t[l - 1] + t[l as int]));
                    self.lines.remove(l);
                    self.cursor_line = l - 1;
                    self.cursor_col = prev_len;
                    assert(line_texts(self.lines@) =~= t.take(l - 1) + seq![t[l - 1] + t[l as int]] + t.skip(l + 1));
                }
                true
            },
            KeyCode::Up => {
                if l > 0 {
                    let n = byte_len(self.lines[l - 1].as_str());
                    self.cursor_line = l - 1;
                    if col > n {
                        self.cursor_col = n;
                    }
                }
                true
            },
            KeyCode::Down => {
                if self.lines.len() > 0 && l < self.lines.len() - 1 {
                    let n = byte_len(self.lines[l + 1].as_str());
                    self.cursor_line = l + 1;
                    if col > n {
                        self.cursor_col = n;
                    }
                }
                true
            },
            KeyCode::Left => {
                if col > 0 {
                    self.cursor_col = col - 1;
                }
                true
            },
            KeyCode::Right => {
                if col < byte_len(self.lines[l].as_str()) {
                    self.cursor_col = col + 1;
                }
                true
            },
            _ => false,
        }
    }

    /// Splits the cursor line at the cursor; the cursor goes to the start
    /// of the new line.
    fn split_at_cursor(&mut self)
        requires
            old(self).cursor_line < old(self).lines@.len() < usize::MAX,
            is_boundary(old(self).lines@[old(self).cursor_line as int]@, old(self).cursor_col as int),
        ensures
            line_texts(final(self).lines@) == split_line(
                line_texts(old(self).lines@),
                old(self).cursor_line as int,
                char_index(old(self).lines@[old(self).cursor_line as int]@, old(self).cursor_col as int),
            ),
            final(self).cursor_line == old(self).cursor_line + 1,
            final(self).cursor_col == 0,
            final(self).placeholder == old(self).placeholder,
            final(self).focused == old(self).focused,
            final(self).scroll == old(self).scroll,
    {
        let ghost t = line_texts(self.lines@);
        let l = self.cursor_line;
        let v = chars_of(self.lines[l].as_str());
        let k = locate(&v, self.cursor_col);
        let head = slice(&v, 0, k);
        let tail = slice(&v, k, v.len());
        assert(head@ =~= v@.take(k as int));
        assert(tail@ =~= v@.skip(k as int));
        self.lines.set(l, string_of(&head));
        self.lines.insert(l + 1, string_of(&tail));
        self.cursor_line = l + 1;
        self.cursor_col = 0;
        assert(line_texts(self.lines@) =~= split_line(t, l as int, k as int));
    }

    /// Empties the text area to one empty line and resets the cursor and
    /// the scroll position.
    pub fn clear(&mut self)
        ensures
            line_texts(final(self).lines@) == seq![Seq::<char>::empty()],
            final(self).cursor_line == 0,
            final(self).cursor_col == 0,
            final(self).scroll == 0,
            final(self).placeholder == old(self).placeholder,
            final(self).focused == old(self).focused,
    {
        let lines = vec![String::new()];
        assert(line_texts(lines@) =~= seq![Seq::<char>::empty()]);
        self.lines = lines;
        self.cursor_line = 0;
        self.cursor_col = 0;
        self.scroll = 0;
    }
}

impl Default for TextArea {
    fn default() -> (r: Self)
        ensures
            line_texts(r.lines@) == seq![Seq::<char>::empty()],
            r.cursor_line == 0,
            r.cursor_col == 0,
            r.placeholder@ == Seq::<char>::empty(),
            !r.focused,
            r.scroll == 0,
    {
        Self::new()
    }
}

} // verus!

//! Box-drawing characters for borders and separators, in Unicode or in
//! plain ASCII according to what the terminal can show.

use vstd::prelude::*;
use crate::text::{
    chars_of, extend, push_repeat, repeat, repeat_string, string_of, utf8_len, utf8_len_exec,
};

verus! {

/// Box-drawing characters, Unicode or ASCII.
pub struct BoxChars {
    use_unicode: bool,
}

/// A character that is `u` when Unicode is used, else `a`.
pub open spec fn pick(unicode: bool, u: char, a: char) -> char {
    if unicode { u } else { a }
}

/// The top line of a frame: corners around the title centred in a run of
/// horizontal lines (or the lines alone).
pub open spec fn frame_top(
    tl: char,
    tr: char,
    h: char,
    v: char,
    inner: nat,
    title: Option<Seq<char>>,
) -> Seq<char> {
    match title {
        Some(t) => {
            let title_len = if utf8_len(t) < inner { utf8_len(t) } else { inner };
            let padding = (inner - title_len) as nat;
            let left = padding / 2;
            let right = (padding - left) as nat;
            seq![tl] + repeat(h, left) + t + repeat(h, right) + seq![tr]
        },
        None => seq![tl] + repeat(h, inner) + seq![tr],
    }
}

impl BoxChars {
    /// Whether Unicode characters are used.
    pub closed spec fn unicode(&self) -> bool {
        self.use_unicode
    }

    /// Box characters, Unicode ones when `use_unicode` holds.
    pub fn new(use_unicode: bool) -> (r: Self)
        ensures
            r.unicode() == use_unicode,
    {
        BoxChars { use_unicode }
    }

    /// Box characters for a terminal that has Unicode or not.
    pub fn from_capabilities(has_unicode: bool) -> (r: Self)
        ensures
            r.unicode() == has_unicode,
    {
        Self::new(has_unicode)
    }

    /// Top-left corner.
    pub fn top_left(&self) -> (r: char)
        ensures
            r == pick(self.unicode(), '┌', '+'),
    {
        if self.use_unicode { '┌' } else { '+' }
    }

    /// Top-right corner.
    pub fn top_right(&self) -> (r: char)
        ensures
            r == pick(self.unicode(), '┐', '+'),
    {
        if self.use_unicode { '┐' } else { '+' }
    }

    /// Bottom-left corner.
    pub fn bottom_left(&self) -> (r: char)
        ensures
            r == pick(self.unicode(), '└', '+'),
    {
        if self.use_unicode { '└' } else { '+' }
    }

    /// Bottom-right corner.
    pub fn bottom_right(&self) -> (r: char)
        ensures
            r == pick(self.unicode(), '┘', '+'),
    {
        if self.use_unicode { '┘' } else { '+' }
    }

    /// Horizontal line.
    pub fn horizontal(&self) -> (r: char)
        ensures
            r == pick(self.unicode(), '─', '-'),
    {
        if self.use_unicode { '─' } else { '-' }
    }

    /// Vertical line.
    pub fn vertical(&self) -> (r: char)
        ensures
            r == pick(self.unicode(), '│', '|'),
    {
        if self.use_unicode { '│' } else { '|' }
    }

    /// Top T-junction.
    pub fn top_tee(&self) -> (r: char)
        ensures
            r == pick(self.unicode(), '┬', '+'),
    {
        if self.use_unicode { '┬' } else { '+' }
    }

    /// Bottom T-junction.
    pub fn bottom_tee(&self) -> (r: char)
        ensures
            r == pick(self.unicode(), '┴', '+'),
    {
        if self.use_unicode { '┴' } else { '+' }
    }

    /// Left T-junction.
    pub fn left_tee(&self) -> (r: char)
        ensures
            r == pick(self.unicode(), '├', '+'),
    {
        if self.use_unicode { '├' } else { '+' }
    }

    /// Right T-junction.
    pub fn right_tee(&self) -> (r: char)
        ensures
            r == pick(self.unicode(), '┤', '+'),
    {
        if self.use_unicode { '┤' } else { '+' }
    }

    /// Cross junction.
    pub fn cross(&self) -> (r: char)
        ensures
            r == pick(self.unicode(), '┼', '+'),
    {
        if self.use_unicode { '┼' } else { '+' }
    }

    /// Double-line top-left corner.
    pub fn double_top_left(&self) -> (r: char)
        ensures
            r == pick(self.unicode(), '╔', '+'),
    {
        if self.use_unicode { '╔' } else { '+' }
    }

    /// Double-line top-right corner.
    pub fn double_top_right(&self) -> (r: char)
        ensures
            r == pick(self.unicode(), '╗', '+'),
    {
        if self.use_unicode { '╗' } else { '+' }
    }

    /// Double-line bottom-left corner.
    pub fn double_bottom_left(&self) -> (r: char)
        ensures
            r == pick(self.unicode(), '╚', '+'),
    {
        if self.use_unicode { '╚' } else { '+' }
    }

    /// Double-line bottom-right corner.
    pub fn double_bottom_right(&self) -> (r: char)
        ensures
            r == pick(self.unicode(), '╝', '+'),
    {
        if self.use_unicode { '╝' } else { '+' }
    }

    /// Double-line horizontal.
    pub fn double_horizontal(&self) -> (r: char)
        ensures
            r == pick(self.unicode(), '═', '='),
    {
        if self.use_unicode { '═' } else { '=' }
    }

    /// Double-line vertical.
    pub fn double_vertical(&self) -> (r: char)
        ensures
            r == pick(self.unicode(), '║', '|'),
    {
        if self.use_unicode { '║' } else { '|' }
    }

    /// A horizontal line `width` characters long.
    pub fn h_line(&self, width: usize) -> (r: String)
        ensures
            r@ == repeat(pick(self.unicode(), '─', '-'), width as nat),
    {
        repeat_string(self.horizontal(), width)
    }

    /// A vertical line `height` characters long.
    pub fn v_line(&self, height: usize) -> (r: String)
        ensures
            r@ == repeat(pick(self.unicode(), '│', '|'), height as nat),
    {
        repeat_string(self.vertical(), height)
    }

    /// A frame `width` wide (two of it for the corners), with the title
    /// centred in its top line: the top line, a line holding one vertical
    /// bar, and the bottom line, separated by newlines. The title's width is
    /// taken as its length in bytes.
    pub fn frame_with_title(&self, width: usize, title: Option<&str>) -> (r: String)
        ensures
            ({
                let u = self.unicode();
                let inner = if width >= 2 { (width - 2) as nat } else { 0 };
                let h = pick(u, '─', '-');
                let v = pick(u, '│', '|');
                let t = match title {
                    Some(s) => Some(s@),
                    None => None,
                };
                r@ == frame_top(pick(u, '┌', '+'), pick(u, '┐', '+'), h, v, inner, t) + seq![
                    '\n',
                    v,
                    '\n',
                ] + seq![pick(u, '└', '+')] + repeat(h, inner) + seq![pick(u, '┘', '+')]
            }),
    {
        let tl = self.top_left();
        let tr = self.top_right();
        let bl = self.bottom_left();
        let br = self.bottom_right();
        let h = self.horizontal();
        let v = self.vertical();
        let inner = width.saturating_sub(2);
        let mut out: Vec<char> = Vec::new();
        out.push(tl);
        match title {
            Some(t) => {
                let tv = chars_of(t);
                let tlen = utf8_len_exec(&tv);
                let title_len = if tlen < inner { tlen } else { inner };
                let padding = inner - title_len;
                let left = padding / 2;
                let right = padding - left;
                push_repeat(&mut out, h, left);
                extend(&mut out, &tv);
                push_repeat(&mut out, h, right);
                out.push(tr);
            },
            None => {
                push_repeat(&mut out, h, inner);
                out.push(tr);
            },
        }
        out.push('\n');
        out.push(v);
        out.push('\n');
        out.push(bl);
        push_repeat(&mut out, h, inner);
        out.push(br);
        let ghost tt = match title {
            Some(s) => Some(s@),
            None => None,
        };
        proof {
            let top = frame_top(tl, tr, h, v, inner as nat, tt);
            assert(out@ =~= top + seq!['\n', v, '\n'] + seq![bl] + repeat(h, inner as nat)
                + seq![br]);
        }
        string_of(&out)
    }

    /// A section separator `width` wide: a cross, half of the inner width in
    /// horizontal lines, a cross, and the rest of the inner width in lines.
    pub fn separator(&self, width: usize) -> (r: String)
        ensures
            ({
                let u = self.unicode();
                let inner = if width >= 2 { (width - 2) as nat } else { 0 };
                let half = inner / 2;
                let c = pick(u, '┼', '+');
                let h = pick(u, '─', '-');
                r@ == seq![c] + repeat(h, half) + seq![c] + repeat(h, (inner - half) as nat)
            }),
    {
        let c = self.cross();
        let h = self.horizontal();
        let inner = width.saturating_sub(2);
        let half = inner / 2;
        let mut out: Vec<char> = Vec::new();
        out.push(c);
        push_repeat(&mut out, h, half);
        out.push(c);
        push_repeat(&mut out, h, inner - half);
        proof {
            assert(out@ =~= seq![c] + repeat(h, half as nat) + seq![c] + repeat(
                h,
                (inner - half) as nat,
            ));
        }
        string_of(&out)
    }
}

impl Default for BoxChars {
    fn default() -> (r: Self)
        ensures
            r.unicode(),
    {
        Self::new(true)
    }
}

/// Pre-defined border styles.
#[derive(Debug, Clone, Copy, PartialEq, Eq, Structural)]
pub enum BorderStyle {
    /// Single line (light).
    Single,
    /// Double line.
    Double,
    /// Rounded corners.
    Rounded,
    /// Plain ASCII.
    Plain,
}

/// The kind of border a terminal widget draws.
#[derive(Debug, Clone, Copy, PartialEq, Eq, Structural)]
pub enum BorderKind {
    /// Plain lines.
    Plain,
    /// Double lines.
    Double,
    /// Rounded corners.
    Rounded,
}

impl BorderStyle {
    /// The border kind drawn for this style; single and plain styles both
    /// draw plain borders.
    pub fn to_border_type(self) -> (r: BorderKind)
        ensures
            r == match self {
                BorderStyle::Single => BorderKind::Plain,
                BorderStyle::Double => BorderKind::Double,
                BorderStyle::Rounded => BorderKind::Rounded,
                BorderStyle::Plain => BorderKind::Plain,
            },
    {
        match self {
            BorderStyle::Single => BorderKind::Plain,
            BorderStyle::Double => BorderKind::Double,
            BorderStyle::Rounded => BorderKind::Rounded,
            BorderStyle::Plain => BorderKind::Plain,
        }
    }
}

} // verus!

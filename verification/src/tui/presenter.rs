//! A boxed header in the interface's style, for non-interactive output.

use vstd::prelude::*;
use crate::text::{byte_len, chars_of, dec, extend, push_dec, push_repeat, push_str, repeat,
    string_of, utf8_len};

verus! {

/// Presents downloads with the interface's box drawing.
pub struct TuiStylePresenter;

/// `text` centred in `width`: the same number of spaces on each side, half
/// of what remains after the text's byte length and two more columns.
pub open spec fn centered(text: Seq<char>, width: nat) -> Seq<char> {
    let rest = if width >= utf8_len(text) + 2 { width - utf8_len(text) - 2 } else { 0 };
    let pad = (rest / 2) as nat;
    repeat(' ', pad) + text + repeat(' ', pad)
}

/// Computes [`centered`].
pub fn center_text(text: &str, width: usize) -> (r: String)
    ensures
        r@ == centered(text@, width as nat),
{
    let len = byte_len(text);
    let pad = width.saturating_sub(len).saturating_sub(2) / 2;
    let mut out: Vec<char> = Vec::new();
    push_repeat(&mut out, ' ', pad);
    push_str(&mut out, text);
    push_repeat(&mut out, ' ', pad);
    string_of(&out)
}

impl TuiStylePresenter {
    /// A presenter.
    pub fn new() -> (r: Self) {
        TuiStylePresenter
    }

    /// The four lines of the header box for a video: a 60-wide frame
    /// around the centred title and the centred `duration • N tracks`.
    pub fn header_lines(&self, title: &str, duration: &str, track_count: usize) -> (r: Vec<
        String,
    >)
        ensures
            r@.len() == 4,
            r@[0]@ == seq!['┌'] + repeat('─', 60) + seq!['┐'],
            r@[1]@ == seq!['│'] + centered(title@, 60) + seq!['│'],
            r@[2]@ == seq!['│'] + centered(duration@ + " • "@ + dec(track_count as nat) + " tracks"@, 60)
                + seq!['│'],
            r@[3]@ == seq!['└'] + repeat('─', 60) + seq!['┘'],
    {
        let mut top: Vec<char> = Vec::new();
        top.push('┌');
        push_repeat(&mut top, '─', 60);
        top.push('┐');
        let mut bottom: Vec<char> = Vec::new();
        bottom.push('└');
        push_repeat(&mut bottom, '─', 60);
        bottom.push('┘');
        let mut l1: Vec<char> = Vec::new();
        l1.push('│');
        let c1 = center_text(title, 60);
        let c1v = chars_of(c1.as_str());
        extend(&mut l1, &c1v);
        l1.push('│');
        let mut info: Vec<char> = chars_of(duration);
        push_str(&mut info, " • ");
        push_dec(&mut info, track_count as u64);
        push_str(&mut info, " tracks");
        let info_s = string_of(&info);
        let c2 = center_text(info_s.as_str(), 60);
        let c2v = chars_of(c2.as_str());
        let mut l2: Vec<char> = Vec::new();
        l2.push('│');
        extend(&mut l2, &c2v);
        l2.push('│');
        proof {
            assert(top@ =~= seq!['┌'] + repeat('─', 60) + seq!['┐']);
            assert(bottom@ =~= seq!['└'] + repeat('─', 60) + seq!['┘']);
            assert(l1@ =~= seq!['│'] + centered(title@, 60) + seq!['│']);
            assert(l2@ =~= seq!['│'] + centered(duration@ + " • "@ + dec(track_count as nat)
                + " tracks"@, 60) + seq!['│']);
        }
        vec![string_of(&top), string_of(&l1), string_of(&l2), string_of(&bottom)]
    }
}

impl Default for TuiStylePresenter {
    fn default() -> (r: Self) {
        TuiStylePresenter
    }
}

} // verus!

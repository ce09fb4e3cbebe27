//! A cycling animation for loading indicators.

use vstd::prelude::*;
use crate::text::owned;

verus! {

/// Spinner animation style.
#[derive(Debug, Clone, Copy, PartialEq, Eq, Structural)]
pub enum SpinnerStyle {
    /// Classic vertical spinner.
    Vertical,
    /// Dots animation.
    Dots,
    /// Arrow rotation.
    Arrow,
    /// Shaded boxes.
    Box,
}

/// The frames of each style, in order.
pub open spec fn style_frames(style: SpinnerStyle) -> Seq<Seq<char>> {
    match style {
        SpinnerStyle::Vertical => seq!["⏳"@, "│"@, "╵"@, "│"@],
        SpinnerStyle::Dots => seq!["⣾"@, "⣽"@, "⣻"@, "⢿"@, "⡿"@, "⣟"@, "⣯"@, "⣷"@],
        SpinnerStyle::Arrow => seq!["←"@, "↖"@, "↑"@, "↗"@, "→"@, "↘"@, "↓"@, "↙"@],
        SpinnerStyle::Box => seq!["░"@, "▒"@, "▓"@, "▒"@, "▓"@, "▒"@, "▓"@, "█"@],
    }
}

/// The texts of a list of strings.
pub open spec fn texts(v: Seq<String>) -> Seq<Seq<char>> {
    v.map_values(|s: String| s@)
}

/// The frame index after `k` ticks from index `c` of a spinner with `n`
/// frames: each tick moves one frame on and wraps after the last.
pub open spec fn index_after_ticks(c: int, n: int, k: nat) -> int
    decreases k,
{
    if k == 0 {
        c
    } else {
        (index_after_ticks(c, n, (k - 1) as nat) + 1) % n
    }
}

/// After `k` ticks a spinner that showed frame `c` of its `n` frames shows
/// frame `(c + k) mod n`; a fresh spinner (at frame 0) shows frame
/// `k mod n`.
pub proof fn lemma_ticks_cycle(c: int, n: int, k: nat)
    requires
        0 <= c < n,
    ensures
        index_after_ticks(c, n, k) == (c + k) % n,
    decreases k,
{
    if k == 0 {
        vstd::arithmetic::div_mod::lemma_small_mod(c as nat, n as nat);
    } else {
        lemma_ticks_cycle(c, n, (k - 1) as nat);
        vstd::arithmetic::div_mod::lemma_add_mod_noop_right(1, c + k - 1, n);
    }
}

/// A spinner: its frames and the index of the frame shown.
pub struct Spinner {
    pub frames: Vec<String>,
    pub current: usize,
    pub style: SpinnerStyle,
}

impl Spinner {
    /// The spinner's state is consistent: the frame shown exists.
    pub open spec fn wf(&self) -> bool {
        self.current < self.frames@.len()
    }

    /// The text of the frame shown.
    pub open spec fn frame_text(&self) -> Seq<char> {
        self.frames@[self.current as int]@
    }

    /// A vertical spinner at its first frame.
    pub fn new() -> (r: Self)
        ensures
            r.wf(),
            r.style == SpinnerStyle::Vertical,
            texts(r.frames@) == style_frames(SpinnerStyle::Vertical),
            r.current == 0,
    {
        Self::with_style(SpinnerStyle::Vertical)
    }

    /// A spinner of the given style at its first frame.
    pub fn with_style(style: SpinnerStyle) -> (r: Self)
        ensures
            r.wf(),
            r.style == style,
            texts(r.frames@) == style_frames(style),
            r.current == 0,
    {
        let frames: Vec<String> = match style {
            SpinnerStyle::Vertical => vec![owned("⏳"), owned("│"), owned("╵"), owned("│")],
            SpinnerStyle::Dots => vec![
                owned("⣾"),
                owned("⣽"),
                owned("⣻"),
                owned("⢿"),
                owned("⡿"),
                owned("⣟"),
                owned("⣯"),
                owned("⣷"),
            ],
            SpinnerStyle::Arrow => vec![
                owned("←"),
                owned("↖"),
                owned("↑"),
                owned("↗"),
                owned("→"),
                owned("↘"),
                owned("↓"),
                owned("↙"),
            ],
            SpinnerStyle::Box => vec![
                owned("░"),
                owned("▒"),
                owned("▓"),
                owned("▒"),
                owned("▓"),
                owned("▒"),
                owned("▓"),
                owned("█"),
            ],
        };
        assert(texts(frames@) =~= style_frames(style));
        Spinner { frames, current: 0, style }
    }

    /// The frame shown.
    pub fn current(&self) -> (r: &str)
        requires
            self.wf(),
        ensures
            r@ == self.frame_text(),
    {
        self.frames[self.current].as_str()
    }

    /// Advances to the next frame, wrapping after the last, and returns it.
    pub fn tick(&mut self) -> (r: &str)
        requires
            old(self).wf(),
        ensures
            final(self).wf(),
            final(self).frames == old(self).frames,
            final(self).style == old(self).style,
            final(self).current == (old(self).current + 1) % (old(self).frames@.len() as int),
            final(self).current == index_after_ticks(
                old(self).current as int,
                old(self).frames@.len() as int,
                1,
            ),
            r@ == final(self).frame_text(),
    {
        let n = self.frames.len();
        proof {
            reveal_with_fuel(index_after_ticks, 2);
        }
        self.current = (self.current + 1) % n;
        self.frames[self.current].as_str()
    }

    /// Goes back to the first frame.
    pub fn reset(&mut self)
        requires
            old(self).wf(),
        ensures
            final(self).wf(),
            final(self).frames == old(self).frames,
            final(self).style == old(self).style,
            final(self).current == 0,
    {
        self.current = 0;
    }
}

impl Default for Spinner {
    fn default() -> (r: Self)
        ensures
            r.wf(),
            r.style == SpinnerStyle::Vertical,
            texts(r.frames@) == style_frames(SpinnerStyle::Vertical),
            r.current == 0,
    {
        Self::new()
    }
}

} // verus!

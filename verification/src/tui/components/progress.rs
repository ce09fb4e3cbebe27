//! A progress bar: how far a task has come out of a total.

use vstd::prelude::*;
use crate::text::{owned, push_repeat, push_str, push_dec, repeat, dec, chars_of, extend, string_of};

verus! {

/// A progress bar.
pub struct ProgressBar {
    pub progress: u16,
    pub total: u16,
    pub message: String,
    pub show_percent: bool,
    pub detailed: bool,
}

/// The percentage shown for `progress` out of `total`: zero for an empty
/// total, else the whole part of `100 * progress / total`, capped at 255.
pub open spec fn percent_of(progress: int, total: int) -> int {
    if total == 0 {
        0
    } else if (100 * progress) / total > 255 {
        255
    } else {
        (100 * progress) / total
    }
}

/// The bar drawn in `width` cells at `percent`: filled cells, then empty
/// ones.
pub open spec fn bar_cells(width: nat, percent: nat) -> Seq<char> {
    let filled = (width * percent) / 100;
    repeat('█', filled) + repeat('░', (if width >= filled { width - filled } else { 0 }) as nat)
}

impl ProgressBar {
    /// An empty bar out of 100, showing its percentage.
    pub fn new() -> (r: Self)
        ensures
            r.progress == 0,
            r.total == 100,
            r.message@ == Seq::<char>::empty(),
            r.show_percent,
            !r.detailed,
    {
        ProgressBar {
            progress: 0,
            total: 100,
            message: String::new(),
            show_percent: true,
            detailed: false,
        }
    }

    /// The bar at `progress`, capped at its total.
    pub fn with_progress(self, progress: u16) -> (r: Self)
        ensures
            r.progress == (if progress < self.total { progress } else { self.total }),
            r.total == self.total,
            r.message == self.message,
            r.show_percent == self.show_percent,
            r.detailed == self.detailed,
    {
        let mut s = self;
        s.progress = if progress < s.total { progress } else { s.total };
        s
    }

    /// The bar with another total; its progress is left as it is.
    pub fn with_total(self, total: u16) -> (r: Self)
        ensures
            r.progress == self.progress,
            r.total == total,
            r.message == self.message,
            r.show_percent == self.show_percent,
            r.detailed == self.detailed,
    {
        let mut s = self;
        s.total = total;
        s
    }

    /// The bar with a message.
    pub fn with_message(self, message: &str) -> (r: Self)
        ensures
            r.progress == self.progress,
            r.total == self.total,
            r.message@ == message@,
            r.show_percent == self.show_percent,
            r.detailed == self.detailed,
    {
        let mut s = self;
        s.message = owned(message);
        s
    }

    /// The bar, detailed or not.
    pub fn with_detailed(self, detailed: bool) -> (r: Self)
        ensures
            r.progress == self.progress,
            r.total == self.total,
            r.message == self.message,
            r.show_percent == self.show_percent,
            r.detailed == detailed,
    {
        let mut s = self;
        s.detailed = detailed;
        s
    }

    /// Sets the progress, capped at the total.
    pub fn set_progress(&mut self, progress: u16)
        ensures
            final(self).progress == (if progress < old(self).total {
                progress
            } else {
                old(self).total
            }),
            final(self).total == old(self).total,
            final(self).message == old(self).message,
            final(self).show_percent == old(self).show_percent,
            final(self).detailed == old(self).detailed,
    {
        self.progress = if progress < self.total { progress } else { self.total };
    }

    /// Advances the progress by `amount`, capped at the total.
    pub fn inc(&mut self, amount: u16)
        requires
            old(self).progress + amount <= u16::MAX,
        ensures
            final(self).progress == (if old(self).progress + amount < old(self).total {
                (old(self).progress + amount) as int
            } else {
                old(self).total as int
            }),
            final(self).total == old(self).total,
            final(self).message == old(self).message,
            final(self).show_percent == old(self).show_percent,
            final(self).detailed == old(self).detailed,
    {
        let p = self.progress + amount;
        self.progress = if p < self.total { p } else { self.total };
    }

    /// Whether the progress has reached the total.
    pub fn is_complete(&self) -> (r: bool)
        ensures
            r == (self.progress >= self.total),
    {
        self.progress >= self.total
    }

    /// The percentage done: see [`percent_of`].
    pub fn percent(&self) -> (r: u8)
        ensures
            r == percent_of(self.progress as int, self.total as int),
    {
        if self.total == 0 {
            return 0;
        }
        let q: u32 = (100 * (self.progress as u32)) / (self.total as u32);
        if q > 255 {
            255
        } else {
            q as u8
        }
    }

    /// The text of the bar drawn `width` cells wide: the bar, then the
    /// percentage (` N%`) when shown, then ` - message` when detailed and
    /// the message is not empty.
    pub fn render_text(&self, width: u16) -> (r: String)
        ensures
            ({
                let p = percent_of(self.progress as int, self.total as int) as nat;
                let pct = if self.show_percent { " "@ + dec(p) + "%"@ } else { Seq::empty() };
                let msg = if self.detailed && self.message@.len() > 0 {
                    " - "@ + self.message@
                } else {
                    Seq::empty()
                };
                r@ == bar_cells(width as nat, p) + pct + msg
            }),
    {
        let p = self.percent();
        let w: u64 = width as u64;
        assert(w * (p as u64) <= 65535 * 255) by (nonlinear_arith)
            requires
                w <= 65535,
                p <= 255,
        {
        }
        let filled: u64 = (w * (p as u64)) / 100;
        let empty: u64 = if w >= filled { w - filled } else { 0 };
        let mut out: Vec<char> = Vec::new();
        push_repeat(&mut out, '█', filled as usize);
        push_repeat(&mut out, '░', empty as usize);
        if self.show_percent {
            push_str(&mut out, " ");
            push_dec(&mut out, p as u64);
            push_str(&mut out, "%");
        }
        if self.detailed && !self.message.as_str().is_empty() {
            push_str(&mut out, " - ");
            let m = chars_of(self.message.as_str());
            extend(&mut out, &m);
        }
        string_of(&out)
    }
}

impl Default for ProgressBar {
    fn default() -> (r: Self)
        ensures
            r.progress == 0,
            r.total == 100,
            r.message@ == Seq::<char>::empty(),
            r.show_percent,
            !r.detailed,
    {
        Self::new()
    }
}

} // verus!

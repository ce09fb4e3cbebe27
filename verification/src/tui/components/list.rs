//! Selectable lists: for settings navigation, playlists and the like.

use vstd::prelude::*;
use crate::text::owned;

verus! {

/// The selection after a move up in a list of `len` items, and whether it
/// moved: from the first item nothing moves; with no selection the last
/// item is selected (if there is one).
pub open spec fn prev_selection(sel: Option<usize>, len: nat) -> (Option<usize>, bool) {
    match sel {
        Some(i) => if i == 0 {
            (sel, false)
        } else {
            (Some((i - 1) as usize), true)
        },
        None => if len > 0 {
            (Some((len - 1) as usize), true)
        } else {
            (None, false)
        },
    }
}

/// The selection after a move down in a list of `len` items, and whether it
/// moved: from the last item (or beyond it) nothing moves; with no
/// selection the first item is selected (if there is one).
pub open spec fn next_selection(sel: Option<usize>, len: nat) -> (Option<usize>, bool) {
    match sel {
        Some(i) => if i >= (if len >= 1 { len - 1 } else { 0 }) {
            (sel, false)
        } else {
            (Some((i + 1) as usize), true)
        },
        None => if len > 0 {
            (Some(0), true)
        } else {
            (None, false)
        },
    }
}

/// A selection is in bounds: none, or an index of an item.
pub open spec fn in_bounds(sel: Option<usize>, len: nat) -> bool {
    match sel {
        Some(i) => i < len,
        None => true,
    }
}

/// Moves of the selection keep it in bounds.
pub proof fn lemma_moves_stay_in_bounds(sel: Option<usize>, len: nat)
    requires
        in_bounds(sel, len),
        len <= usize::MAX,
    ensures
        in_bounds(prev_selection(sel, len).0, len),
        in_bounds(next_selection(sel, len).0, len),
{
}

/// A move down that moved from an item is undone by a move up, and a move
/// up that moved from an item is undone by a move down.
pub proof fn lemma_moves_undo(sel: Option<usize>, len: nat)
    requires
        in_bounds(sel, len),
        sel is Some,
        len <= usize::MAX,
    ensures
        next_selection(sel, len).1 ==> prev_selection(next_selection(sel, len).0, len) == (sel, true),
        prev_selection(sel, len).1 ==> next_selection(prev_selection(sel, len).0, len) == (sel, true),
{
}

/// A move of the selection in `sel`, with its result and whether it moved.
fn move_prev(sel: Option<usize>, len: usize) -> (r: (Option<usize>, bool))
    ensures
        r == prev_selection(sel, len as nat),
{
    match sel {
        Some(i) => if i == 0 {
            (sel, false)
        } else {
            (Some(i - 1), true)
        },
        None => if len > 0 {
            (Some(len - 1), true)
        } else {
            (None, false)
        },
    }
}

fn move_next(sel: Option<usize>, len: usize) -> (r: (Option<usize>, bool))
    ensures
        r == next_selection(sel, len as nat),
{
    match sel {
        Some(i) => if i >= len.saturating_sub(1) {
            (sel, false)
        } else {
            (Some(i + 1), true)
        },
        None => if len > 0 {
            (Some(0), true)
        } else {
            (None, false)
        },
    }
}

/// The first visible row so that the selection is in view in a window of
/// `height` rows: unchanged when the selection is already visible, else
/// moved just enough (saturating at `usize::MAX` for an empty window).
pub open spec fn scrolled_offset(sel: Option<usize>, offset: nat, height: nat) -> nat {
    match sel {
        Some(s) => if s < offset {
            s as nat
        } else if s >= offset + height {
            if s - height + 1 <= usize::MAX {
                (s - height + 1) as nat
            } else {
                usize::MAX as nat
            }
        } else {
            offset
        },
        None => offset,
    }
}

/// Computes [`scrolled_offset`].
pub fn scroll_to_selection(sel: Option<usize>, offset: usize, height: usize) -> (r: usize)
    ensures
        r == scrolled_offset(sel, offset as nat, height as nat),
{
    match sel {
        Some(s) => if s < offset {
            s
        } else if (s as u128) >= (offset as u128) + (height as u128) {
            (s - height).saturating_add(1)
        } else {
            offset
        },
        None => offset,
    }
}

/// A list of strings with an optional selection.
pub struct SelectableList {
    pub items: Vec<String>,
    pub selected: Option<usize>,
    pub offset: usize,
    pub title: String,
    pub bordered: bool,
}

impl SelectableList {
    /// An empty, bordered list without selection or title.
    pub fn new() -> (r: Self)
        ensures
            r.items@.len() == 0,
            r.selected is None,
            r.offset == 0,
            r.title@ == Seq::<char>::empty(),
            r.bordered,
    {
        SelectableList {
            items: Vec::new(),
            selected: None,
            offset: 0,
            title: String::new(),
            bordered: true,
        }
    }

    /// The list with a title.
    pub fn with_title(self, title: &str) -> (r: Self)
        ensures
            r.title@ == title@,
            r.items == self.items,
            r.selected == self.selected,
            r.offset == self.offset,
            r.bordered == self.bordered,
    {
        let mut s = self;
        s.title = owned(title);
        s
    }

    /// The list, bordered or not.
    pub fn with_bordered(self, bordered: bool) -> (r: Self)
        ensures
            r.bordered == bordered,
            r.items == self.items,
            r.selected == self.selected,
            r.offset == self.offset,
            r.title == self.title,
    {
        let mut s = self;
        s.bordered = bordered;
        s
    }

    /// The list with these items; the first is selected when there are
    /// items and nothing was selected, else the selection stays.
    pub fn with_items(self, items: Vec<String>) -> (r: Self)
        ensures
            r.items@ == items@,
            r.selected == (if items@.len() > 0 && self.selected is None {
                Some(0usize)
            } else {
                self.selected
            }),
            r.offset == self.offset,
            r.title == self.title,
            r.bordered == self.bordered,
    {
        let mut s = self;
        s.items = items;
        if s.items.len() > 0 && s.selected.is_none() {
            s.selected = Some(0);
        }
        s
    }

    /// The list with items copied from `items`; the first is selected when
    /// there are items, else the selection stays.
    pub fn items_from(self, items: &[&str]) -> (r: Self)
        ensures
            r.items@.len() == items@.len(),
            forall|i: int| 0 <= i < items@.len() ==> r.items@[i]@ == items@[i]@,
            r.selected == (if items@.len() > 0 { Some(0usize) } else { self.selected }),
            r.offset == self.offset,
            r.title == self.title,
            r.bordered == self.bordered,
    {
        let mut v: Vec<String> = Vec::new();
        let mut i: usize = 0;
        while i < items.len()
            invariant
                i <= items@.len(),
                v@.len() == i,
                forall|j: int| 0 <= j < i ==> v@[j]@ == items@[j]@,
            decreases items@.len() - i,
        {
            v.push(owned(items[i]));
            i = i + 1;
        }
        let mut s = self;
        s.items = v;
        if items.len() > 0 {
            s.selected = Some(0);
        }
        s
    }

    /// Number of items.
    pub fn len(&self) -> (r: usize)
        ensures
            r == self.items@.len(),
    {
        self.items.len()
    }

    /// Whether there are no items.
    pub fn is_empty(&self) -> (r: bool)
        ensures
            r == (self.items@.len() == 0),
    {
        self.items.len() == 0
    }

    /// The selected index.
    pub fn selected(&self) -> (r: Option<usize>)
        ensures
            r == self.selected,
    {
        self.selected
    }

    /// Selects the item `index` if there is one; else nothing changes.
    pub fn set_selected(&mut self, index: usize)
        ensures
            final(self).selected == (if index < old(self).items@.len() {
                Some(index)
            } else {
                old(self).selected
            }),
            final(self).items == old(self).items,
            final(self).offset == old(self).offset,
            final(self).title == old(self).title,
            final(self).bordered == old(self).bordered,
    {
        if index < self.items.len() {
            self.selected = Some(index);
        }
    }

    /// Moves the selection up: see [`prev_selection`]. Returns whether it
    /// moved.
    pub fn select_previous(&mut self) -> (r: bool)
        ensures
            (final(self).selected, r) == prev_selection(old(self).selected, old(self).items@.len()),
            final(self).items == old(self).items,
            final(self).offset == old(self).offset,
            final(self).title == old(self).title,
            final(self).bordered == old(self).bordered,
    {
        let (s, moved) = move_prev(self.selected, self.items.len());
        self.selected = s;
        moved
    }

    /// Moves the selection down: see [`next_selection`]. Returns whether it
    /// moved.
    pub fn select_next(&mut self) -> (r: bool)
        ensures
            (final(self).selected, r) == next_selection(old(self).selected, old(self).items@.len()),
            final(self).items == old(self).items,
            final(self).offset == old(self).offset,
            final(self).title == old(self).title,
            final(self).bordered == old(self).bordered,
    {
        let (s, moved) = move_next(self.selected, self.items.len());
        self.selected = s;
        moved
    }

    /// Selects the first item, if there is one.
    pub fn select_first(&mut self)
        ensures
            final(self).selected == (if old(self).items@.len() > 0 {
                Some(0usize)
            } else {
                old(self).selected
            }),
            final(self).items == old(self).items,
            final(self).offset == old(self).offset,
            final(self).title == old(self).title,
            final(self).bordered == old(self).bordered,
    {
        if self.items.len() > 0 {
            self.selected = Some(0);
        }
    }

    /// Selects the last item, if there is one.
    pub fn select_last(&mut self)
        ensures
            final(self).selected == (if old(self).items@.len() > 0 {
                Some((old(self).items@.len() - 1) as usize)
            } else {
                old(self).selected
            }),
            final(self).items == old(self).items,
            final(self).offset == old(self).offset,
            final(self).title == old(self).title,
            final(self).bordered == old(self).bordered,
    {
        if self.items.len() > 0 {
            self.selected = Some(self.items.len() - 1);
        }
    }

    /// Scrolls so that the selection is visible in an area `area_height`
    /// rows high (two rows fewer inside a border): see
    /// [`scrolled_offset`].
    pub fn scroll_into_view(&mut self, area_height: u16)
        ensures
            final(self).offset == scrolled_offset(
                old(self).selected,
                old(self).offset as nat,
                (if old(self).bordered {
                    if area_height >= 2 { area_height - 2 } else { 0 }
                } else {
                    area_height as int
                }) as nat,
            ),
            final(self).items == old(self).items,
            final(self).selected == old(self).selected,
            final(self).title == old(self).title,
            final(self).bordered == old(self).bordered,
    {
        let inner = if self.bordered { area_height.saturating_sub(2) } else { area_height };
        self.offset = scroll_to_selection(self.selected, self.offset, inner as usize);
    }
}

impl Default for SelectableList {
    fn default() -> (r: Self)
        ensures
            r.items@.len() == 0,
            r.selected is None,
            r.offset == 0,
            r.title@ == Seq::<char>::empty(),
            r.bordered,
    {
        Self::new()
    }
}

/// A list of key-value pairs with an optional selection.
pub struct KeyValueList {
    pub items: Vec<(String, String)>,
    pub selected: Option<usize>,
    pub offset: usize,
    pub title: String,
}

impl KeyValueList {
    /// An empty list without selection or title.
    pub fn new() -> (r: Self)
        ensures
            r.items@.len() == 0,
            r.selected is None,
            r.offset == 0,
            r.title@ == Seq::<char>::empty(),
    {
        KeyValueList { items: Vec::new(), selected: None, offset: 0, title: String::new() }
    }

    /// The list with a title.
    pub fn with_title(self, title: &str) -> (r: Self)
        ensures
            r.title@ == title@,
            r.items == self.items,
            r.selected == self.selected,
            r.offset == self.offset,
    {
        let mut s = self;
        s.title = owned(title);
        s
    }

    /// The list with these items; the first is selected when there are
    /// items, else the selection stays.
    pub fn with_items(self, items: Vec<(String, String)>) -> (r: Self)
        ensures
            r.items@ == items@,
            r.selected == (if items@.len() > 0 { Some(0usize) } else { self.selected }),
            r.offset == self.offset,
            r.title == self.title,
    {
        let mut s = self;
        s.items = items;
        if s.items.len() > 0 {
            s.selected = Some(0);
        }
        s
    }

    /// Number of items.
    pub fn len(&self) -> (r: usize)
        ensures
            r == self.items@.len(),
    {
        self.items.len()
    }

    /// Whether there are no items.
    pub fn is_empty(&self) -> (r: bool)
        ensures
            r == (self.items@.len() == 0),
    {
        self.items.len() == 0
    }

    /// Moves the selection up: see [`prev_selection`].
    pub fn select_previous(&mut self) -> (r: bool)
        ensures
            (final(self).selected, r) == prev_selection(old(self).selected, old(self).items@.len()),
            final(self).items == old(self).items,
            final(self).offset == old(self).offset,
            final(self).title == old(self).title,
    {
        let (s, moved) = move_prev(self.selected, self.items.len());
        self.selected = s;
        moved
    }

    /// Moves the selection down: see [`next_selection`].
    pub fn select_next(&mut self) -> (r: bool)
        ensures
            (final(self).selected, r) == next_selection(old(self).selected, old(self).items@.len()),
            final(self).items == old(self).items,
            final(self).offset == old(self).offset,
            final(self).title == old(self).title,
    {
        let (s, moved) = move_next(self.selected, self.items.len());
        self.selected = s;
        moved
    }

    /// Scrolls so that the selection is visible inside a bordered area
    /// `area_height` rows high.
    pub fn scroll_into_view(&mut self, area_height: u16)
        ensures
            final(self).offset == scrolled_offset(
                old(self).selected,
                old(self).offset as nat,
                (if area_height >= 2 { area_height - 2 } else { 0 }) as nat,
            ),
            final(self).items == old(self).items,
            final(self).selected == old(self).selected,
            final(self).title == old(self).title,
    {
        let inner = area_height.saturating_sub(2);
        self.offset = scroll_to_selection(self.selected, self.offset, inner as usize);
    }
}

impl Default for KeyValueList {
    fn default() -> (r: Self)
        ensures
            r.items@.len() == 0,
            r.selected is None,
            r.offset == 0,
            r.title@ == Seq::<char>::empty(),
    {
        Self::new()
    }
}

} // verus!

//! Selection and scroll offset of a list view.

use vstd::prelude::*;

verus! {

/// Selection after moving up one row.
pub open spec fn select_previous_spec(selected: int) -> int {
    if selected > 0 { selected - 1 } else { 0 }
}

/// Selection after moving down one row in a list of `len` rows.
pub open spec fn select_next_spec(selected: int, len: int) -> int {
    if selected + 1 < len { selected + 1 } else { selected }
}

/// First visible row after scrolling so that `selected` is among the
/// `height` rows shown (`selected + 1` saturates at `usize::MAX`).
pub open spec fn update_offset_spec(selected: int, offset: int, height: int) -> int {
    let next = if selected + 1 > usize::MAX { usize::MAX as int } else { selected + 1 };
    if selected < offset {
        selected
    } else if selected >= offset + height {
        if next >= height { next - height } else { 0 }
    } else {
        offset
    }
}

/// Selection after a deletion leaves `len` rows: a selection past the end
/// moves to the last row, or to 0 when the list is empty.
pub open spec fn clamp_selected_spec(selected: int, len: int) -> int {
    if selected >= len {
        if len > 0 { len - 1 } else { 0 }
    } else {
        selected
    }
}

/// Selected row and first visible row of a list.
#[derive(Debug, Clone, Copy, PartialEq, Eq)]
pub struct ScrollableList {
    pub selected: usize,
    pub offset: usize,
}

impl ScrollableList {
    /// The list with the first row selected and shown.
    pub open spec fn new_spec() -> Self {
        ScrollableList { selected: 0, offset: 0 }
    }

    /// A list with the first row selected and shown.
    pub fn new() -> (res: Self)
        ensures
            res == Self::new_spec(),
            res.selected == 0,
            res.offset == 0,
    {
        ScrollableList { selected: 0, offset: 0 }
    }

    /// Selects the previous row, stopping at the first.
    pub fn select_previous(&mut self)
        ensures
            final(self).selected == select_previous_spec(old(self).selected as int),
            final(self).offset == old(self).offset,
    {
        self.selected = self.selected.saturating_sub(1);
    }

    /// Selects the next row of a list of `len` rows, stopping at the last.
    pub fn select_next(&mut self, len: usize)
        ensures
            final(self).selected == select_next_spec(old(self).selected as int, len as int),
            final(self).offset == old(self).offset,
    {
        if len == 0 {
            return;
        }
        if self.selected < len - 1 {
            self.selected = self.selected + 1;
        }
    }

    /// Scrolls just enough that the selected row is among the
    /// `visible_height` rows shown.
    pub fn update_offset(&mut self, visible_height: usize)
        ensures
            final(self).selected == old(self).selected,
            final(self).offset == update_offset_spec(
                old(self).selected as int,
                old(self).offset as int,
                visible_height as int,
            ),
    {
        if self.selected < self.offset {
            self.offset = self.selected;
        } else if visible_height <= usize::MAX - self.offset
            && self.selected >= self.offset + visible_height {
            self.offset = self.selected.saturating_add(1).saturating_sub(visible_height);
        }
    }

    /// Selects and shows the first row.
    pub fn reset(&mut self)
        ensures
            final(self).selected == 0,
            final(self).offset == 0,
    {
        self.selected = 0;
        self.offset = 0;
    }

    /// After a deletion leaves `len` rows, moves a selection past the end
    /// to the last row (or to 0 when the list is empty).
    pub fn clamp_selected(&mut self, len: usize)
        ensures
            final(self).selected == clamp_selected_spec(old(self).selected as int, len as int),
            final(self).offset == old(self).offset,
    {
        if self.selected >= len {
            self.selected = len.saturating_sub(1);
        }
    }

    /// The selected row clamped to the last of `len` rows, or `None` when
    /// the list is empty.
    pub fn selected_or_none(&self, len: usize) -> (res: Option<usize>)
        ensures
            res == if len == 0 {
                None
            } else if self.selected < len {
                Some(self.selected)
            } else {
                Some((len - 1) as usize)
            },
    {
        if len == 0 {
            None
        } else {
            Some(if self.selected < len - 1 { self.selected } else { len - 1 })
        }
    }
}

/// Moving the selection down and then up returns to the same row, unless the
/// selection was already on the last row.
pub proof fn lemma_next_then_previous(selected: int, len: int)
    requires
        0 <= selected,
        selected + 1 < len,
    ensures
        select_previous_spec(select_next_spec(selected, len)) == selected,
{
}

/// After `update_offset` with a positive height, the selected row lies in
/// the window of rows shown.
pub proof fn lemma_update_offset_shows_selected(selected: int, offset: int, height: int)
    requires
        0 <= selected < usize::MAX,
        0 <= offset,
        height > 0,
    ensures
        update_offset_spec(selected, offset, height) <= selected
            < update_offset_spec(selected, offset, height) + height,
{
}

/// Selecting the next row never leaves a non-empty list.
pub proof fn lemma_select_next_in_bounds(selected: int, len: int)
    requires
        0 <= selected < len,
    ensures
        0 <= select_next_spec(selected, len) < len,
{
}

} // verus!

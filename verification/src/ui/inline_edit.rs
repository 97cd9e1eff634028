//! Inline editing of one item of a list.

use vstd::prelude::*;
use crate::ui::keys::{KeyCode, KeyEvent};
use crate::ui::scrollable_list::ScrollableList;
use crate::ui::text_input::{handle_text_input, text_key_spec, TextInput};

verus! {

/// Inline text-edit state for a list: which item is edited, the text being
/// typed, and where a new item goes when one is being inserted.
#[derive(Debug, Clone)]
pub struct InlineEdit {
    pub editing: Option<usize>,
    pub edit_input: TextInput,
    pub insert_at: Option<usize>,
}

/// Content and cursor after a key with prefix protection: Backspace, Delete
/// and Left do nothing while the cursor is at or before byte `guard`.
pub open spec fn protected_key_spec(s: Seq<char>, b: int, code: KeyCode, guard: int) -> (Seq<char>, int) {
    match code {
        KeyCode::Backspace | KeyCode::Delete | KeyCode::Left => {
            if b > guard { text_key_spec(s, b, code) } else { (s, b) }
        },
        _ => text_key_spec(s, b, code),
    }
}

/// Content and cursor after a key with an optional prefix protection: only
/// a guard blocks Backspace, Delete and Left; without one every key edits.
pub open spec fn guarded_key_spec(s: Seq<char>, b: int, code: KeyCode, guard: Option<int>) -> (Seq<char>, int) {
    match guard {
        Some(g) => protected_key_spec(s, b, code, g),
        None => text_key_spec(s, b, code),
    }
}

impl InlineEdit {
    /// Nothing edited, empty text, nothing inserted.
    pub fn new() -> (res: Self)
        ensures
            res.editing is None,
            res.edit_input.content@ == Seq::<char>::empty(),
            res.edit_input.cursor == 0,
            res.insert_at is None,
    {
        InlineEdit { editing: None, edit_input: TextInput::new(String::new()), insert_at: None }
    }

    /// Whether an item is being edited.
    pub fn is_editing(&self) -> (res: bool)
        ensures
            res == self.editing is Some,
    {
        self.editing.is_some()
    }

    /// Commits `new_item`: inserted at `insert_at` when an insertion is
    /// pending (which is then cleared), otherwise written over `items[idx]`;
    /// the list selects the position written. `editing` is left as it was.
    pub fn commit<T>(&mut self, idx: usize, items: &mut Vec<T>, new_item: T, list: &mut ScrollableList)
        requires
            match old(self).insert_at {
                Some(p) => p <= old(items).len(),
                None => idx < old(items).len(),
            },
        ensures
            final(self).insert_at is None,
            final(self).editing == old(self).editing,
            final(self).edit_input == old(self).edit_input,
            final(list).offset == old(list).offset,
            match old(self).insert_at {
                Some(p) => final(items)@ == old(items)@.insert(p as int, new_item) && final(list).selected == p,
                None => final(items)@ == old(items)@.update(idx as int, new_item) && final(list).selected == idx,
            },
    {
        match self.insert_at.take() {
            Some(insert_pos) => {
                items.insert(insert_pos, new_item);
                list.selected = insert_pos;
            },
            None => {
                items.set(idx, new_item);
                list.selected = idx;
            },
        }
    }

    /// Abandons the edit.
    pub fn cancel(&mut self)
        ensures
            final(self).insert_at is None,
            final(self).editing is None,
            final(self).edit_input == old(self).edit_input,
    {
        self.insert_at = None;
        self.editing = None;
    }

    /// Applies a text-editing key to the edited text.
    pub fn handle_key(&mut self, key: KeyEvent)
        ensures
            final(self).editing == old(self).editing,
            final(self).insert_at == old(self).insert_at,
            (final(self).edit_input.content@, final(self).edit_input.cursor as int)
                == text_key_spec(old(self).edit_input.content@, old(self).edit_input.cursor as int, key.code),
    {
        handle_text_input(&mut self.edit_input, key);
    }

    /// Applies a key while protecting the text up to byte `protect`: with
    /// `Some(pos)`, Backspace, Delete and Left do nothing while the cursor is
    /// at or before `pos`; with `None`, every key edits as usual.
    pub fn handle_key_protected(&mut self, key: KeyEvent, protect: Option<usize>)
        ensures
            final(self).editing == old(self).editing,
            final(self).insert_at == old(self).insert_at,
            (final(self).edit_input.content@, final(self).edit_input.cursor as int)
                == guarded_key_spec(
                    old(self).edit_input.content@,
                    old(self).edit_input.cursor as int,
                    key.code,
                    match protect { Some(p) => Some(p as int), None => None },
                ),
    {
        let guard = match protect {
            Some(p) => p,
            None => {
                handle_text_input(&mut self.edit_input, key);
                return;
            },
        };
        match key.code {
            KeyCode::Backspace => {
                if self.edit_input.cursor > guard {
                    self.edit_input.delete_before();
                }
            },
            KeyCode::Delete => {
                if self.edit_input.cursor > guard {
                    self.edit_input.delete_at();
                }
            },
            KeyCode::Left => {
                if self.edit_input.cursor > guard {
                    self.edit_input.move_cursor_left();
                }
            },
            _ => {
                handle_text_input(&mut self.edit_input, key);
            },
        }
    }
}

} // verus!

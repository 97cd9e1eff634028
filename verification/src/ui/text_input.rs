//! Single-line text input with a byte-offset cursor.

use vstd::prelude::*;
use crate::ui::keys::{KeyCode, KeyEvent};
use crate::text::{
    byte_len, char_len, char_utf8_len, chars_of, floor_chars, is_boundary, is_floor, lemma_char_len_bounds,
    lemma_floor_exists, lemma_floor_unique, lemma_utf8_len_full, lemma_utf8_len_push, lemma_utf8_len_take_mono,
    lemma_utf8_len_take_step, string_of, utf8_len,
};

verus! {

/// Single-line text input with cursor tracking. The cursor is a byte offset
/// into the UTF-8 encoding of `content`.
#[derive(Debug, Clone)]
pub struct TextInput {
    pub content: String,
    pub cursor: usize,
}

/// Content and cursor after inserting `c` at the char boundary at or before `b`.
pub open spec fn insert_spec(s: Seq<char>, b: int, c: char) -> (Seq<char>, int) {
    let k = floor_chars(s, b);
    (s.take(k).push(c) + s.skip(k), (utf8_len(s.take(k)) + char_len(c)) as int)
}

/// Content and cursor after deleting the char before the cursor.
pub open spec fn delete_before_spec(s: Seq<char>, b: int) -> (Seq<char>, int) {
    let k = floor_chars(s, b);
    if k > 0 {
        (s.remove(k - 1), utf8_len(s.take(k - 1)) as int)
    } else {
        (s, b)
    }
}

/// Content and cursor after deleting the char under the cursor.
pub open spec fn delete_at_spec(s: Seq<char>, b: int) -> (Seq<char>, int) {
    let k = floor_chars(s, b);
    if k < s.len() {
        (s.remove(k), utf8_len(s.take(k)) as int)
    } else {
        (s, b)
    }
}

/// Cursor after moving one char to the left: the last char boundary before `b`.
pub open spec fn move_left_spec(s: Seq<char>, b: int) -> int {
    if b > 0 {
        utf8_len(s.take(floor_chars(s, b - 1))) as int
    } else {
        b
    }
}

/// Cursor after moving one char to the right: the boundary after the char
/// that starts at the boundary at or before `b`, unless `b` is at the end.
pub open spec fn move_right_spec(s: Seq<char>, b: int) -> int {
    if b >= utf8_len(s) {
        b
    } else {
        utf8_len(s.take(floor_chars(s, b) + 1)) as int
    }
}

/// Char index and byte offset of the char boundary at or before byte `b`.
pub fn floor_boundary(chars: &Vec<char>, b: usize) -> (res: (usize, usize))
    requires
        utf8_len(chars@) <= isize::MAX,
    ensures
        is_floor(chars@, b as int, res.0 as int),
        res.1 == utf8_len(chars@.take(res.0 as int)),
        floor_chars(chars@, b as int) == res.0,
{
    let mut k: usize = 0;
    let mut pos: usize = 0;
    proof {
        assert(chars@.take(0) =~= Seq::<char>::empty());
    }
    while k < chars.len() && pos + char_utf8_len(chars[k]) <= b
        invariant
            k <= chars.len(),
            pos == utf8_len(chars@.take(k as int)),
            pos <= b,
            pos <= isize::MAX,
            utf8_len(chars@) <= isize::MAX,
        decreases chars.len() - k,
    {
        proof {
            lemma_utf8_len_take_step(chars@, k as int);
            lemma_utf8_len_take_mono(chars@, k as int + 1, chars@.len() as int);
            lemma_utf8_len_full(chars@);
        }
        pos = pos + char_utf8_len(chars[k]);
        k = k + 1;
    }
    proof {
        if k < chars.len() {
            lemma_utf8_len_take_step(chars@, k as int);
        }
        lemma_floor_unique(chars@, b as int, k as int);
    }
    (k, pos)
}

/// A char boundary is its own floor.
pub proof fn lemma_floor_of_boundary(s: Seq<char>, k: int)
    requires
        0 <= k <= s.len(),
    ensures
        floor_chars(s, utf8_len(s.take(k)) as int) == k,
{
    if k < s.len() {
        lemma_utf8_len_take_step(s, k);
        lemma_char_len_bounds(s[k]);
    }
    lemma_floor_unique(s, utf8_len(s.take(k)) as int, k);
}

impl TextInput {
    /// A text input holding `content` with the cursor at its end.
    pub fn new(content: String) -> (res: Self)
        ensures
            res.content == content,
            res.content@ == content@,
            res.cursor == utf8_len(content@),
    {
        let cursor = byte_len(content.as_str());
        TextInput { content, cursor }
    }

    /// Inserts `c` at the cursor and moves the cursor past it.
    pub fn insert_char(&mut self, c: char)
        ensures
            (final(self).content@, final(self).cursor as int)
                == insert_spec(old(self).content@, old(self).cursor as int, c),
    {
        let total = byte_len(self.content.as_str());
        let mut chars = chars_of(self.content.as_str());
        let (k, pos) = floor_boundary(&chars, self.cursor);
        let ghost s = chars@;
        chars.insert(k, c);
        assert(chars@ =~= s.take(k as int).push(c) + s.skip(k as int));
        proof {
            lemma_utf8_len_take_mono(s, k as int, s.len() as int);
            lemma_utf8_len_full(s);
        }
        self.content = string_of(&chars);
        self.cursor = pos + char_utf8_len(c);
    }

    /// Deletes the char before the cursor (Backspace).
    pub fn delete_before(&mut self)
        ensures
            (final(self).content@, final(self).cursor as int)
                == delete_before_spec(old(self).content@, old(self).cursor as int),
    {
        let total = byte_len(self.content.as_str());
        let mut chars = chars_of(self.content.as_str());
        let (k, pos) = floor_boundary(&chars, self.cursor);
        if k > 0 {
            let ghost s = chars@;
            proof {
                lemma_utf8_len_take_step(s, k - 1);
            }
            let prev = pos - char_utf8_len(chars[k - 1]);
            chars.remove(k - 1);
            self.content = string_of(&chars);
            self.cursor = prev;
        }
    }

    /// Deletes the char under the cursor (Delete).
    pub fn delete_at(&mut self)
        ensures
            (final(self).content@, final(self).cursor as int)
                == delete_at_spec(old(self).content@, old(self).cursor as int),
    {
        let total = byte_len(self.content.as_str());
        let mut chars = chars_of(self.content.as_str());
        let (k, pos) = floor_boundary(&chars, self.cursor);
        if k < chars.len() {
            chars.remove(k);
            self.content = string_of(&chars);
            self.cursor = pos;
        }
    }

    /// Moves the cursor one char to the left.
    pub fn move_cursor_left(&mut self)
        ensures
            final(self).content@ == old(self).content@,
            final(self).cursor == move_left_spec(old(self).content@, old(self).cursor as int),
    {
        if self.cursor > 0 {
            let total = byte_len(self.content.as_str());
            let chars = chars_of(self.content.as_str());
            let (_k, pos) = floor_boundary(&chars, self.cursor - 1);
            self.cursor = pos;
        }
    }

    /// Moves the cursor one char to the right.
    pub fn move_cursor_right(&mut self)
        ensures
            final(self).content@ == old(self).content@,
            final(self).cursor == move_right_spec(old(self).content@, old(self).cursor as int),
    {
        let len = byte_len(self.content.as_str());
        if self.cursor >= len {
            return;
        }
        let chars = chars_of(self.content.as_str());
        let (k, pos) = floor_boundary(&chars, self.cursor);
        proof {
            lemma_utf8_len_full(chars@);
            if k == chars.len() {
                assert(pos == len);
            }
            lemma_utf8_len_take_step(chars@, k as int);
            lemma_utf8_len_take_mono(chars@, k as int + 1, chars@.len() as int);
        }
        self.cursor = pos + char_utf8_len(chars[k]);
    }

    /// Moves the cursor to the start.
    pub fn move_cursor_to_start(&mut self)
        ensures
            final(self).content@ == old(self).content@,
            final(self).cursor == 0,
    {
        self.cursor = 0;
    }

    /// Moves the cursor to the end.
    pub fn move_cursor_to_end(&mut self)
        ensures
            final(self).content@ == old(self).content@,
            final(self).cursor == utf8_len(old(self).content@),
    {
        self.cursor = byte_len(self.content.as_str());
    }

    /// Empties the input.
    pub fn clear(&mut self)
        ensures
            final(self).content@ == Seq::<char>::empty(),
            final(self).cursor == 0,
    {
        self.content = String::new();
        self.cursor = 0;
    }
}

/// Content and cursor after the text-editing key `code`; other keys change
/// nothing.
pub open spec fn text_key_spec(s: Seq<char>, b: int, code: KeyCode) -> (Seq<char>, int) {
    match code {
        KeyCode::Char(c) => insert_spec(s, b, c),
        KeyCode::Backspace => delete_before_spec(s, b),
        KeyCode::Delete => delete_at_spec(s, b),
        KeyCode::Left => (s, move_left_spec(s, b)),
        KeyCode::Right => (s, move_right_spec(s, b)),
        KeyCode::Home => (s, 0),
        KeyCode::End => (s, utf8_len(s) as int),
        _ => (s, b),
    }
}

/// Applies a text-editing key (chars, Backspace, Delete, arrows, Home, End)
/// to `input`.
pub fn handle_text_input(input: &mut TextInput, key: KeyEvent)
    ensures
        (final(input).content@, final(input).cursor as int)
            == text_key_spec(old(input).content@, old(input).cursor as int, key.code),
        key.code == KeyCode::Home ==> final(input).content@ == old(input).content@ && final(input).cursor == 0,
        key.code == KeyCode::End ==> final(input).content@ == old(input).content@
            && final(input).cursor == utf8_len(old(input).content@),
{
    match key.code {
        KeyCode::Char(c) => input.insert_char(c),
        KeyCode::Backspace => input.delete_before(),
        KeyCode::Delete => input.delete_at(),
        KeyCode::Left => input.move_cursor_left(),
        KeyCode::Right => input.move_cursor_right(),
        KeyCode::Home => input.move_cursor_to_start(),
        KeyCode::End => input.move_cursor_to_end(),
        _ => {},
    }
}

/// Home puts the cursor before the first byte and End after the last one,
/// wherever it stood, leaving the text alone; End then Home comes back to
/// the start, Home then End to the end.
pub proof fn lemma_home_and_end(s: Seq<char>, b: int)
    ensures
        text_key_spec(s, b, KeyCode::Home) == (s, 0int),
        text_key_spec(s, b, KeyCode::End) == (s, utf8_len(s) as int),
        text_key_spec(s, text_key_spec(s, b, KeyCode::End).1, KeyCode::Home).1 == 0,
        text_key_spec(s, text_key_spec(s, b, KeyCode::Home).1, KeyCode::End).1 == utf8_len(s),
{
}

/// Inserting a char and then deleting the char before the cursor gives back
/// the content and cursor that were there, when the cursor stood on a char
/// boundary.
pub proof fn lemma_insert_then_backspace(s: Seq<char>, b: int, c: char)
    requires
        is_boundary(s, b),
    ensures
        delete_before_spec(insert_spec(s, b, c).0, insert_spec(s, b, c).1) == (s, b),
{
    let k0 = choose|k: int| 0 <= k <= s.len() && utf8_len(#[trigger] s.take(k)) == b;
    lemma_floor_of_boundary(s, k0);
    let k = floor_chars(s, b);
    assert(k == k0);
    let t = s.take(k).push(c) + s.skip(k);
    let b2 = utf8_len(s.take(k)) + char_len(c);
    assert(t.take(k + 1) =~= s.take(k).push(c));
    lemma_utf8_len_push(s.take(k), c);
    lemma_floor_of_boundary(t, k + 1);
    assert(t.remove(k) =~= s);
    assert(t.take(k) =~= s.take(k));
}

/// Every editing operation leaves a cursor that stood on a char boundary on a
/// char boundary of the new content.
pub proof fn lemma_edits_keep_boundary(s: Seq<char>, b: int, c: char)
    requires
        is_boundary(s, b),
    ensures
        is_boundary(insert_spec(s, b, c).0, insert_spec(s, b, c).1),
        is_boundary(delete_before_spec(s, b).0, delete_before_spec(s, b).1),
        is_boundary(delete_at_spec(s, b).0, delete_at_spec(s, b).1),
        is_boundary(s, move_left_spec(s, b)),
        is_boundary(s, move_right_spec(s, b)),
        is_boundary(s, 0),
        is_boundary(s, utf8_len(s) as int),
{
    let k0 = choose|k: int| 0 <= k <= s.len() && utf8_len(#[trigger] s.take(k)) == b;
    lemma_floor_of_boundary(s, k0);
    let k = k0;
    // insert
    let t = s.take(k).push(c) + s.skip(k);
    assert(t.take(k + 1) =~= s.take(k).push(c));
    lemma_utf8_len_push(s.take(k), c);
    // delete before
    if k > 0 {
        let r = s.remove(k - 1);
        assert(r.take(k - 1) =~= s.take(k - 1));
    }
    // delete at
    if k < s.len() {
        let r = s.remove(k);
        assert(r.take(k) =~= s.take(k));
    }
    // move left
    if b > 0 {
        lemma_floor_exists(s, b - 1);
    }
    // move right
    if b < utf8_len(s) {
        lemma_utf8_len_full(s);
        assert(k < s.len());
    }
    assert(s.take(0) =~= Seq::<char>::empty());
    lemma_utf8_len_full(s);
}

} // verus!

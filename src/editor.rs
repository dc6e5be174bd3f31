//! The document the snippet engine edits: a rope of text, a cursor, and the
//! editing mode.

use vstd::prelude::*;

use ropey::Rope;

use crate::cursor::{Cursor, Pos};
use crate::rope_text::{
    inserted, line_count_of, line_of_char, line_start_of, rope_char_to_line, rope_chars,
    rope_from_str, rope_get_char, rope_insert, rope_len_chars, rope_len_lines, rope_line_len,
    rope_line_to_char, line_len_of,
};

verus! {

#[derive(Debug, PartialEq, Eq, Clone, Copy, Structural)]
pub enum Mode {
    Normal,
    Insert,
}

pub struct Editor {
    pub text: Rope,
}

pub struct Document {
    pub editor: Editor,
    pub mode: Mode,
    pub cursor: Cursor,
}

/// The flat index of a position: the start of its row plus its column.
pub open spec fn index_of_pos(text: Seq<char>, p: Pos) -> int {
    line_start_of(text, p.y as nat) + p.x
}

/// A position names an existing row and its flat index fits in a `usize`.
pub open spec fn pos_in_text(text: Seq<char>, p: Pos) -> bool {
    p.y < line_count_of(text) && index_of_pos(text, p) <= usize::MAX
}

/// The position of a flat index, clamped to the end of the text.
pub open spec fn pos_of_index(text: Seq<char>, idx: int) -> Pos {
    let i = if idx > text.len() { text.len() as int } else { idx };
    let row = line_of_char(text, i as nat);
    Pos { y: row as usize, x: (i - line_start_of(text, row)) as usize }
}

impl Editor {
    pub open spec fn chars(&self) -> Seq<char> {
        rope_chars(self.text)
    }

    /// The number of lines.
    pub fn row_get_count(&self) -> (n: usize)
        ensures
            n == line_count_of(self.chars()),
            n >= 1,
    {
        rope_len_lines(&self.text)
    }

    /// The number of characters of a line, its line break included.
    pub fn row_get_length(&self, row_idx: usize) -> (n: usize)
        requires
            row_idx < line_count_of(self.chars()),
        ensures
            n == line_len_of(self.chars(), row_idx as nat),
    {
        rope_line_len(&self.text, row_idx)
    }

    /// The number of characters of a line, or `None` for a line the text
    /// does not have.
    pub fn row_length(&self, row_idx: usize) -> (n: Option<usize>)
        ensures
            row_idx < line_count_of(self.chars()) ==> n == Some(
                line_len_of(self.chars(), row_idx as nat) as usize,
            ),
            row_idx >= line_count_of(self.chars()) ==> n is None,
    {
        if row_idx < self.row_get_count() {
            Some(self.row_get_length(row_idx))
        } else {
            None
        }
    }

    /// The flat character index of a position.
    pub fn pos_to_idx(&self, pos: &Pos) -> (idx: usize)
        requires
            pos_in_text(self.chars(), *pos),
        ensures
            idx == index_of_pos(self.chars(), *pos),
    {
        let row_start = rope_line_to_char(&self.text, pos.y);
        row_start + pos.x
    }

    /// The position of a flat character index; an index past the end stands
    /// for the end.
    pub fn idx_to_pos(&self, row_idx: usize) -> (p: Pos)
        ensures
            p == pos_of_index(self.chars(), row_idx as int),
            p.y < line_count_of(self.chars()),
    {
        let len = rope_len_chars(&self.text);
        let idx = if row_idx > len { len } else { row_idx };
        let row = rope_char_to_line(&self.text, idx);
        let col = idx - rope_line_to_char(&self.text, row);
        Pos { y: row, x: col }
    }

    /// Whether an index is at the start of a line: the first index, or one
    /// right after a newline.
    pub fn is_start_row(&self, idx: usize) -> (r: bool)
        requires
            idx <= self.chars().len(),
        ensures
            r == (idx == 0 || self.chars()[idx - 1] == '\n'),
    {
        if idx == 0 {
            true
        } else {
            match rope_get_char(&self.text, idx - 1) {
                Some(c) => c == '\n',
                None => false,
            }
        }
    }
}

impl Document {
    pub open spec fn chars(&self) -> Seq<char> {
        rope_chars(self.editor.text)
    }

    /// The cursor stands on an existing row and its flat index fits in a `usize`.
    pub open spec fn cursor_in_text(&self) -> bool {
        pos_in_text(self.chars(), self.cursor.pos)
    }

    /// The flat index of the cursor.
    pub open spec fn cursor_index(&self) -> int {
        index_of_pos(self.chars(), self.cursor.pos)
    }

    /// Where text typed at the cursor goes: the cursor's index, or the end of
    /// the text when the cursor stands past it.
    pub open spec fn insert_index(&self) -> int {
        if self.cursor_index() > self.chars().len() {
            self.chars().len() as int
        } else {
            self.cursor_index()
        }
    }

    /// A document in normal mode holding `initial_text`, the cursor at the start.
    pub fn new(initial_text: &str) -> (d: Self)
        ensures
            d.chars() == initial_text@,
            d.mode == Mode::Normal,
            d.cursor.pos == (Pos { y: 0, x: 0 }),
            d.cursor.offset_y == 0,
    {
        Document {
            editor: Editor { text: rope_from_str(initial_text) },
            mode: Mode::Normal,
            cursor: Cursor::default(),
        }
    }

    /// Tells whether the cursor stands inside the text's rows with an index
    /// that fits in a `usize`.
    pub fn is_cursor_in_text(&self) -> (r: bool)
        ensures
            r == self.cursor_in_text(),
    {
        let lines = rope_len_lines(&self.editor.text);
        if self.cursor.pos.y >= lines {
            return false;
        }
        let row_start = rope_line_to_char(&self.editor.text, self.cursor.pos.y);
        self.cursor.pos.x <= usize::MAX - row_start
    }

    /// The flat index where the cursor is.
    pub fn cursor_get_idx(&self) -> (idx: usize)
        requires
            self.cursor_in_text(),
        ensures
            idx == self.cursor_index(),
    {
        self.editor.pos_to_idx(&self.cursor.pos)
    }

    /// The position of a flat index.
    pub fn cursor_get_loc(&self, row_idx: usize) -> (p: Pos)
        ensures
            p == pos_of_index(self.chars(), row_idx as int),
            p.y < line_count_of(self.chars()),
    {
        self.editor.idx_to_pos(row_idx)
    }

    pub fn cursor_set_pos(&mut self, pos: Pos)
        ensures
            final(self).cursor.pos == pos,
            final(self).cursor.offset_y == old(self).cursor.offset_y,
            final(self).chars() == old(self).chars(),
            final(self).mode == old(self).mode,
    {
        self.cursor.pos = pos;
    }

    /// Inserts text at the cursor, or at the end when the cursor is past it;
    /// the cursor does not move.
    pub fn cursor_pos_insert(&mut self, text: &str)
        requires
            old(self).cursor_in_text(),
        ensures
            final(self).chars() == inserted(old(self).chars(), old(self).insert_index(), text@),
            final(self).cursor == old(self).cursor,
            final(self).mode == old(self).mode,
    {
        let mut idx = self.cursor_get_idx();
        let len = rope_len_chars(&self.editor.text);
        if idx > len {
            idx = len;
        }
        rope_insert(&mut self.editor.text, idx, text);
    }

    /// Inserts text at the cursor as `cursor_pos_insert` does; the offset is
    /// not used.
    pub fn offset_insert(&mut self, text: &str, offset: usize)
        requires
            old(self).cursor_in_text(),
        ensures
            final(self).chars() == inserted(old(self).chars(), old(self).insert_index(), text@),
            final(self).cursor == old(self).cursor,
            final(self).mode == old(self).mode,
    {
        self.cursor_pos_insert(text);
    }

    /// Inserts text at a flat index.
    pub fn cursor_idx_insert(&mut self, idx: usize, text: &str)
        requires
            idx <= old(self).chars().len(),
        ensures
            final(self).chars() == inserted(old(self).chars(), idx as int, text@),
            final(self).cursor == old(self).cursor,
            final(self).mode == old(self).mode,
    {
        rope_insert(&mut self.editor.text, idx, text);
    }

    /// The character under the cursor, if the cursor is not past the end.
    pub fn cursor_get_char(&self) -> (c: Option<char>)
        requires
            self.cursor_in_text(),
        ensures
            self.cursor_index() < self.chars().len() ==> c == Some(
                self.chars()[self.cursor_index()],
            ),
            self.cursor_index() >= self.chars().len() ==> c is None,
    {
        let idx = self.cursor_get_idx();
        rope_get_char(&self.editor.text, idx)
    }
}

} // verus!

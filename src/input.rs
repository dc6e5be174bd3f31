//! Key dispatch: what one classified key does to the document and the
//! snippet session, in normal and in insert mode.

use vstd::prelude::*;

use crate::cursor::{CursorDirection, Pos, direction_of_key, moved};
use crate::editor::{Document, Mode, pos_of_index};
use crate::function::{
    EntityState, Snippet, SnippetCommand, command_step, doc_unchanged, entity_state_of_key,
    start_step, typed_step,
};
use crate::grammar::char_to_string;
use crate::rope_text::{inserted, line_count_of, removed, rope_len_chars, rope_remove};
use crate::snippet::{SnippetState, snippet_state_of_key};

verus! {

/// A key, as the terminal reports it.
#[derive(Clone, Copy, Debug, PartialEq, Eq, Structural)]
pub enum Key {
    Char(char),
    Esc,
    Enter,
    Backspace,
    Other,
}

/// Neither the session nor the document changed.
pub open spec fn nothing_changed(s0: Snippet, d0: Document, s1: Snippet, d1: Document) -> bool {
    s1 == s0 && doc_unchanged(d0, d1)
}

/// A character key in normal mode: `q` quits, `i` enters insert mode, `f`
/// starts a Create session; operation and slot keys feed the chord; the
/// navigation keys move the cursor (when it stands on a row of the text).
pub open spec fn normal_key_step(
    s0: Snippet,
    d0: Document,
    c: char,
    s1: Snippet,
    d1: Document,
    quit: bool,
) -> bool {
    &&& quit == (c == 'q')
    &&& if c == 'q' {
        nothing_changed(s0, d0, s1, d1)
    } else if c == 'i' {
        s1 == s0 && d1.chars() == d0.chars() && d1.cursor == d0.cursor && d1.mode == Mode::Insert
    } else if c == 'f' {
        start_step(s0, d0, SnippetState::Create, s1, d1)
    } else if let Some(op) = snippet_state_of_key(c) {
        command_step(s0, d0, SnippetCommand::SnippetState(op), s1, d1)
    } else if let Some(es) = entity_state_of_key(c) {
        command_step(s0, d0, SnippetCommand::EntityState(es), s1, d1)
    } else if let Some(dir) = direction_of_key(c) {
        &&& s1 == s0
        &&& d1.chars() == d0.chars() && d1.mode == d0.mode
        &&& d1.cursor.offset_y == d0.cursor.offset_y
        &&& d1.cursor.pos == if d0.cursor.pos.y < line_count_of(d0.chars()) {
            moved(d0.chars(), d0.cursor.pos, dir)
        } else {
            d0.cursor.pos
        }
    } else {
        nothing_changed(s0, d0, s1, d1)
    }
}

/// The cursor can take a character: it names a row and its index is below
/// `usize::MAX`.
pub open spec fn can_type(d: Document) -> bool {
    d.cursor_in_text() && d.cursor_index() < usize::MAX
}

/// Backspace in insert mode: inside a line it removes the character before
/// the cursor and steps the column back; at the start of a line other than
/// the first it joins the line to the one above and puts the cursor where
/// the removed break was. A cursor off the text, or past its end, changes
/// nothing.
pub open spec fn backspace_step(d0: Document, d1: Document) -> bool {
    let text = d0.chars();
    let idx = d0.cursor_index();
    &&& d1.mode == d0.mode
    &&& d1.cursor.offset_y == d0.cursor.offset_y
    &&& if !d0.cursor_in_text() || idx > text.len() {
        d1.chars() == text && d1.cursor == d0.cursor
    } else if !(idx == 0 || text[idx - 1] == '\n') {
        &&& d1.chars() == removed(text, idx - 1, idx)
        &&& d1.cursor.pos == (Pos {
            y: d0.cursor.pos.y,
            x: if d0.cursor.pos.x > 0 { (d0.cursor.pos.x - 1) as usize } else { 0 },
        })
    } else if d0.cursor.pos.y != 0 {
        let prev = if idx > 0 { idx - 1 } else { 0 };
        &&& d1.chars() == removed(text, prev, idx)
        &&& d1.cursor.pos == pos_of_index(d1.chars(), prev)
    } else {
        d1.chars() == text && d1.cursor == d0.cursor
    }
}

/// A key in insert mode: Esc returns to normal mode, a character is typed
/// (see `typed_step`), Enter breaks the line and moves the cursor to the
/// start of the next row, Backspace deletes backwards.
pub open spec fn insert_key_step(s0: Snippet, d0: Document, key: Key, s1: Snippet, d1: Document) -> bool {
    match key {
        Key::Esc => s1 == s0 && d1.chars() == d0.chars() && d1.cursor == d0.cursor && d1.mode
            == Mode::Normal,
        Key::Char(c) => if can_type(d0) {
            typed_step(s0, d0, c, s1, d1)
        } else {
            nothing_changed(s0, d0, s1, d1)
        },
        Key::Enter => if d0.cursor_in_text() {
            &&& s1 == s0
            &&& d1.chars() == inserted(d0.chars(), d0.insert_index(), seq!['\n'])
            &&& d1.cursor.pos == (Pos { y: (d0.cursor.pos.y + 1) as usize, x: 0 })
            &&& d1.cursor.offset_y == d0.cursor.offset_y
            &&& d1.mode == d0.mode
        } else {
            nothing_changed(s0, d0, s1, d1)
        },
        Key::Backspace => s1 == s0 && backspace_step(d0, d1),
        Key::Other => nothing_changed(s0, d0, s1, d1),
    }
}

/// What one key does, by mode; `quit` is set by `q` in normal mode alone.
pub open spec fn key_step(
    s0: Snippet,
    d0: Document,
    key: Key,
    s1: Snippet,
    d1: Document,
    quit: bool,
) -> bool {
    if d0.mode == Mode::Normal {
        match key {
            Key::Char(c) => normal_key_step(s0, d0, c, s1, d1, quit),
            _ => !quit && nothing_changed(s0, d0, s1, d1),
        }
    } else {
        !quit && insert_key_step(s0, d0, key, s1, d1)
    }
}

fn backspace(doc: &mut Document)
    ensures
        backspace_step(*old(doc), *final(doc)),
{
    if !doc.is_cursor_in_text() {
        return;
    }
    let idx = doc.cursor_get_idx();
    let len = rope_len_chars(&doc.editor.text);
    if idx > len {
        return;
    }
    let prev_idx = idx.saturating_sub(1);
    if !doc.editor.is_start_row(idx) {
        rope_remove(&mut doc.editor.text, prev_idx, idx);
        doc.cursor.pos.x = doc.cursor.pos.x.saturating_sub(1);
    } else if doc.cursor.pos.y != 0 {
        rope_remove(&mut doc.editor.text, prev_idx, idx);
        let pos = doc.editor.idx_to_pos(prev_idx);
        doc.cursor_set_pos(pos);
    }
}

/// Handles one key; returns whether the user asked to quit. See `key_step`.
pub fn handle_key(doc: &mut Document, snippet: &mut Snippet, key: Key) -> (quit: bool)
    requires
        old(snippet).wf(),
    ensures
        final(snippet).wf(),
        key_step(*old(snippet), *old(doc), key, *final(snippet), *final(doc), quit),
{
    match doc.mode {
        Mode::Normal => {
            if let Key::Char(c) = key {
                if c == 'q' {
                    return true;
                } else if c == 'i' {
                    doc.mode = Mode::Insert;
                } else if c == 'f' {
                    snippet.start(SnippetState::Create, doc);
                } else if let Some(op) = SnippetState::from_key(c) {
                    snippet.check_command(SnippetCommand::SnippetState(op), doc);
                } else if let Some(es) = EntityState::from_key(c) {
                    snippet.check_command(SnippetCommand::EntityState(es), doc);
                } else if let Some(dir) = CursorDirection::from_key(c) {
                    if doc.cursor.pos.y < doc.editor.row_get_count() {
                        doc.cursor.move_cursor(&doc.editor.text, dir);
                    }
                }
            }
        },
        Mode::Insert => match key {
            Key::Esc => {
                doc.mode = Mode::Normal;
            },
            Key::Char(c) => {
                if doc.is_cursor_in_text() {
                    if doc.cursor_get_idx() < usize::MAX {
                        snippet.type_char(c, doc);
                    }
                }
            },
            Key::Enter => {
                if doc.is_cursor_in_text() {
                    // the row is below the line count, so the next row fits
                    let _line_count = doc.editor.row_get_count();
                    doc.cursor_pos_insert(char_to_string('\n').as_str());
                    doc.cursor.pos.y = doc.cursor.pos.y + 1;
                    doc.cursor.pos.x = 0;
                }
            },
            Key::Backspace => {
                backspace(doc);
            },
            Key::Other => {},
        },
    }
    false
}

} // verus!

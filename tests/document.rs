use snipkit::cursor::{Cursor, CursorDirection, Pos};
use snipkit::editor::{Document, Mode};

#[test]
fn new_document_is_normal_at_origin() {
    let doc = Document::new("hello");
    assert_eq!(doc.editor.text.to_string(), "hello");
    assert_eq!(doc.mode, Mode::Normal);
    assert_eq!(doc.cursor.pos, Pos { y: 0, x: 0 });
    assert_eq!(doc.editor.row_get_count(), 1);
}

#[test]
fn index_and_position_convert_both_ways() {
    let doc = Document::new("ab\ncde\nf");
    assert_eq!(doc.editor.pos_to_idx(&Pos { y: 1, x: 2 }), 5);
    assert_eq!(doc.editor.idx_to_pos(5), Pos { y: 1, x: 2 });
    assert_eq!(doc.cursor_get_loc(7), Pos { y: 2, x: 0 });
    // past the end stands for the end
    assert_eq!(doc.cursor_get_loc(100), Pos { y: 2, x: 1 });
    assert_eq!(doc.editor.row_get_count(), 3);
    assert_eq!(doc.editor.row_get_length(1), 4);
    assert_eq!(doc.editor.row_length(2), Some(1));
    assert_eq!(doc.editor.row_length(3), None);
}

#[test]
fn insert_past_end_goes_to_end() {
    let mut doc = Document::new("ab");
    doc.cursor.pos.x = 9;
    assert!(doc.is_cursor_in_text());
    doc.cursor_pos_insert("Z");
    assert_eq!(doc.editor.text.to_string(), "abZ");
    assert_eq!(doc.cursor.pos, Pos { y: 0, x: 9 });
    doc.cursor_idx_insert(0, "<");
    assert_eq!(doc.editor.text.to_string(), "<abZ");
    doc.cursor_set_pos(Pos { y: 0, x: 1 });
    doc.offset_insert("-", 5);
    assert_eq!(doc.editor.text.to_string(), "<-abZ");
}

#[test]
fn cursor_char_and_row_starts() {
    let mut doc = Document::new("a\nb");
    assert_eq!(doc.cursor_get_char(), Some('a'));
    doc.cursor.pos = Pos { y: 1, x: 1 };
    assert_eq!(doc.cursor_get_char(), None);
    assert!(doc.editor.is_start_row(0));
    assert!(!doc.editor.is_start_row(1));
    assert!(doc.editor.is_start_row(2));
    doc.cursor.pos = Pos { y: 5, x: 0 };
    assert!(!doc.is_cursor_in_text());
}

#[test]
fn cursor_wraps_and_clamps() {
    let doc = Document::new("abc\nd");
    let mut c = Cursor::default();
    c.pos.x = 3;
    c.move_cursor(&doc.editor.text, CursorDirection::Right);
    // the line holds its break, so the column can reach 4 first
    assert_eq!(c.pos, Pos { y: 0, x: 4 });
    c.move_cursor(&doc.editor.text, CursorDirection::Right);
    assert_eq!(c.pos, Pos { y: 1, x: 0 });
    c.move_cursor(&doc.editor.text, CursorDirection::Left);
    assert_eq!(c.pos, Pos { y: 0, x: 4 });
    c.move_cursor(&doc.editor.text, CursorDirection::Down);
    assert_eq!(c.pos, Pos { y: 1, x: 1 });
    c.move_cursor(&doc.editor.text, CursorDirection::Down);
    assert_eq!(c.pos, Pos { y: 1, x: 1 });
    c.move_cursor(&doc.editor.text, CursorDirection::Up);
    assert_eq!(c.pos, Pos { y: 0, x: 1 });
    c.move_cursor(&doc.editor.text, CursorDirection::Up);
    assert_eq!(c.pos, Pos { y: 0, x: 1 });
}

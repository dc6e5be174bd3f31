use snipkit::cursor::{CursorDirection, Pos};
use snipkit::editor::{Document, Mode};
use snipkit::function::{EntityManager, EntityState, InsertState, Snippet, SnippetCommand};
use snipkit::input::{handle_key, Key};
use snipkit::snippet::SnippetState;

fn text(doc: &Document) -> String {
    doc.editor.text.to_string()
}

fn type_str(snippet: &mut Snippet, doc: &mut Document, s: &str) {
    for c in s.chars() {
        snippet.type_char(c, doc);
    }
}

/// A Create session with "main" typed for the name, "a" for the parameters,
/// then Esc to normal mode, the chord buffer empty.
fn filled_session() -> (Snippet, Document) {
    let mut doc = Document::new("");
    let mut snippet = Snippet::default();
    snippet.start(SnippetState::Create, &mut doc);
    type_str(&mut snippet, &mut doc, "main ");
    type_str(&mut snippet, &mut doc, "a ");
    assert_eq!(text(&doc), "fn main(a) -> ");
    doc.mode = Mode::Normal;
    (snippet, doc)
}

#[test]
fn create_session_inserts_each_scaffold_in_order() {
    let mut doc = Document::new("");
    let mut snippet = Snippet::default();
    snippet.start(SnippetState::Create, &mut doc);
    assert_eq!(text(&doc), "fn ");
    assert_eq!(doc.mode, Mode::Insert);
    assert_eq!(snippet.entity_manager.state, EntityState::Name);
    assert_eq!(snippet.entity_manager.entity.name.token_range, 0..3);
    // the toggle applied the enter half of the jump before writing
    assert_eq!(doc.cursor.pos, Pos { y: 0, x: 3 });

    // the name is required: an empty delimiter does not advance
    snippet.type_char(' ', &mut doc);
    assert_eq!(text(&doc), "fn ");
    assert_eq!(snippet.entity_manager.state, EntityState::Name);
    assert_eq!(
        snippet.notifications.as_deref(),
        Some("Value is Required in order to progress")
    );

    type_str(&mut snippet, &mut doc, "main ");
    assert_eq!(text(&doc), "fn main()");
    assert_eq!(snippet.notifications, None);
    assert_eq!(snippet.entity_manager.state, EntityState::Param);
    assert_eq!(snippet.entity_manager.entity.param.token_range, 7..9);

    snippet.type_char(' ', &mut doc);
    assert_eq!(text(&doc), "fn main() -> ");
    assert_eq!(snippet.entity_manager.state, EntityState::Result);
    assert_eq!(snippet.entity_manager.entity.result.token_range, 9..13);

    // the result slot is deletable and skippable: skipping drops its scaffolding
    snippet.type_char(' ', &mut doc);
    assert_eq!(text(&doc), "fn main() {}");
    assert_eq!(snippet.entity_manager.state, EntityState::Body);
    assert_eq!(snippet.entity_manager.entity.body.token_range, 9..12);

    snippet.type_char(' ', &mut doc);
    assert_eq!(text(&doc), "fn main() {}");
    assert_eq!(snippet.entity_manager.state, EntityState::Idle);
    assert_eq!(snippet.snippet_state, SnippetState::Idle);
    assert_eq!(snippet.entity_manager.insert_state, InsertState::Idle);
    assert_eq!(doc.mode, Mode::Insert);
    // the doc slot was never visited
    assert_eq!(snippet.entity_manager.entity.doc.token_range, 0..0);
}

#[test]
fn typed_characters_are_buffered_and_inserted() {
    let mut doc = Document::new("");
    let mut snippet = Snippet::default();
    snippet.start(SnippetState::Create, &mut doc);
    type_str(&mut snippet, &mut doc, "ab");
    assert_eq!(snippet.entity_manager.char_buffer, vec!['a', 'b']);
    assert_eq!(text(&doc), "fn ab");
    assert_eq!(doc.cursor.pos, Pos { y: 0, x: 5 });
}

#[test]
fn characters_outside_a_session_are_typed_not_buffered() {
    let mut doc = Document::new("xy");
    let mut snippet = Snippet::default();
    doc.cursor.pos.x = 1;
    snippet.type_char('q', &mut doc);
    snippet.type_char(' ', &mut doc);
    assert_eq!(text(&doc), "xq y");
    assert_eq!(doc.cursor.pos, Pos { y: 0, x: 3 });
    assert!(snippet.entity_manager.char_buffer.is_empty());
}

#[test]
fn commit_records_value_and_range() {
    let mut doc = Document::new("");
    let mut snippet = Snippet::default();
    snippet.start(SnippetState::Create, &mut doc);
    type_str(&mut snippet, &mut doc, "main");
    let idx = doc.cursor_get_idx();
    snippet.type_char(' ', &mut doc);
    let name = &snippet.entity_manager.entity.name;
    assert_eq!(name.value, "main");
    assert_eq!(name.value_range, (idx - 4)..idx);
    assert_eq!(name.value_range, 3..7);
    assert!(snippet.entity_manager.char_buffer.is_empty());
}

#[test]
fn collect_outside_trigger_state_is_not_handled() {
    let mut doc = Document::new("");
    let mut manager = EntityManager::default();
    let mut state = SnippetState::Swap;
    let mut msg = None;
    let r = manager.collect_chunk_buffer(' ', &mut doc, &mut state, &mut msg);
    assert_eq!(r, Err(()));
    assert!(manager.char_buffer.is_empty());
    assert_eq!(text(&doc), "");
}

#[test]
fn check_snippet_state_accepts_create_and_delete_only() {
    for (s, ok) in [
        (SnippetState::Create, true),
        (SnippetState::Delete, true),
        (SnippetState::Swap, false),
        (SnippetState::Refactor, false),
        (SnippetState::Goto, false),
        (SnippetState::Idle, false),
    ] {
        let mut st = s;
        assert_eq!(EntityManager::check_snippet_state(&mut st).is_ok(), ok);
        assert_eq!(st, s);
    }
}

#[test]
fn start_with_delete_also_inserts_scaffolding() {
    let mut doc = Document::new("");
    let mut snippet = Snippet::default();
    snippet.start(SnippetState::Delete, &mut doc);
    assert_eq!(text(&doc), "fn ");
    assert!(snippet.is_trigger_state());
}

#[test]
fn start_with_swap_changes_nothing_else() {
    let mut doc = Document::new("abc");
    let mut snippet = Snippet::default();
    snippet.start(SnippetState::Swap, &mut doc);
    assert_eq!(text(&doc), "abc");
    assert_eq!(snippet.snippet_state, SnippetState::Swap);
    assert_eq!(snippet.entity_manager.state, EntityState::Idle);
    assert!(!snippet.is_trigger_state());
    assert_eq!(doc.mode, Mode::Normal);
}

#[test]
fn chord_delete_on_skippable_slot_keeps_cursor() {
    let (mut snippet, mut doc) = filled_session();
    assert_eq!(snippet.entity_manager.entity.param.value_range, 8..9);
    let before = doc.cursor.pos;
    snippet.check_command(SnippetCommand::SnippetState(SnippetState::Delete), &mut doc);
    assert_eq!(snippet.command_buffer.len(), 1);
    snippet.check_command(SnippetCommand::EntityState(EntityState::Param), &mut doc);
    assert_eq!(text(&doc), "fn main() -> ");
    assert_eq!(doc.cursor.pos, before);
    assert_eq!(doc.mode, Mode::Normal);
    assert!(snippet.command_buffer.is_empty());
}

#[test]
fn chord_swap_moves_cursor_to_value_start() {
    let (mut snippet, mut doc) = filled_session();
    snippet.check_command(SnippetCommand::SnippetState(SnippetState::Swap), &mut doc);
    snippet.check_command(SnippetCommand::EntityState(EntityState::Param), &mut doc);
    assert_eq!(text(&doc), "fn main() -> ");
    assert_eq!(doc.cursor.pos, Pos { y: 0, x: 8 });
    assert_eq!(doc.mode, Mode::Insert);
    assert!(snippet.command_buffer.is_empty());
}

#[test]
fn chord_delete_on_required_slot_runs_swap_action() {
    let (mut snippet, mut doc) = filled_session();
    snippet.check_command(SnippetCommand::SnippetState(SnippetState::Delete), &mut doc);
    snippet.check_command(SnippetCommand::EntityState(EntityState::Name), &mut doc);
    assert_eq!(text(&doc), "fn (a) -> ");
    assert_eq!(doc.cursor.pos, Pos { y: 0, x: 3 });
    assert_eq!(doc.mode, Mode::Insert);
}

#[test]
fn unmatched_chord_empties_buffer() {
    let (mut snippet, mut doc) = filled_session();
    snippet.check_command(SnippetCommand::EntityState(EntityState::Name), &mut doc);
    snippet.check_command(SnippetCommand::SnippetState(SnippetState::Delete), &mut doc);
    assert!(snippet.command_buffer.is_empty());
    assert_eq!(text(&doc), "fn main(a) -> ");
    snippet.check_command(SnippetCommand::SnippetState(SnippetState::Create), &mut doc);
    snippet.check_command(SnippetCommand::EntityState(EntityState::Param), &mut doc);
    assert!(snippet.command_buffer.is_empty());
    assert_eq!(text(&doc), "fn main(a) -> ");
}

#[test]
fn keys_map_to_states_and_directions() {
    assert_eq!(SnippetState::from_key('c'), Some(SnippetState::Create));
    assert_eq!(SnippetState::from_key('d'), Some(SnippetState::Delete));
    assert_eq!(SnippetState::from_key('s'), Some(SnippetState::Swap));
    assert_eq!(SnippetState::from_key('r'), None);
    assert_eq!(EntityState::from_key('n'), Some(EntityState::Name));
    assert_eq!(EntityState::from_key('p'), Some(EntityState::Param));
    assert_eq!(EntityState::from_key('r'), Some(EntityState::Result));
    assert_eq!(EntityState::from_key('b'), Some(EntityState::Body));
    assert_eq!(EntityState::from_key('x'), None);
    assert_eq!(CursorDirection::from_key('h'), Some(CursorDirection::Left));
    assert_eq!(CursorDirection::from_key('j'), Some(CursorDirection::Down));
    assert_eq!(CursorDirection::from_key('k'), Some(CursorDirection::Up));
    assert_eq!(CursorDirection::from_key('l'), Some(CursorDirection::Right));
    assert_eq!(CursorDirection::from_key('z'), None);
}

#[test]
fn handle_key_runs_a_session_and_a_chord() {
    let mut doc = Document::new("");
    let mut snippet = Snippet::default();
    assert!(!handle_key(&mut doc, &mut snippet, Key::Char('f')));
    assert_eq!(text(&doc), "fn ");
    for c in "main a ".chars() {
        handle_key(&mut doc, &mut snippet, Key::Char(c));
    }
    assert_eq!(text(&doc), "fn main(a) -> ");
    handle_key(&mut doc, &mut snippet, Key::Esc);
    assert_eq!(doc.mode, Mode::Normal);
    handle_key(&mut doc, &mut snippet, Key::Char('s'));
    handle_key(&mut doc, &mut snippet, Key::Char('p'));
    assert_eq!(text(&doc), "fn main() -> ");
    assert_eq!(doc.cursor.pos, Pos { y: 0, x: 8 });
    assert_eq!(doc.mode, Mode::Insert);
    handle_key(&mut doc, &mut snippet, Key::Esc);
    assert!(handle_key(&mut doc, &mut snippet, Key::Char('q')));
}

#[test]
fn handle_key_enter_and_backspace() {
    let mut doc = Document::new("ab");
    let mut snippet = Snippet::default();
    handle_key(&mut doc, &mut snippet, Key::Char('i'));
    assert_eq!(doc.mode, Mode::Insert);
    doc.cursor.pos.x = 1;
    handle_key(&mut doc, &mut snippet, Key::Enter);
    assert_eq!(text(&doc), "a\nb");
    assert_eq!(doc.cursor.pos, Pos { y: 1, x: 0 });
    // at the start of a line, backspace joins it to the line above
    handle_key(&mut doc, &mut snippet, Key::Backspace);
    assert_eq!(text(&doc), "ab");
    assert_eq!(doc.cursor.pos, Pos { y: 0, x: 1 });
    handle_key(&mut doc, &mut snippet, Key::Backspace);
    assert_eq!(text(&doc), "b");
    assert_eq!(doc.cursor.pos, Pos { y: 0, x: 0 });
    // at the very start nothing happens
    handle_key(&mut doc, &mut snippet, Key::Backspace);
    assert_eq!(text(&doc), "b");
    handle_key(&mut doc, &mut snippet, Key::Other);
    assert_eq!(text(&doc), "b");
}

#[test]
fn handle_key_moves_cursor_in_normal_mode() {
    let mut doc = Document::new("abc\nd");
    let mut snippet = Snippet::default();
    handle_key(&mut doc, &mut snippet, Key::Char('l'));
    handle_key(&mut doc, &mut snippet, Key::Char('l'));
    assert_eq!(doc.cursor.pos, Pos { y: 0, x: 2 });
    handle_key(&mut doc, &mut snippet, Key::Char('j'));
    assert_eq!(doc.cursor.pos, Pos { y: 1, x: 1 });
    handle_key(&mut doc, &mut snippet, Key::Char('h'));
    handle_key(&mut doc, &mut snippet, Key::Char('h'));
    assert_eq!(doc.cursor.pos, Pos { y: 0, x: 4 });
    handle_key(&mut doc, &mut snippet, Key::Char('k'));
    assert_eq!(doc.cursor.pos, Pos { y: 0, x: 4 });
}

use snipkit::function::{CharPair, Pair, StringPair};
use snipkit::grammar::{Surround, Token};

fn token(keyword: &str, syntax: Surround, format: Surround) -> Token {
    Token {
        keyword: keyword.to_string(),
        syntax,
        format,
        skippable: false,
        deletable: false,
        use_lsp: false,
    }
}

fn char_pair(open: char, close: char) -> Surround {
    Surround::Pair(Pair::CharPair(CharPair { open, close }))
}

#[test]
fn name_slot_chunk() {
    let t = token("fn", Surround::Right(" ".to_string()), Surround::Bare);
    let c = t.to_insert_chunk();
    assert_eq!(c.value, "fn ");
    assert_eq!(c.cursor_jump.enter, 3);
    assert_eq!(c.cursor_jump.exit, 0);
}

#[test]
fn param_slot_chunk() {
    let t = token("", char_pair('(', ')'), Surround::Bare);
    let c = t.to_insert_chunk();
    assert_eq!(c.value, "()");
    assert_eq!(c.cursor_jump.enter, 1);
    assert_eq!(c.cursor_jump.exit, 1);
}

#[test]
fn result_slot_chunk() {
    let t = token("->", Surround::Bare, char_pair(' ', ' '));
    let c = t.to_insert_chunk();
    assert_eq!(c.value, " -> ");
    assert_eq!(c.cursor_jump.enter, 5);
    assert_eq!(c.cursor_jump.exit, 0);
}

#[test]
fn body_slot_chunk_accumulates_both_phases() {
    let t = token("", char_pair('{', '}'), Surround::Left(" ".to_string()));
    let c = t.to_insert_chunk();
    assert_eq!(c.value, " {}");
    assert_eq!(c.cursor_jump.enter, 1);
    assert_eq!(c.cursor_jump.exit, 2);
}

#[test]
fn left_syntax_prepends() {
    let t = token("mut", Surround::Left("&".to_string()), Surround::Bare);
    let c = t.to_insert_chunk();
    assert_eq!(c.value, "&mut");
    assert_eq!(c.cursor_jump.enter, 4);
    assert_eq!(c.cursor_jump.exit, 0);
}

#[test]
fn right_format_appends_keyword_again() {
    let t = token("x", Surround::Right(":".to_string()), Surround::Right(";".to_string()));
    let c = t.to_insert_chunk();
    assert_eq!(c.value, "x:x;");
    assert_eq!(c.cursor_jump.enter, 2);
    assert_eq!(c.cursor_jump.exit, 2);
}

#[test]
fn string_pair_syntax_omits_keyword() {
    let pair = StringPair { open: "/*".to_string(), close: "*/".to_string() };
    let t = token("ignored", Surround::Pair(Pair::StringPair(pair)), Surround::Bare);
    let c = t.to_insert_chunk();
    assert_eq!(c.value, "/**/");
    assert_eq!(c.cursor_jump.enter, 2);
    assert_eq!(c.cursor_jump.exit, 2);
}

#[test]
fn char_pair_syntax_with_empty_keyword() {
    let t = token("", char_pair('[', ']'), Surround::Bare);
    assert_eq!(t.to_insert_chunk().value, "[]");
}

#[test]
fn string_pair_format_wraps_keyword() {
    let pair = StringPair { open: "<<".to_string(), close: ">>".to_string() };
    let t = token("T", Surround::Bare, Surround::Pair(Pair::StringPair(pair)));
    let c = t.to_insert_chunk();
    assert_eq!(c.value, "<<T>>");
    assert_eq!(c.cursor_jump.enter, 6);
    assert_eq!(c.cursor_jump.exit, 0);
}

#[test]
fn bare_token_yields_empty_chunk() {
    let t = token("kw", Surround::Bare, Surround::Bare);
    let c = t.to_insert_chunk();
    assert_eq!(c.value, "");
    assert_eq!(c.cursor_jump.enter, 0);
    assert_eq!(c.cursor_jump.exit, 0);
}

#[test]
fn chunk_is_the_same_on_every_call_and_ignores_flags() {
    let a = token("->", Surround::Bare, char_pair(' ', ' '));
    let mut b = token("->", Surround::Bare, char_pair(' ', ' '));
    b.skippable = true;
    b.deletable = true;
    b.use_lsp = true;
    let c1 = a.to_insert_chunk();
    let c2 = a.to_insert_chunk();
    let c3 = b.to_insert_chunk();
    assert_eq!(c1.value, c2.value);
    assert_eq!(c1.value, c3.value);
    assert_eq!(c1.cursor_jump, c2.cursor_jump);
    assert_eq!(c1.cursor_jump, c3.cursor_jump);
}

#[test]
fn lengths_count_characters() {
    let t = token("é", Surround::Right("→".to_string()), Surround::Bare);
    let c = t.to_insert_chunk();
    assert_eq!(c.value, "é→");
    assert_eq!(c.cursor_jump.enter, 2);
}

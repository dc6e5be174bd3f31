//! Slot scaffolding: how a token's keyword is wrapped into the literal that
//! gets inserted, and where the cursor should land around it.

use vstd::prelude::*;

use crate::function::{CharPair, Pair, StringPair};

verus! {

/// A pair of delimiting strings.
pub struct StringRange {
    pub start: String,
    pub end: String,
}

/// How a piece of literal text is wrapped.
pub enum Surround {
    Bare,
    Left(String),
    Right(String),
    Pair(Pair),
}

impl Default for Surround {
    fn default() -> (r: Self)
        ensures
            r is Bare,
    {
        Surround::Bare
    }
}

/// Where the cursor should end up when entering or leaving a chunk.
#[derive(Clone, Copy, Debug, PartialEq, Eq, Structural)]
pub struct CursorJump {
    pub enter: usize,
    pub exit: usize,
}

impl Default for CursorJump {
    fn default() -> (r: Self)
        ensures
            r.enter == 0,
            r.exit == 0,
    {
        CursorJump { enter: 0, exit: 0 }
    }
}

/// The literal to insert for a slot, with its cursor offsets.
pub struct InsertChunk {
    pub value: String,
    pub cursor_jump: CursorJump,
}

/// The static configuration of one slot.
pub struct Token {
    pub keyword: String,
    pub syntax: Surround,
    pub format: Surround,
    pub skippable: bool,
    pub deletable: bool,
    pub use_lsp: bool,
}

impl Default for Token {
    fn default() -> (r: Self)
        ensures
            r.keyword@.len() == 0,
            r.syntax is Bare,
            r.format is Bare,
            !r.skippable,
            !r.deletable,
            !r.use_lsp,
    {
        Token {
            keyword: String::new(),
            syntax: Surround::Bare,
            format: Surround::Bare,
            skippable: false,
            deletable: false,
            use_lsp: false,
        }
    }
}

/// The literal and the two cursor offsets, as mathematical values.
pub struct ChunkModel {
    pub text: Seq<char>,
    pub enter: int,
    pub exit: int,
}

/// The syntax phase: it starts from an empty literal.
pub open spec fn syntax_phase(s: Surround, kw: Seq<char>) -> ChunkModel {
    match s {
        Surround::Bare => ChunkModel { text: Seq::empty(), enter: 0, exit: 0 },
        Surround::Left(p) => ChunkModel { text: p@ + kw, enter: (p@.len() + kw.len()) as int, exit: 0 },
        Surround::Right(x) => ChunkModel { text: kw + x@, enter: (kw.len() + x@.len()) as int, exit: 0 },
        Surround::Pair(Pair::CharPair(cp)) => ChunkModel {
            text: seq![cp.open, cp.close],
            enter: 1,
            exit: 1,
        },
        Surround::Pair(Pair::StringPair(sp)) => ChunkModel {
            text: sp.open@ + sp.close@,
            enter: sp.open@.len() as int,
            exit: sp.close@.len() as int,
        },
    }
}

/// The format phase: it wraps what the syntax phase produced and adds to its offsets.
pub open spec fn format_phase(s: Surround, kw: Seq<char>, acc: ChunkModel) -> ChunkModel {
    match s {
        Surround::Bare => acc,
        Surround::Left(p) => ChunkModel {
            text: p@ + acc.text + kw,
            enter: acc.enter,
            exit: acc.exit + p@.len() + kw.len(),
        },
        Surround::Right(x) => ChunkModel {
            text: acc.text + kw + x@,
            enter: acc.enter,
            exit: acc.exit + x@.len() + kw.len(),
        },
        Surround::Pair(Pair::CharPair(cp)) => {
            let t = acc.text + seq![cp.open] + kw + seq![cp.close];
            ChunkModel { text: t, enter: acc.enter + t.len() + 1, exit: acc.exit }
        },
        Surround::Pair(Pair::StringPair(sp)) => {
            let t = acc.text + sp.open@ + kw + sp.close@;
            ChunkModel { text: t, enter: acc.enter + t.len() + 1, exit: acc.exit }
        },
    }
}

/// The chunk a token produces: the syntax phase, then the format phase.
pub open spec fn chunk_model(t: Token) -> ChunkModel {
    format_phase(t.format, t.keyword@, syntax_phase(t.syntax, t.keyword@))
}

/// Relies on char's `to_string`: a string holding exactly that character.
#[verifier::external_body]
pub(crate) fn char_to_string(c: char) -> (r: String)
    ensures
        r@ == seq![c],
{
    c.to_string()
}

impl Token {
    /// Both cursor offsets of the chunk fit in a `usize`.
    pub open spec fn chunk_fits(&self) -> bool {
        chunk_model(*self).enter <= usize::MAX && chunk_model(*self).exit <= usize::MAX
    }

    /// Builds the literal to insert and where the cursor goes around it.
    pub fn to_insert_chunk(&self) -> (r: InsertChunk)
        requires
            self.chunk_fits(),
        ensures
            r.value@ == chunk_model(*self).text,
            r.cursor_jump.enter == chunk_model(*self).enter,
            r.cursor_jump.exit == chunk_model(*self).exit,
    {
        let target = self.keyword.as_str();
        let kw_len = target.unicode_len();
        let mut res = String::new();
        let mut cursor_jump = CursorJump::default();
        let ghost kw = self.keyword@;

        match &self.syntax {
            Surround::Left(value) => {
                res.append(value.as_str());
                res.append(target);
                cursor_jump.enter = value.as_str().unicode_len() + kw_len;
            },
            Surround::Right(value) => {
                res.append(target);
                res.append(value.as_str());
                cursor_jump.enter = kw_len + value.as_str().unicode_len();
            },
            Surround::Pair(pair) => match pair {
                Pair::CharPair(char_pair) => {
                    res.append(char_to_string(char_pair.open).as_str());
                    res.append(char_to_string(char_pair.close).as_str());
                    assert(res@ =~= seq![char_pair.open, char_pair.close]);
                    cursor_jump.enter = 1;
                    cursor_jump.exit = 1;
                },
                Pair::StringPair(string_pair) => {
                    res.append(string_pair.open.as_str());
                    res.append(string_pair.close.as_str());
                    cursor_jump.enter = string_pair.open.as_str().unicode_len();
                    cursor_jump.exit = string_pair.close.as_str().unicode_len();
                },
            },
            Surround::Bare => {},
        }
        assert(res@ =~= syntax_phase(self.syntax, kw).text);
        let ghost acc = syntax_phase(self.syntax, kw);

        match &self.format {
            Surround::Left(value) => {
                let mut wrapped = value.clone();
                wrapped.append(res.as_str());
                wrapped.append(target);
                res = wrapped;
                cursor_jump.exit = cursor_jump.exit + value.as_str().unicode_len() + kw_len;
            },
            Surround::Right(value) => {
                res.append(target);
                res.append(value.as_str());
                cursor_jump.exit = cursor_jump.exit + value.as_str().unicode_len() + kw_len;
            },
            Surround::Pair(pair) => match pair {
                Pair::CharPair(char_pair) => {
                    res.append(char_to_string(char_pair.open).as_str());
                    res.append(target);
                    res.append(char_to_string(char_pair.close).as_str());
                    assert(res@ =~= acc.text + seq![char_pair.open] + kw + seq![char_pair.close]);
                    cursor_jump.enter = cursor_jump.enter + res.as_str().unicode_len() + 1;
                },
                Pair::StringPair(string_pair) => {
                    res.append(string_pair.open.as_str());
                    res.append(target);
                    res.append(string_pair.close.as_str());
                    assert(res@ =~= acc.text + string_pair.open@ + kw + string_pair.close@);
                    cursor_jump.enter = cursor_jump.enter + res.as_str().unicode_len() + 1;
                },
            },
            Surround::Bare => {},
        }
        assert(res@ =~= chunk_model(*self).text);
        InsertChunk { value: res, cursor_jump }
    }
}

/// The opening half of a pair, as characters.
pub open spec fn pair_open(p: Pair) -> Seq<char> {
    match p {
        Pair::CharPair(cp) => seq![cp.open],
        Pair::StringPair(sp) => sp.open@,
    }
}

/// The closing half of a pair, as characters.
pub open spec fn pair_close(p: Pair) -> Seq<char> {
    match p {
        Pair::CharPair(cp) => seq![cp.close],
        Pair::StringPair(sp) => sp.close@,
    }
}

/// The chunk is a function of the keyword and the two surrounds alone: two
/// tokens that agree on them give the same literal and offsets, whatever
/// their flags, and nothing else (no buffer, no cursor) enters it.
pub proof fn chunk_depends_on_configuration_only(a: Token, b: Token)
    requires
        a.keyword@ == b.keyword@,
        a.syntax == b.syntax,
        a.format == b.format,
    ensures
        chunk_model(a) == chunk_model(b),
{
}

/// A pair syntax never puts the keyword in: with no format the literal is
/// the opening half followed by the closing half.
pub proof fn pair_syntax_omits_keyword(t: Token, p: Pair)
    requires
        t.syntax == Surround::Pair(p),
        t.format is Bare,
    ensures
        chunk_model(t).text == pair_open(p) + pair_close(p),
{
    match p {
        Pair::CharPair(cp) => {
            assert(seq![cp.open, cp.close] =~= seq![cp.open] + seq![cp.close]);
        },
        Pair::StringPair(sp) => {},
    }
}

/// A pair format wraps the keyword: it appends the opening half, the
/// keyword and the closing half to what the syntax produced.
pub proof fn pair_format_wraps_keyword(t: Token, p: Pair)
    requires
        t.format == Surround::Pair(p),
    ensures
        chunk_model(t).text == syntax_phase(t.syntax, t.keyword@).text + pair_open(p)
            + t.keyword@ + pair_close(p),
{
}

} // verus!

//! The entity engine: slots, the slot-advancement state machine, character
//! buffering and the two-key chord dispatcher.

use vstd::prelude::*;

use std::ops::Range;

use crate::editor::{Document, Mode, index_of_pos, pos_in_text, pos_of_index};
use crate::cursor::Pos;
use crate::grammar::{ChunkModel, Surround, Token, char_to_string, chunk_model};
use crate::rope_text::{inserted, removed, rope_insert, rope_len_chars, rope_remove};
use crate::snippet::{SnippetState, is_trigger};

verus! {

/// A pair of single-character delimiters.
#[derive(Clone, Copy, Debug, PartialEq, Eq, Structural)]
pub struct CharPair {
    pub open: char,
    pub close: char,
}

/// A pair of string delimiters.
pub struct StringPair {
    pub open: String,
    pub close: String,
}

/// The opening and closing halves of a `Surround::Pair`.
pub enum Pair {
    CharPair(CharPair),
    StringPair(StringPair),
}

/// The delimiter pairs found on a keyboard.
pub struct KeyboardPairs {
    pub underscore_spaces: CharPair,
    pub spaces: CharPair,
    pub parentheses: CharPair,
    pub curly_braces: CharPair,
    pub square_brackets: CharPair,
    pub angle_brackets: CharPair,
    pub single_quotes: CharPair,
    pub double_quotes: CharPair,
}

impl KeyboardPairs {
    pub fn standard() -> (r: KeyboardPairs)
        ensures
            r.underscore_spaces == (CharPair { open: '_', close: '_' }),
            r.spaces == (CharPair { open: ' ', close: ' ' }),
            r.parentheses == (CharPair { open: '(', close: ')' }),
            r.curly_braces == (CharPair { open: '{', close: '}' }),
            r.square_brackets == (CharPair { open: '[', close: ']' }),
            r.angle_brackets == (CharPair { open: '<', close: '>' }),
            r.single_quotes == (CharPair { open: '\'', close: '\'' }),
            r.double_quotes == (CharPair { open: '"', close: '"' }),
    {
        KeyboardPairs {
            underscore_spaces: CharPair { open: '_', close: '_' },
            spaces: CharPair { open: ' ', close: ' ' },
            parentheses: CharPair { open: '(', close: ')' },
            curly_braces: CharPair { open: '{', close: '}' },
            square_brackets: CharPair { open: '[', close: ']' },
            angle_brackets: CharPair { open: '<', close: '>' },
            single_quotes: CharPair { open: '\'', close: '\'' },
            double_quotes: CharPair { open: '"', close: '"' },
        }
    }
}

/// The slot being filled; `Idle` when no session runs.
#[derive(Clone, Copy, Debug, PartialEq, Eq, Structural)]
pub enum EntityState {
    Idle,
    Name,
    Param,
    Result,
    Body,
}

impl Default for EntityState {
    fn default() -> (r: Self)
        ensures
            r == EntityState::Idle,
    {
        EntityState::Idle
    }
}

/// The slot a slot key addresses (`n`, `p`, `r`, `b`).
pub open spec fn entity_state_of_key(c: char) -> Option<EntityState> {
    if c == 'n' {
        Some(EntityState::Name)
    } else if c == 'p' {
        Some(EntityState::Param)
    } else if c == 'r' {
        Some(EntityState::Result)
    } else if c == 'b' {
        Some(EntityState::Body)
    } else {
        None
    }
}

/// The position of a state in the traversal order.
pub open spec fn ordinal(s: EntityState) -> nat {
    match s {
        EntityState::Idle => 0,
        EntityState::Name => 1,
        EntityState::Param => 2,
        EntityState::Result => 3,
        EntityState::Body => 4,
    }
}

/// The fixed traversal order; the doc slot is not in it.
pub open spec fn traversal_order() -> Seq<EntityState> {
    seq![
        EntityState::Idle,
        EntityState::Name,
        EntityState::Param,
        EntityState::Result,
        EntityState::Body,
    ]
}

/// The state after `s`: the next one in the order, `Idle` after the last.
pub open spec fn next_state(s: EntityState) -> EntityState {
    if ordinal(s) + 1 < traversal_order().len() {
        traversal_order()[ordinal(s) + 1int]
    } else {
        EntityState::Idle
    }
}

impl EntityState {
    pub fn from_key(c: char) -> (r: Option<EntityState>)
        ensures
            r == entity_state_of_key(c),
    {
        match c {
            'n' => Some(EntityState::Name),
            'p' => Some(EntityState::Param),
            'r' => Some(EntityState::Result),
            'b' => Some(EntityState::Body),
            _ => None,
        }
    }

    fn index(&self) -> (r: usize)
        ensures
            r == ordinal(*self),
    {
        match self {
            EntityState::Idle => 0,
            EntityState::Name => 1,
            EntityState::Param => 2,
            EntityState::Result => 3,
            EntityState::Body => 4,
        }
    }
}

/// Which half of a chunk's cursor jump the next scaffold insertion applies.
#[derive(Clone, Copy, Debug, PartialEq, Eq, Structural)]
pub enum InsertState {
    Idle,
    Enter,
    Exit,
}

impl Default for InsertState {
    fn default() -> (r: Self)
        ensures
            r == InsertState::Idle,
    {
        InsertState::Idle
    }
}

/// The toggle after one scaffold insertion.
pub open spec fn toggled(i: InsertState) -> InsertState {
    match i {
        InsertState::Enter => InsertState::Exit,
        InsertState::Exit => InsertState::Enter,
        InsertState::Idle => InsertState::Idle,
    }
}

/// The cursor column after applying the half of the jump the toggle selects;
/// it stops at `usize::MAX`.
pub open spec fn jumped_col(x: usize, i: InsertState, c: ChunkModel) -> usize {
    let j = match i {
        InsertState::Enter => c.enter,
        InsertState::Exit => c.exit,
        InsertState::Idle => 0,
    };
    if x + j > usize::MAX { usize::MAX } else { (x + j) as usize }
}

/// The runtime record of one slot.
pub struct TokenTable {
    pub token: Token,
    /// Where the slot's scaffolding was inserted.
    pub token_range: Range<usize>,
    /// What the user typed for the slot.
    pub value: String,
    /// Where that value stands.
    pub value_range: Range<usize>,
    /// Reserved for slots that take several values.
    pub string_buff: Option<Vec<String>>,
}

/// The slots of one function skeleton.
pub struct Entity {
    pub name: TokenTable,
    pub param: TokenTable,
    pub result: TokenTable,
    pub body: TokenTable,
    pub doc: TokenTable,
}

/// A range that lies within a text of length `len`.
pub open spec fn range_in(r: Range<usize>, len: nat) -> bool {
    r.start <= r.end && r.end <= len
}

impl Entity {
    /// The slot a state addresses. No slot belongs to `Idle`; the reachable
    /// code never asks for it.
    pub open spec fn slot(&self, s: EntityState) -> TokenTable {
        match s {
            EntityState::Name => self.name,
            EntityState::Param => self.param,
            EntityState::Result => self.result,
            EntityState::Body => self.body,
            EntityState::Idle => self.doc,
        }
    }

    /// The entity with the slot of `s` replaced.
    pub open spec fn with_slot(self, s: EntityState, t: TokenTable) -> Entity {
        match s {
            EntityState::Name => Entity { name: t, ..self },
            EntityState::Param => Entity { param: t, ..self },
            EntityState::Result => Entity { result: t, ..self },
            EntityState::Body => Entity { body: t, ..self },
            EntityState::Idle => self,
        }
    }

    /// Every reachable slot produces a chunk whose offsets fit in a `usize`.
    pub open spec fn chunks_fit(&self) -> bool {
        &&& self.name.token.chunk_fits()
        &&& self.param.token.chunk_fits()
        &&& self.result.token.chunk_fits()
        &&& self.body.token.chunk_fits()
    }

    fn get_mut_table(&mut self, entity_state: &EntityState) -> (t: &mut TokenTable)
        requires
            *entity_state != EntityState::Idle,
        ensures
            *t == old(self).slot(*entity_state),
            *final(self) == old(self).with_slot(*entity_state, *final(t)),
    {
        match entity_state {
            EntityState::Name => &mut self.name,
            EntityState::Param => &mut self.param,
            EntityState::Result => &mut self.result,
            EntityState::Body => &mut self.body,
            EntityState::Idle => &mut self.doc,
        }
    }

    fn get_ref_table(&self, entity_state: &EntityState) -> (t: &TokenTable)
        requires
            *entity_state != EntityState::Idle,
        ensures
            *t == self.slot(*entity_state),
    {
        match entity_state {
            EntityState::Name => &self.name,
            EntityState::Param => &self.param,
            EntityState::Result => &self.result,
            EntityState::Body => &self.body,
            EntityState::Idle => &self.doc,
        }
    }
}


fn blank_table(token: Token, string_buff: Option<Vec<String>>) -> (t: TokenTable)
    ensures
        t.token == token,
        t.token_range == (Range { start: 0usize, end: 0usize }),
        t.value@.len() == 0,
        t.value_range == (Range { start: 0usize, end: 0usize }),
        t.string_buff == string_buff,
{
    TokenTable {
        token,
        token_range: Range { start: 0, end: 0 },
        value: String::new(),
        value_range: Range { start: 0, end: 0 },
        string_buff,
    }
}

/// The fixed function template: `fn ` for the name, `()` for the
/// parameters, ` -> ` for the result, ` {}` for the body; the doc slot is
/// configured but never visited.
pub open spec fn is_function_template(e: Entity) -> bool {
    &&& e.name.token.keyword@ == seq!['f', 'n']
    &&& e.name.token.syntax matches Surround::Right(s) && s@ == seq![' ']
    &&& e.name.token.format is Bare
    &&& !e.name.token.skippable && !e.name.token.deletable
    &&& e.param.token.keyword@.len() == 0
    &&& e.param.token.syntax == Surround::Pair(Pair::CharPair(CharPair { open: '(', close: ')' }))
    &&& e.param.token.format is Bare
    &&& e.param.token.skippable && !e.param.token.deletable
    &&& e.result.token.keyword@ == seq!['-', '>']
    &&& e.result.token.syntax is Bare
    &&& e.result.token.format == Surround::Pair(Pair::CharPair(CharPair { open: ' ', close: ' ' }))
    &&& e.result.token.skippable && e.result.token.deletable
    &&& e.body.token.keyword@.len() == 0
    &&& e.body.token.syntax == Surround::Pair(Pair::CharPair(CharPair { open: '{', close: '}' }))
    &&& e.body.token.format matches Surround::Left(s) && s@ == seq![' ']
    &&& e.body.token.skippable && !e.body.token.deletable
    &&& e.doc.token.keyword@ == seq![' ']
    &&& e.doc.token.syntax matches Surround::Right(s) && s@ == seq![' ']
    &&& e.doc.token.format is Bare
    &&& !e.doc.token.skippable && !e.doc.token.deletable
}

/// Every slot is empty: no value typed, no range recorded.
pub open spec fn slots_blank(e: Entity) -> bool {
    forall|s: EntityState|
        #![trigger e.slot(s)]
        {
            &&& e.slot(s).value@.len() == 0
            &&& e.slot(s).token_range == (Range { start: 0usize, end: 0usize })
            &&& e.slot(s).value_range == (Range { start: 0usize, end: 0usize })
        }
}

impl Default for Entity {
    fn default() -> (e: Self)
        ensures
            is_function_template(e),
            slots_blank(e),
            e.chunks_fit(),
    {
        let pairs = KeyboardPairs::standard();
        let name = blank_table(
            Token {
                keyword: String::from_str("fn"),
                syntax: Surround::Right(String::from_str(" ")),
                format: Surround::Bare,
                deletable: false,
                skippable: false,
                use_lsp: false,
            },
            None,
        );
        let param = blank_table(
            Token {
                keyword: String::new(),
                syntax: Surround::Pair(Pair::CharPair(pairs.parentheses)),
                format: Surround::Bare,
                deletable: false,
                skippable: true,
                use_lsp: true,
            },
            Some(Vec::new()),
        );
        let result = blank_table(
            Token {
                keyword: String::from_str("->"),
                syntax: Surround::Bare,
                format: Surround::Pair(Pair::CharPair(pairs.spaces)),
                deletable: true,
                skippable: true,
                use_lsp: true,
            },
            None,
        );
        let body = blank_table(
            Token {
                keyword: String::new(),
                syntax: Surround::Pair(Pair::CharPair(pairs.curly_braces)),
                format: Surround::Left(String::from_str(" ")),
                deletable: false,
                skippable: true,
                use_lsp: true,
            },
            Some(Vec::new()),
        );
        let doc = blank_table(
            Token {
                keyword: String::from_str(" "),
                syntax: Surround::Right(String::from_str(" ")),
                format: Surround::Bare,
                deletable: false,
                skippable: false,
                use_lsp: true,
            },
            None,
        );
        proof {
            reveal_strlit("fn");
            reveal_strlit(" ");
            reveal_strlit("->");
        }
        let e = Entity { name, param, result, body, doc };
        assert(e.name.token.keyword@ =~= seq!['f', 'n']);
        assert(e.result.token.keyword@ =~= seq!['-', '>']);
        assert(e.doc.token.keyword@ =~= seq![' ']);
        e
    }
}

/// Owns the entity being filled, the current slot, and the keystrokes
/// typed for it so far.
pub struct EntityManager {
    pub entity: Entity,
    pub state: EntityState,
    /// The order in which slots are visited.
    pub order: [EntityState; 5],
    pub insert_state: InsertState,
    pub char_buffer: Vec<char>,
}

impl EntityManager {
    /// The order is the fixed traversal and every slot's chunk fits.
    pub open spec fn wf(&self) -> bool {
        &&& self.order@ == traversal_order()
        &&& self.entity.chunks_fit()
    }
}

/// One scaffold step: advance to the next slot; at the end, close the
/// session; otherwise move the cursor by the half of the jump the toggle
/// selects, insert the slot's literal where the cursor now points (or at the
/// end of the text when it points past it) and record where it went. When the
/// moved cursor no longer names a row of the text, or its index overflows,
/// nothing is inserted.
pub open spec fn scaffold_step(
    m0: EntityManager,
    d0: Document,
    s0: SnippetState,
    m1: EntityManager,
    d1: Document,
    s1: SnippetState,
) -> bool {
    let next = next_state(m0.state);
    &&& m1.state == next
    &&& m1.order == m0.order
    &&& m1.char_buffer@ == m0.char_buffer@
    &&& d1.mode == Mode::Insert
    &&& d1.cursor.offset_y == d0.cursor.offset_y
    &&& if next == EntityState::Idle {
        &&& s1 == SnippetState::Idle
        &&& m1.insert_state == InsertState::Idle
        &&& m1.entity == m0.entity
        &&& d1.chars() == d0.chars()
        &&& d1.cursor.pos == d0.cursor.pos
    } else {
        let c = chunk_model(m0.entity.slot(next).token);
        let p = Pos { y: d0.cursor.pos.y, x: jumped_col(d0.cursor.pos.x, m0.insert_state, c) };
        &&& s1 == s0
        &&& m1.insert_state == toggled(m0.insert_state)
        &&& d1.cursor.pos == p
        &&& if pos_in_text(d0.chars(), p) {
            let i = index_of_pos(d0.chars(), p);
            let at = if i > d0.chars().len() { d0.chars().len() as int } else { i };
            &&& d1.chars() == inserted(d0.chars(), at, c.text)
            &&& m1.entity == m0.entity.with_slot(
                next,
                TokenTable {
                    token_range: Range { start: at as usize, end: (at + c.text.len()) as usize },
                    ..m0.entity.slot(next)
                },
            )
        } else {
            &&& d1.chars() == d0.chars()
            &&& m1.entity == m0.entity
        }
    }
}

impl EntityManager {
    fn reset_state(&mut self, doc: &mut Document, snippet_state: &mut SnippetState)
        ensures
            *final(snippet_state) == SnippetState::Idle,
            final(doc).mode == Mode::Insert,
            final(doc).cursor == old(doc).cursor,
            final(doc).chars() == old(doc).chars(),
            *final(self) == (EntityManager { insert_state: InsertState::Idle, ..*old(self) }),
    {
        *snippet_state = SnippetState::Idle;
        doc.mode = Mode::Insert;
        self.insert_state = InsertState::Idle;
    }

    /// Advances to the next slot of the order; after the last slot the state
    /// is `Idle` again.
    fn get_next_state(&mut self) -> (s: EntityState)
        requires
            old(self).wf(),
        ensures
            s == next_state(old(self).state),
            *final(self) == (EntityManager { state: s, ..*old(self) }),
    {
        let next_state_idx: usize = self.state.index() + 1;
        let next_state = if next_state_idx < 5 {
            self.order[next_state_idx]
        } else {
            EntityState::Idle
        };
        self.state = next_state;
        next_state
    }

    /// Starts the next slot: see `scaffold_step`.
    pub fn insert_chunk(&mut self, doc: &mut Document, snippet_state: &mut SnippetState)
        requires
            old(self).wf(),
        ensures
            final(self).wf(),
            scaffold_step(*old(self), *old(doc), *old(snippet_state), *final(self), *final(doc), *final(snippet_state)),
    {
        let next_state = self.get_next_state();
        if next_state == EntityState::Idle {
            self.reset_state(doc, snippet_state);
            return;
        }
        let chunk = self.entity.get_ref_table(&next_state).token.to_insert_chunk();
        match self.insert_state {
            InsertState::Enter => {
                doc.cursor.pos.x = doc.cursor.pos.x.saturating_add(chunk.cursor_jump.enter);
                self.insert_state = InsertState::Exit;
            },
            InsertState::Exit => {
                doc.cursor.pos.x = doc.cursor.pos.x.saturating_add(chunk.cursor_jump.exit);
                self.insert_state = InsertState::Enter;
            },
            InsertState::Idle => {},
        }
        if doc.is_cursor_in_text() {
            let mut idx = doc.cursor_get_idx();
            let len = rope_len_chars(&doc.editor.text);
            if idx > len {
                idx = len;
            }
            rope_insert(&mut doc.editor.text, idx, chunk.value.as_str());
            let n = chunk.value.as_str().unicode_len();
            let new_len = rope_len_chars(&doc.editor.text);
            assert(new_len == len + n);
            let table = self.entity.get_mut_table(&next_state);
            table.token_range = Range { start: idx, end: idx + n };
        }
        doc.mode = Mode::Insert;
    }
}

impl Default for EntityManager {
    fn default() -> (m: Self)
        ensures
            m.wf(),
            m.state == EntityState::Idle,
            m.insert_state == InsertState::Idle,
            m.char_buffer@.len() == 0,
            is_function_template(m.entity),
            slots_blank(m.entity),
    {
        EntityManager {
            entity: Entity::default(),
            state: EntityState::Idle,
            order: [
                EntityState::Idle,
                EntityState::Name,
                EntityState::Param,
                EntityState::Result,
                EntityState::Body,
            ],
            insert_state: InsertState::Idle,
            char_buffer: Vec::new(),
        }
    }
}

/// The notification shown when a required slot is closed empty.
pub open spec fn value_required_text() -> Seq<char> {
    "Value is Required in order to progress"@
}

/// `a - b`, stopping at zero.
pub open spec fn sat_sub(a: int, b: int) -> int {
    if a >= b { a - b } else { 0 }
}

/// The text after closing the active slot with an empty buffer: a slot that
/// is both deletable and skippable has its scaffolding removed, when its
/// recorded range still lies in the text.
pub open spec fn text_after_close(m0: EntityManager, text: Seq<char>) -> Seq<char> {
    let t = m0.entity.slot(m0.state);
    if m0.char_buffer@.len() == 0 && t.token.deletable && t.token.skippable && range_in(
        t.token_range,
        text.len(),
    ) {
        removed(text, t.token_range.start as int, t.token_range.end as int)
    } else {
        text
    }
}

/// The commit of the active slot: its value becomes the buffered characters,
/// its value range the buffer's length ending at the cursor index `idx`, and
/// the buffer is emptied.
pub open spec fn committed(m0: EntityManager, idx: int, mm: EntityManager) -> bool {
    let t = m0.entity.slot(m0.state);
    let v = mm.entity.slot(m0.state).value;
    &&& v@ == m0.char_buffer@
    &&& mm.entity == m0.entity.with_slot(
        m0.state,
        TokenTable {
            value: v,
            value_range: Range {
                start: sat_sub(idx, m0.char_buffer@.len() as int) as usize,
                end: idx as usize,
            },
            ..t
        },
    )
    &&& mm.char_buffer@.len() == 0
    &&& mm.state == m0.state
    &&& mm.order == m0.order
    &&& mm.insert_state == m0.insert_state
}

/// What a typed character does to the session.
///
/// Outside Create and Delete it is not handled. An ordinary character is
/// appended to the buffer and not handled (the caller types it). The
/// delimiter (a space) closes the active slot: a required slot left empty
/// stays open with a notification; otherwise the notification is cleared,
/// the slot is committed and the next slot is started (`scaffold_step`).
/// When the cursor no longer names a row of the text after the scaffolding
/// was removed, the commit is abandoned.
pub open spec fn collect_step(
    m0: EntityManager,
    d0: Document,
    s0: SnippetState,
    n0: Option<String>,
    c: char,
    m1: EntityManager,
    d1: Document,
    s1: SnippetState,
    n1: Option<String>,
    r: Result<(), ()>,
) -> bool {
    if !is_trigger(s0) {
        &&& r is Err
        &&& m1 == m0
        &&& d1.chars() == d0.chars() && d1.cursor == d0.cursor && d1.mode == d0.mode
        &&& s1 == s0 && n1 == n0
    } else if c != ' ' {
        &&& r is Err
        &&& m1 == (EntityManager { char_buffer: m1.char_buffer, ..m0 })
        &&& m1.char_buffer@ == m0.char_buffer@.push(c)
        &&& d1.chars() == d0.chars() && d1.cursor == d0.cursor && d1.mode == d0.mode
        &&& s1 == s0 && n1 == n0
    } else {
        let t = m0.entity.slot(m0.state);
        &&& r is Ok
        &&& if m0.char_buffer@.len() == 0 && !t.token.deletable && !t.token.skippable {
            &&& m1 == m0
            &&& d1.chars() == d0.chars() && d1.cursor == d0.cursor && d1.mode == d0.mode
            &&& s1 == s0
            &&& n1 matches Some(msg) && msg@ == value_required_text()
        } else {
            let text = text_after_close(m0, d0.chars());
            if !pos_in_text(text, d0.cursor.pos) {
                &&& m1 == m0
                &&& d1.chars() == text && d1.cursor == d0.cursor && d1.mode == d0.mode
                &&& s1 == s0 && n1 == n0
            } else {
                &&& n1 is None
                &&& exists|mm: EntityManager, dm: Document|
                    {
                        &&& committed(m0, index_of_pos(text, d0.cursor.pos), mm)
                        &&& dm.chars() == text && dm.cursor == d0.cursor && dm.mode == d0.mode
                        &&& scaffold_step(mm, dm, s0, m1, d1, s1)
                    }
            }
        }
    }
}

impl EntityManager {
    /// Takes the buffered characters out as a string and records their range
    /// as ending at the cursor index.
    fn get_buffer(cursor_idx: usize, char_buffer: &mut Vec<char>, table: &mut TokenTable) -> (res:
        String)
        ensures
            res@ == old(char_buffer)@,
            final(char_buffer)@.len() == 0,
            *final(table) == (TokenTable {
                value_range: Range {
                    start: sat_sub(cursor_idx as int, old(char_buffer)@.len() as int) as usize,
                    end: cursor_idx,
                },
                ..*old(table)
            }),
    {
        let mut res = String::new();
        let mut i: usize = 0;
        while i < char_buffer.len()
            invariant
                i <= char_buffer@.len(),
                res@ == char_buffer@.take(i as int),
            decreases char_buffer@.len() - i,
        {
            res.append(char_to_string(char_buffer[i]).as_str());
            i = i + 1;
            assert(res@ =~= char_buffer@.take(i as int));
        }
        assert(char_buffer@.take(char_buffer@.len() as int) =~= char_buffer@);
        let n = char_buffer.len();
        table.value_range = Range { start: cursor_idx.saturating_sub(n), end: cursor_idx };
        char_buffer.clear();
        res
    }

    /// `Ok` exactly when the armed operation starts insertion sessions.
    pub fn check_snippet_state(snippet_state: &mut SnippetState) -> (r: Result<(), ()>)
        ensures
            r is Ok <==> is_trigger(*old(snippet_state)),
            *final(snippet_state) == *old(snippet_state),
    {
        match snippet_state {
            SnippetState::Create | SnippetState::Delete => Ok(()),
            _ => Err(()),
        }
    }

    /// Handles one typed character; `Ok` when it was consumed, `Err` when the
    /// caller must type it into the text. See `collect_step`.
    pub fn collect_chunk_buffer(
        &mut self,
        character: char,
        doc: &mut Document,
        snippet_state: &mut SnippetState,
        system_msg: &mut Option<String>,
    ) -> (r: Result<(), ()>)
        requires
            old(self).wf(),
            old(doc).cursor_in_text(),
            is_trigger(*old(snippet_state)) ==> old(self).state != EntityState::Idle,
        ensures
            final(self).wf(),
            collect_step(
                *old(self),
                *old(doc),
                *old(snippet_state),
                *old(system_msg),
                character,
                *final(self),
                *final(doc),
                *final(snippet_state),
                *final(system_msg),
                r,
            ),
    {
        Self::check_snippet_state(snippet_state)?;
        if character == ' ' {
            let ghost m0 = *self;
            let state = self.state;
            let empty = self.char_buffer.len() == 0;
            let deletable = self.entity.get_ref_table(&state).token.deletable;
            let skippable = self.entity.get_ref_table(&state).token.skippable;
            if empty {
                if !deletable && !skippable {
                    *system_msg = Some(String::from_str("Value is Required in order to progress"));
                    return Ok(());
                }
                if deletable && skippable {
                    let start = self.entity.get_ref_table(&state).token_range.start;
                    let end = self.entity.get_ref_table(&state).token_range.end;
                    let len = rope_len_chars(&doc.editor.text);
                    if start <= end && end <= len {
                        rope_remove(&mut doc.editor.text, start, end);
                    }
                }
            }
            assert(doc.chars() == text_after_close(m0, old(doc).chars()));
            if !doc.is_cursor_in_text() {
                return Ok(());
            }
            *system_msg = None;
            let cursor_idx = doc.cursor_get_idx();
            let table = self.entity.get_mut_table(&state);
            let data = Self::get_buffer(cursor_idx, &mut self.char_buffer, table);
            table.value = data;
            let ghost mm = *self;
            let ghost dm = *doc;
            assert(committed(m0, cursor_idx as int, mm));
            self.insert_chunk(doc, snippet_state);
            assert(scaffold_step(mm, dm, *old(snippet_state), *self, *doc, *snippet_state));
            Ok(())
        } else {
            self.char_buffer.push(character);
            Err(())
        }
    }
}

/// One key of a two-key chord: an operation or a slot.
#[derive(Clone, Copy, Debug, PartialEq, Eq, Structural)]
pub enum SnippetCommand {
    SnippetState(SnippetState),
    EntityState(EntityState),
    Empty,
}

impl Default for SnippetCommand {
    fn default() -> (r: Self)
        ensures
            r == SnippetCommand::Empty,
    {
        SnippetCommand::Empty
    }
}

/// A snippet session: the armed operation, the entity being filled, the
/// pending chord keys, and a notification for the user.
pub struct Snippet {
    pub snippet_state: SnippetState,
    pub entity_manager: EntityManager,
    pub command_buffer: Vec<SnippetCommand>,
    pub notifications: Option<String>,
}

impl Default for Snippet {
    fn default() -> (s: Self)
        ensures
            s.wf(),
            s.snippet_state == SnippetState::Idle,
            s.entity_manager.state == EntityState::Idle,
            s.entity_manager.insert_state == InsertState::Idle,
            s.entity_manager.char_buffer@.len() == 0,
            is_function_template(s.entity_manager.entity),
            slots_blank(s.entity_manager.entity),
            s.command_buffer@.len() == 0,
            s.notifications is None,
    {
        Snippet {
            snippet_state: SnippetState::Idle,
            entity_manager: EntityManager::default(),
            command_buffer: Vec::new(),
            notifications: None,
        }
    }
}

/// The document is unchanged in text, cursor and mode.
pub open spec fn doc_unchanged(d0: Document, d1: Document) -> bool {
    d1.chars() == d0.chars() && d1.cursor == d0.cursor && d1.mode == d0.mode
}

/// The text without `r` when `r` lies in it; a stale range removes nothing.
pub open spec fn text_without(text: Seq<char>, r: Range<usize>) -> Seq<char> {
    if range_in(r, text.len()) {
        removed(text, r.start as int, r.end as int)
    } else {
        text
    }
}

/// The swap action on a value range: the cursor moves to its start, the
/// range is removed, and the mode becomes Insert.
pub open spec fn swapped(d0: Document, d1: Document, r: Range<usize>) -> bool {
    &&& d1.cursor.pos == pos_of_index(d0.chars(), r.start as int)
    &&& d1.cursor.offset_y == d0.cursor.offset_y
    &&& d1.chars() == text_without(d0.chars(), r)
    &&& d1.mode == Mode::Insert
}

/// What a complete chord does to the document: an operation key then a slot
/// key. Delete on a required slot and Swap on any slot run the swap action;
/// Delete on a skippable slot removes the value range alone. Anything else
/// leaves the document as it was.
pub open spec fn chord_effect(
    first: SnippetCommand,
    second: SnippetCommand,
    e: Entity,
    d0: Document,
    d1: Document,
) -> bool {
    match (first, second) {
        (SnippetCommand::SnippetState(op), SnippetCommand::EntityState(es)) => if es
            == EntityState::Idle {
            doc_unchanged(d0, d1)
        } else {
            let t = e.slot(es);
            match op {
                SnippetState::Delete => if !t.token.skippable {
                    swapped(d0, d1, t.value_range)
                } else {
                    d1.chars() == text_without(d0.chars(), t.value_range) && d1.cursor == d0.cursor
                        && d1.mode == d0.mode
                },
                SnippetState::Swap => swapped(d0, d1, t.value_range),
                _ => doc_unchanged(d0, d1),
            }
        },
        _ => doc_unchanged(d0, d1),
    }
}

/// One chord key: it is buffered; once two are buffered the chord takes
/// effect and the buffer is emptied, whether or not the chord meant anything.
pub open spec fn command_step(
    s0: Snippet,
    d0: Document,
    cmd: SnippetCommand,
    s1: Snippet,
    d1: Document,
) -> bool {
    let buf = s0.command_buffer@.push(cmd);
    &&& s1 == (Snippet { command_buffer: s1.command_buffer, ..s0 })
    &&& if buf.len() == 2 {
        &&& s1.command_buffer@.len() == 0
        &&& chord_effect(buf[0], buf[1], s0.entity_manager.entity, d0, d1)
    } else {
        &&& s1.command_buffer@ == buf
        &&& doc_unchanged(d0, d1)
    }
}

/// Arming an operation. Create and Delete also run one scaffold step at
/// once, with the toggle set to apply the enter half of the jump.
pub open spec fn start_step(
    s0: Snippet,
    d0: Document,
    op: SnippetState,
    s1: Snippet,
    d1: Document,
) -> bool {
    &&& s1.command_buffer == s0.command_buffer
    &&& s1.notifications == s0.notifications
    &&& if !is_trigger(op) {
        &&& s1 == (Snippet { snippet_state: op, ..s0 })
        &&& doc_unchanged(d0, d1)
    } else {
        scaffold_step(
            EntityManager { insert_state: InsertState::Enter, ..s0.entity_manager },
            d0,
            op,
            s1.entity_manager,
            d1,
            s1.snippet_state,
        )
    }
}

impl Snippet {
    /// The manager is well formed, at most one chord key is pending, and an
    /// armed session always has a slot to fill.
    pub open spec fn wf(&self) -> bool {
        &&& self.entity_manager.wf()
        &&& self.command_buffer@.len() < 2
        &&& is_trigger(self.snippet_state) ==> self.entity_manager.state != EntityState::Idle
    }

    /// Arms an operation. Create and Delete also start the scaffold sequence
    /// at once, applying the enter half of the next slot's jump.
    pub fn start(&mut self, snippet_state: SnippetState, doc: &mut Document)
        requires
            old(self).wf(),
        ensures
            final(self).wf(),
            start_step(*old(self), *old(doc), snippet_state, *final(self), *final(doc)),
    {
        self.snippet_state = snippet_state;
        if !self.is_trigger_state() {
            return;
        }
        self.entity_manager.insert_state = InsertState::Enter;
        self.entity_manager.insert_chunk(doc, &mut self.snippet_state);
    }

    pub fn is_trigger_state(&self) -> (r: bool)
        ensures
            r == is_trigger(self.snippet_state),
    {
        match self.snippet_state {
            SnippetState::Create | SnippetState::Delete => true,
            _ => false,
        }
    }

    /// The swap action: see `swapped`.
    fn swap_action(doc: &mut Document, range: &Range<usize>)
        ensures
            swapped(*old(doc), *final(doc), *range),
    {
        let jump_index: usize = range.start;
        let loc = doc.cursor_get_loc(jump_index);
        doc.cursor_set_pos(loc);
        Self::remove_range(doc, range);
        doc.mode = Mode::Insert;
    }

    /// Removes a range from the text when it lies in it.
    fn remove_range(doc: &mut Document, range: &Range<usize>)
        ensures
            final(doc).chars() == text_without(old(doc).chars(), *range),
            final(doc).cursor == old(doc).cursor,
            final(doc).mode == old(doc).mode,
    {
        let len = rope_len_chars(&doc.editor.text);
        if range.start <= range.end && range.end <= len {
            rope_remove(&mut doc.editor.text, range.start, range.end);
        }
    }

    /// Takes one chord key; see `command_step`.
    pub fn check_command(&mut self, snippet_command: SnippetCommand, doc: &mut Document)
        requires
            old(self).wf(),
        ensures
            final(self).wf(),
            command_step(*old(self), *old(doc), snippet_command, *final(self), *final(doc)),
    {
        self.command_buffer.push(snippet_command);
        if self.command_buffer.len() == 2 {
            let first = self.command_buffer[0];
            let second = self.command_buffer[1];
            match (first, second) {
                (SnippetCommand::SnippetState(op), SnippetCommand::EntityState(es)) => {
                    if es != EntityState::Idle {
                        let table = self.entity_manager.entity.get_ref_table(&es);
                        match op {
                            SnippetState::Delete => {
                                if !table.token.skippable {
                                    Self::swap_action(doc, &table.value_range);
                                } else {
                                    Self::remove_range(doc, &table.value_range);
                                }
                            },
                            SnippetState::Swap => {
                                Self::swap_action(doc, &table.value_range);
                            },
                            _ => {},
                        }
                    }
                },
                _ => {},
            }
            self.command_buffer.clear();
        }
    }
}

/// A key typed in insert mode. A delimiter that closes a slot is consumed
/// by the session; any other character is buffered when a session is armed,
/// and in every case typed into the text at the cursor (or at the end when
/// the cursor is past it), the cursor moving one column right.
pub open spec fn typed_step(
    s0: Snippet,
    d0: Document,
    character: char,
    s1: Snippet,
    d1: Document,
) -> bool {
    &&& s1.command_buffer == s0.command_buffer
    &&& if is_trigger(s0.snippet_state) && character == ' ' {
        collect_step(
            s0.entity_manager,
            d0,
            s0.snippet_state,
            s0.notifications,
            character,
            s1.entity_manager,
            d1,
            s1.snippet_state,
            s1.notifications,
            Ok(()),
        )
    } else {
        &&& d1.chars() == inserted(d0.chars(), d0.insert_index(), seq![character])
        &&& d1.cursor.pos == (Pos { y: d0.cursor.pos.y, x: (d0.cursor.pos.x + 1) as usize })
        &&& d1.cursor.offset_y == d0.cursor.offset_y
        &&& d1.mode == d0.mode
        &&& s1.snippet_state == s0.snippet_state
        &&& s1.notifications == s0.notifications
        &&& s1.entity_manager == (EntityManager {
            char_buffer: s1.entity_manager.char_buffer,
            ..s0.entity_manager
        })
        &&& s1.entity_manager.char_buffer@ == if is_trigger(s0.snippet_state) {
            s0.entity_manager.char_buffer@.push(character)
        } else {
            s0.entity_manager.char_buffer@
        }
    }
}

impl Snippet {
    /// A key typed in insert mode; see `typed_step`.
    pub fn type_char(&mut self, character: char, doc: &mut Document)
        requires
            old(self).wf(),
            old(doc).cursor_in_text(),
            old(doc).cursor_index() < usize::MAX,
        ensures
            final(self).wf(),
            typed_step(*old(self), *old(doc), character, *final(self), *final(doc)),
    {
        let collected = self.entity_manager.collect_chunk_buffer(
            character,
            doc,
            &mut self.snippet_state,
            &mut self.notifications,
        );
        if collected.is_err() {
            doc.cursor_pos_insert(char_to_string(character).as_str());
            doc.cursor.pos.x = doc.cursor.pos.x + 1;
        }
    }
}

/// A run of typed characters: each state follows from the one before it by
/// typing the next character.
pub open spec fn typed_run(ss: Seq<Snippet>, ds: Seq<Document>, cs: Seq<char>) -> bool {
    &&& ss.len() == cs.len() + 1
    &&& ds.len() == cs.len() + 1
    &&& forall|i: int|
        0 <= i < cs.len() ==> #[trigger] typed_step(ss[i], ds[i], cs[i], ss[i + 1], ds[i + 1])
}

/// Typing characters none of which is the delimiter while a session is
/// armed: each one is inserted into the text at the insert index of its
/// moment, the buffer gains exactly those characters in typed order, and the
/// cursor moves one column right per character.
pub proof fn typing_buffers_and_inserts(ss: Seq<Snippet>, ds: Seq<Document>, cs: Seq<char>)
    requires
        typed_run(ss, ds, cs),
        is_trigger(ss[0].snippet_state),
        forall|i: int| 0 <= i < cs.len() ==> cs[i] != ' ',
        ds[0].cursor.pos.x + cs.len() <= usize::MAX,
    ensures
        forall|i: int|
            0 <= i < cs.len() ==> ds[i + 1].chars() == inserted(
                ds[i].chars(),
                #[trigger] ds[i].insert_index(),
                seq![cs[i]],
            ),
        ss[cs.len() as int].entity_manager.char_buffer@ == ss[0].entity_manager.char_buffer@ + cs,
        ss[cs.len() as int].snippet_state == ss[0].snippet_state,
        ds[cs.len() as int].cursor.pos == (Pos {
            y: ds[0].cursor.pos.y,
            x: (ds[0].cursor.pos.x + cs.len()) as usize,
        }),
    decreases cs.len(),
{
    if cs.len() > 0 {
        let n = cs.len() - 1;
        let ss0 = ss.take(n + 1);
        let ds0 = ds.take(n + 1);
        let cs0 = cs.take(n);
        assert forall|i: int| 0 <= i < cs0.len() implies #[trigger] typed_step(
            ss0[i],
            ds0[i],
            cs0[i],
            ss0[i + 1],
            ds0[i + 1],
        ) by {
            assert(typed_step(ss[i], ds[i], cs[i], ss[i + 1], ds[i + 1]));
        }
        typing_buffers_and_inserts(ss0, ds0, cs0);
        assert(typed_step(ss[n], ds[n], cs[n], ss[n + 1], ds[n + 1]));
        assert(cs0.push(cs[n]) =~= cs);
        assert(ss[0].entity_manager.char_buffer@ + cs0 + seq![cs[n]] =~= ss[0].entity_manager.char_buffer@ + cs);
    }
    assert forall|i: int|
        0 <= i < cs.len() implies ds[i + 1].chars() == inserted(
        ds[i].chars(),
        #[trigger] ds[i].insert_index(),
        seq![cs[i]],
    ) by {
        assert(typed_step(ss[i], ds[i], cs[i], ss[i + 1], ds[i + 1]));
    }
}

proof fn lemma_with_slot_keeps_others(e: Entity, s: EntityState, t: TokenTable, o: EntityState)
    requires
        s != EntityState::Idle,
        o != EntityState::Idle,
    ensures
        s != o ==> e.with_slot(s, t).slot(o) == e.slot(o),
        e.with_slot(s, t).slot(s) == t,
{
}

/// Closing a slot whose buffer holds characters sets its value to exactly
/// those characters, in typed order, and its value range to a range of that
/// length ending at the cursor index of the moment of the commit (when that
/// index is at least the buffer's length; below it the range starts at 0).
pub proof fn commit_records_buffer(
    m0: EntityManager,
    d0: Document,
    s0: SnippetState,
    n0: Option<String>,
    m1: EntityManager,
    d1: Document,
    s1: SnippetState,
    n1: Option<String>,
)
    requires
        is_trigger(s0),
        m0.state != EntityState::Idle,
        m0.char_buffer@.len() > 0,
        pos_in_text(d0.chars(), d0.cursor.pos),
        index_of_pos(d0.chars(), d0.cursor.pos) >= m0.char_buffer@.len(),
        collect_step(m0, d0, s0, n0, ' ', m1, d1, s1, n1, Ok(())),
    ensures
        m1.entity.slot(m0.state).value@ == m0.char_buffer@,
        m1.entity.slot(m0.state).value_range.end == index_of_pos(d0.chars(), d0.cursor.pos),
        m1.entity.slot(m0.state).value_range.end - m1.entity.slot(m0.state).value_range.start
            == m0.char_buffer@.len(),
        m1.char_buffer@.len() == 0,
        n1 is None,
{
    let idx = index_of_pos(d0.chars(), d0.cursor.pos);
    assert(text_after_close(m0, d0.chars()) == d0.chars());
    let (mm, dm) = choose|mm: EntityManager, dm: Document|
        {
            &&& committed(m0, idx, mm)
            &&& dm.chars() == d0.chars() && dm.cursor == d0.cursor && dm.mode == d0.mode
            &&& scaffold_step(mm, dm, s0, m1, d1, s1)
        };
    let t = m0.entity.slot(m0.state);
    let v = mm.entity.slot(m0.state).value;
    let nt = TokenTable {
        value: v,
        value_range: Range {
            start: sat_sub(idx, m0.char_buffer@.len() as int) as usize,
            end: idx as usize,
        },
        ..t
    };
    lemma_with_slot_keeps_others(m0.entity, m0.state, nt, m0.state);
    assert(mm.entity.slot(m0.state) == nt);
    let next = next_state(mm.state);
    if next != EntityState::Idle {
        if pos_in_text(dm.chars(), Pos {
            y: dm.cursor.pos.y,
            x: jumped_col(
                dm.cursor.pos.x,
                mm.insert_state,
                chunk_model(mm.entity.slot(next).token),
            ),
        }) {
            let nt2 = choose|x: TokenTable| m1.entity == mm.entity.with_slot(next, x);
            lemma_with_slot_keeps_others(mm.entity, next, nt2, m0.state);
        }
    }
}

/// A chord of an operation key then a slot key, typed on an empty chord
/// buffer, on a slot whose value range lies in the text: Delete on a
/// skippable slot removes exactly that range and leaves the cursor where it
/// was; Swap removes it and moves the cursor to the range's start, whether
/// the slot is skippable or not. The chord buffer ends empty.
pub proof fn chord_deletes_or_swaps_value(
    s0: Snippet,
    d0: Document,
    op: SnippetState,
    es: EntityState,
    s1: Snippet,
    d1: Document,
    s2: Snippet,
    d2: Document,
)
    requires
        s0.command_buffer@.len() == 0,
        es != EntityState::Idle,
        range_in(s0.entity_manager.entity.slot(es).value_range, d0.chars().len()),
        command_step(s0, d0, SnippetCommand::SnippetState(op), s1, d1),
        command_step(s1, d1, SnippetCommand::EntityState(es), s2, d2),
    ensures
        s2.command_buffer@.len() == 0,
        ({
            let r = s0.entity_manager.entity.slot(es).value_range;
            op == SnippetState::Delete && s0.entity_manager.entity.slot(es).token.skippable ==> {
                &&& d2.chars() == removed(d0.chars(), r.start as int, r.end as int)
                &&& d2.cursor == d0.cursor
            }
        }),
        ({
            let r = s0.entity_manager.entity.slot(es).value_range;
            op == SnippetState::Swap ==> {
                &&& d2.chars() == removed(d0.chars(), r.start as int, r.end as int)
                &&& d2.cursor.pos == pos_of_index(d0.chars(), r.start as int)
            }
        }),
{
    assert(s0.command_buffer@.push(SnippetCommand::SnippetState(op)).len() == 1);
    assert(s1.command_buffer@.push(SnippetCommand::EntityState(es))[0]
        == SnippetCommand::SnippetState(op));
}

/// Whatever two keys make up a chord, once the second is taken the chord
/// buffer is empty and ready for the next chord.
pub proof fn chord_buffer_empties(
    s0: Snippet,
    d0: Document,
    first: SnippetCommand,
    second: SnippetCommand,
    s1: Snippet,
    d1: Document,
    s2: Snippet,
    d2: Document,
)
    requires
        s0.command_buffer@.len() == 0,
        command_step(s0, d0, first, s1, d1),
        command_step(s1, d1, second, s2, d2),
    ensures
        s1.command_buffer@.len() == 1,
        s2.command_buffer@.len() == 0,
{
}

} // verus!

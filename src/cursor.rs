//! Cursor position and free movement over the lines of the text.

use vstd::prelude::*;

use ropey::Rope;

use crate::rope_text::{line_count_of, line_len_of, rope_chars, rope_len_lines, rope_line_len};

verus! {

/// A cursor location: `y` is the row, `x` the column.
#[derive(Clone, Copy, Debug, PartialEq, Eq, Structural)]
pub struct Pos {
    pub y: usize,
    pub x: usize,
}

impl Default for Pos {
    fn default() -> (r: Self)
        ensures
            r.y == 0 && r.x == 0,
    {
        Pos { y: 0, x: 0 }
    }
}

#[derive(Clone, Copy, Debug, PartialEq, Eq, Structural)]
pub struct Cursor {
    pub pos: Pos,
    /// First visible row of the viewport.
    pub offset_y: usize,
}

impl Default for Cursor {
    fn default() -> (r: Self)
        ensures
            r.pos.y == 0 && r.pos.x == 0,
            r.offset_y == 0,
    {
        Cursor { pos: Pos::default(), offset_y: 0 }
    }
}

#[derive(Clone, Copy, Debug, PartialEq, Eq, Structural)]
pub enum CursorDirection {
    Left,
    Right,
    Down,
    Up,
}

impl CursorDirection {
    /// The direction a navigation key stands for (`h`, `j`, `k`, `l`).
    pub fn from_key(c: char) -> (r: Option<CursorDirection>)
        ensures
            r == direction_of_key(c),
    {
        match c {
            'h' => Some(CursorDirection::Left),
            'k' => Some(CursorDirection::Up),
            'j' => Some(CursorDirection::Down),
            'l' => Some(CursorDirection::Right),
            _ => None,
        }
    }
}

pub open spec fn direction_of_key(c: char) -> Option<CursorDirection> {
    if c == 'h' {
        Some(CursorDirection::Left)
    } else if c == 'k' {
        Some(CursorDirection::Up)
    } else if c == 'j' {
        Some(CursorDirection::Down)
    } else if c == 'l' {
        Some(CursorDirection::Right)
    } else {
        None
    }
}

/// The column clamped to the length of a line.
pub open spec fn clamp_col(x: usize, len: nat) -> usize {
    if x > len { len as usize } else { x }
}

/// Where one step in a direction takes the cursor: right and left wrap
/// across line ends, up and down keep the column within the new line.
pub open spec fn moved(text: Seq<char>, p: Pos, d: CursorDirection) -> Pos {
    let lines = line_count_of(text);
    match d {
        CursorDirection::Right => if p.x < line_len_of(text, p.y as nat) {
            Pos { y: p.y, x: (p.x + 1) as usize }
        } else if p.y + 1 < lines {
            Pos { y: (p.y + 1) as usize, x: 0 }
        } else {
            p
        },
        CursorDirection::Left => if p.x > 0 {
            Pos { y: p.y, x: (p.x - 1) as usize }
        } else if p.y > 0 {
            Pos { y: (p.y - 1) as usize, x: line_len_of(text, (p.y - 1) as nat) as usize }
        } else {
            p
        },
        CursorDirection::Down => if p.y + 1 < lines {
            Pos {
                y: (p.y + 1) as usize,
                x: clamp_col(p.x, line_len_of(text, (p.y + 1) as nat)),
            }
        } else {
            p
        },
        CursorDirection::Up => if p.y > 0 {
            Pos { y: (p.y - 1) as usize, x: clamp_col(p.x, line_len_of(text, (p.y - 1) as nat)) }
        } else {
            p
        },
    }
}

impl Cursor {
    /// Moves the cursor one step; the row must be a line of the text.
    pub fn move_cursor(&mut self, text: &Rope, direction: CursorDirection)
        requires
            old(self).pos.y < line_count_of(rope_chars(*text)),
        ensures
            final(self).pos == moved(rope_chars(*text), old(self).pos, direction),
            final(self).offset_y == old(self).offset_y,
    {
        let lines = rope_len_lines(text);
        match direction {
            CursorDirection::Right => {
                let line_len = rope_line_len(text, self.pos.y);
                if self.pos.x < line_len {
                    self.pos.x = self.pos.x + 1;
                } else if self.pos.y + 1 < lines {
                    self.pos.y = self.pos.y + 1;
                    self.pos.x = 0;
                }
            },
            CursorDirection::Left => {
                if self.pos.x > 0 {
                    self.pos.x = self.pos.x - 1;
                } else if self.pos.y > 0 {
                    self.pos.y = self.pos.y - 1;
                    self.pos.x = rope_line_len(text, self.pos.y);
                }
            },
            CursorDirection::Down => {
                if self.pos.y + 1 < lines {
                    self.pos.y = self.pos.y + 1;
                    let new_len = rope_line_len(text, self.pos.y);
                    if self.pos.x > new_len {
                        self.pos.x = new_len;
                    }
                }
            },
            CursorDirection::Up => {
                if self.pos.y > 0 {
                    self.pos.y = self.pos.y - 1;
                    let new_len = rope_line_len(text, self.pos.y);
                    if self.pos.x > new_len {
                        self.pos.x = new_len;
                    }
                }
            },
        }
    }
}

} // verus!

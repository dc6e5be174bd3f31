//! The operation a snippet session has armed.

use vstd::prelude::*;

verus! {

#[derive(Debug, Clone, Copy, PartialEq, Eq, Structural)]
pub enum SnippetState {
    /// Create snippets from scratch.
    Create,
    /// Delete the value of a slot.
    Delete,
    /// Delete the value of a slot and put the cursor in its place.
    Swap,
    /// Move slots around.
    Refactor,
    /// Jump to a slot.
    Goto,
    /// Nothing armed.
    Idle,
}

impl Default for SnippetState {
    fn default() -> (r: Self)
        ensures
            r == SnippetState::Idle,
    {
        SnippetState::Idle
    }
}

/// The operation an operation key arms (`c`, `d`, `s`).
pub open spec fn snippet_state_of_key(c: char) -> Option<SnippetState> {
    if c == 'c' {
        Some(SnippetState::Create)
    } else if c == 'd' {
        Some(SnippetState::Delete)
    } else if c == 's' {
        Some(SnippetState::Swap)
    } else {
        None
    }
}

/// Create and Delete start a scaffold-insertion session.
pub open spec fn is_trigger(s: SnippetState) -> bool {
    s == SnippetState::Create || s == SnippetState::Delete
}

impl SnippetState {
    pub fn from_key(c: char) -> (r: Option<SnippetState>)
        ensures
            r == snippet_state_of_key(c),
    {
        match c {
            'c' => Some(SnippetState::Create),
            'd' => Some(SnippetState::Delete),
            's' => Some(SnippetState::Swap),
            _ => None,
        }
    }
}

} // verus!

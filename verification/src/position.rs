//! The place of the caret in a text buffer.

use vstd::prelude::*;

verus! {

/// A place in a text buffer: a line, and a column within that line.
///
/// Both count from zero. A column counts characters, and the column just past
/// the last character of a line is a place too.
#[derive(Debug, Clone, Copy, PartialEq, Eq, Structural)]
pub struct Position {
    pub line: usize,
    pub column: usize,
}

impl Position {
    /// The start of the first line.
    pub fn new() -> (p: Position)
        ensures
            p.line == 0,
            p.column == 0,
    {
        Position { line: 0, column: 0 }
    }
}

impl Default for Position {
    fn default() -> (p: Position)
        ensures
            p.line == 0,
            p.column == 0,
    {
        Position::new()
    }
}

} // verus!

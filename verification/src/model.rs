//! The editor as mathematics: what a document with a caret is, and what a key
//! press or a paste makes of it.
//!
//! Everything here is specification. The executable editor is stated against
//! these functions, and the laws of the editor are proved of them.

use crate::key::KeyView;
use vstd::prelude::*;

verus! {

/// A document and the place of the caret in it.
pub struct EditorState {
    /// The lines of the document, from top to bottom.
    pub lines: Seq<Seq<char>>,
    /// The line the caret is on.
    pub line: int,
    /// The column of the caret: the number of characters of its line that
    /// stand before it.
    pub column: int,
}

/// The smaller of two numbers.
pub open spec fn least(a: int, b: int) -> int {
    if a <= b {
        a
    } else {
        b
    }
}

/// The segments of a text: what stands between its line breaks.
///
/// A text with `n` line breaks has `n + 1` segments, and no segment holds a
/// line break. A text that ends in a line break ends in an empty segment, and
/// the empty text has one segment, which is empty.
pub open spec fn segments(text: Seq<char>) -> Seq<Seq<char>>
    decreases text.len(),
{
    if text.len() == 0 {
        seq![Seq::<char>::empty()]
    } else {
        let before = segments(text.drop_last());
        if text.last() == '\n' {
            before.push(Seq::<char>::empty())
        } else {
            before.update(before.len() - 1, before.last().push(text.last()))
        }
    }
}

/// The given segments as lines that follow `before`: the first of them joins
/// it, the others stay as they are.
pub open spec fn joined_to(before: Seq<char>, segments: Seq<Seq<char>>) -> Seq<Seq<char>> {
    segments.update(0, before + segments[0])
}

/// The text of a document: each line, followed by a line break.
pub open spec fn rendered(lines: Seq<Seq<char>>) -> Seq<char>
    decreases lines.len(),
{
    if lines.len() == 0 {
        Seq::<char>::empty()
    } else {
        rendered(lines.drop_last()) + lines.last().push('\n')
    }
}

/// A text has at least one segment.
pub proof fn lemma_segments_nonempty(text: Seq<char>)
    ensures
        segments(text).len() >= 1,
    decreases text.len(),
{
    if text.len() > 0 {
        lemma_segments_nonempty(text.drop_last());
    }
}

/// A line break at the end of a text opens a new, empty segment; any other
/// character goes to the end of the last segment.
pub proof fn lemma_segments_push(text: Seq<char>, ch: char)
    ensures
        segments(text.push(ch)) == if ch == '\n' {
            segments(text).push(Seq::<char>::empty())
        } else {
            segments(text).update(segments(text).len() - 1, segments(text).last().push(ch))
        },
{
    assert(text.push(ch).drop_last() =~= text);
}

impl EditorState {
    /// The state of a fresh editor: one empty line, the caret at its start.
    pub open spec fn initial() -> EditorState {
        EditorState { lines: seq![Seq::<char>::empty()], line: 0, column: 0 }
    }

    /// The caret is on a line of the document and within that line. A valid
    /// state therefore has at least one line.
    pub open spec fn valid(self) -> bool {
        &&& 0 <= self.line < self.lines.len()
        &&& 0 <= self.column <= self.lines[self.line].len()
    }

    /// The line the caret is on.
    pub open spec fn current(self) -> Seq<char> {
        self.lines[self.line]
    }

    /// The same document with the caret at the given place.
    pub open spec fn caret_at(self, line: int, column: int) -> EditorState {
        EditorState { lines: self.lines, line, column }
    }

    /// Typing a character puts it at the caret and moves the caret past it.
    pub open spec fn type_char(self, ch: char) -> EditorState {
        EditorState {
            lines: self.lines.update(self.line, self.current().insert(self.column, ch)),
            line: self.line,
            column: self.column + 1,
        }
    }

    /// Backspace takes out the character before the caret. At the start of a
    /// line it joins the line to the one above, and the caret stands where the
    /// two meet. At the start of the document it does nothing.
    pub open spec fn backspace(self) -> EditorState {
        if self.column > 0 {
            EditorState {
                lines: self.lines.update(self.line, self.current().remove(self.column - 1)),
                line: self.line,
                column: self.column - 1,
            }
        } else if self.line > 0 {
            let above = self.lines[self.line - 1];
            EditorState {
                lines: self.lines.update(self.line - 1, above + self.current()).remove(
                    self.line,
                ),
                line: self.line - 1,
                column: above.len() as int,
            }
        } else {
            self
        }
    }

    /// Enter breaks the line at the caret: what stood after the caret becomes
    /// a new line below, and the caret goes to its start.
    pub open spec fn enter(self) -> EditorState {
        let kept = self.current().subrange(0, self.column);
        let moved = self.current().subrange(self.column, self.current().len() as int);
        EditorState {
            lines: self.lines.update(self.line, kept).insert(self.line + 1, moved),
            line: self.line + 1,
            column: 0,
        }
    }

    /// One column to the left; from the start of a line, to the end of the
    /// line above; from the start of the document, nowhere.
    pub open spec fn left(self) -> EditorState {
        if self.column > 0 {
            self.caret_at(self.line, self.column - 1)
        } else if self.line > 0 {
            self.caret_at(self.line - 1, self.lines[self.line - 1].len() as int)
        } else {
            self
        }
    }

    /// One column to the right; from the end of a line, to the start of the
    /// line below; from the end of the document, nowhere.
    pub open spec fn right(self) -> EditorState {
        if self.column < self.current().len() {
            self.caret_at(self.line, self.column + 1)
        } else if self.line + 1 < self.lines.len() {
            self.caret_at(self.line + 1, 0)
        } else {
            self
        }
    }

    /// One line up, in the same column or at the end of that line if it is
    /// shorter; on the first line, to the start of the line.
    pub open spec fn up(self) -> EditorState {
        if self.line > 0 {
            self.caret_at(
                self.line - 1,
                least(self.column, self.lines[self.line - 1].len() as int),
            )
        } else if self.column > 0 {
            self.caret_at(self.line, 0)
        } else {
            self
        }
    }

    /// One line down, in the same column or at the end of that line if it is
    /// shorter; on the last line, to the end of the line.
    pub open spec fn down(self) -> EditorState {
        if self.line + 1 < self.lines.len() {
            self.caret_at(
                self.line + 1,
                least(self.column, self.lines[self.line + 1].len() as int),
            )
        } else if self.column < self.current().len() {
            self.caret_at(self.line, self.current().len() as int)
        } else {
            self
        }
    }

    /// What a key press makes of the state.
    ///
    /// A `Printable` key types its character if it carries exactly one. The
    /// keys that neither type, delete, break a line nor move the caret leave
    /// the state as it is.
    pub open spec fn press(self, key: KeyView) -> EditorState {
        match key {
            KeyView::Printable(text) => if text.len() == 1 {
                self.type_char(text[0])
            } else {
                self
            },
            KeyView::Backspace => self.backspace(),
            KeyView::Enter => self.enter(),
            KeyView::ArrowLeft => self.left(),
            KeyView::ArrowRight => self.right(),
            KeyView::ArrowUp => self.up(),
            KeyView::ArrowDown => self.down(),
            KeyView::Delete | KeyView::Escape | KeyView::Shift | KeyView::Control
            | KeyView::Other => self,
        }
    }

    /// The lines that a paste puts in place of the caret's line: the segments
    /// of the pasted text, with what stood before the caret in front of the
    /// first and what stood after it behind the last.
    pub open spec fn pasted_lines(self, text: Seq<char>) -> Seq<Seq<char>> {
        let before = self.current().subrange(0, self.column);
        let after = self.current().subrange(self.column, self.current().len() as int);
        let lines = joined_to(before, segments(text));
        lines.update(lines.len() - 1, lines.last() + after)
    }

    /// What pasting a text at the caret makes of the state. The caret ends on
    /// the last of the pasted lines, at the end of that line.
    pub open spec fn paste(self, text: Seq<char>) -> EditorState {
        let lines = self.lines.subrange(0, self.line) + self.pasted_lines(text)
            + self.lines.subrange(self.line + 1, self.lines.len() as int);
        let line = self.line + segments(text).len() - 1;
        EditorState { lines, line, column: lines[line].len() as int }
    }
}

} // verus!

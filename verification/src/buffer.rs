//! The text buffer: the lines of a document, and the four ways to change them.

use crate::line::Line;
use crate::model::rendered;
use crate::text::push_char;
use vstd::prelude::*;

verus! {

/// The lines of a document, from top to bottom.
///
/// A buffer in use is never empty: a document without text is one empty line.
#[derive(Debug)]
pub struct TextBuffer {
    lines: Vec<Line>,
}

impl View for TextBuffer {
    type V = Seq<Seq<char>>;

    closed spec fn view(&self) -> Seq<Seq<char>> {
        Seq::new(self.lines@.len(), |i: int| self.lines@[i]@)
    }
}

impl TextBuffer {
    /// The buffer holds at least one line.
    pub open spec fn wf(&self) -> bool {
        self@.len() >= 1
    }

    /// The buffer of an empty document: one empty line.
    pub fn new() -> (buffer: TextBuffer)
        ensures
            buffer@ == seq![Seq::<char>::empty()],
            buffer.wf(),
    {
        let mut lines: Vec<Line> = Vec::new();
        lines.push(Line::new());
        let buffer = TextBuffer { lines };
        assert(buffer@ =~= seq![Seq::<char>::empty()]);
        buffer
    }

    /// Neither the buffer nor any of its lines is longer than a `usize` can
    /// count.
    pub proof fn lemma_bounded(&self)
        ensures
            self@.len() <= usize::MAX,
            forall|i: int| 0 <= i < self@.len() ==> (#[trigger] self@[i]).len() <= usize::MAX,
    {
        assert(self.lines.len() == self.lines@.len());
        assert forall|i: int| 0 <= i < self@.len() implies (#[trigger] self@[i]).len()
            <= usize::MAX by {
            self.lines@[i].lemma_len_bounded();
        }
    }

    /// The number of lines.
    pub fn line_count(&self) -> (n: usize)
        ensures
            n == self@.len(),
    {
        self.lines.len()
    }

    /// The number of characters in the given line.
    pub fn line_len(&self, line: usize) -> (n: usize)
        requires
            line < self@.len(),
        ensures
            n == self@[line as int].len(),
    {
        self.lines[line].len()
    }

    /// The given line, as a string.
    pub fn line_text(&self, line: usize) -> (text: String)
        requires
            line < self@.len(),
        ensures
            text@ == self@[line as int],
    {
        self.lines[line].text()
    }

    /// All lines, as strings, from top to bottom.
    pub fn lines(&self) -> (texts: Vec<String>)
        ensures
            texts@.len() == self@.len(),
            forall|i: int| 0 <= i < self@.len() ==> (#[trigger] texts@[i])@ == self@[i],
    {
        let mut texts: Vec<String> = Vec::new();
        let mut i: usize = 0;
        while i < self.lines.len()
            invariant
                i <= self.lines@.len(),
                texts@.len() == i,
                forall|j: int| 0 <= j < i ==> (#[trigger] texts@[j])@ == self@[j],
            decreases self.lines@.len() - i,
        {
            texts.push(self.lines[i].text());
            i = i + 1;
        }
        texts
    }

    /// The whole document as one string: each line, followed by a line break.
    pub fn text(&self) -> (text: String)
        ensures
            text@ == rendered(self@),
    {
        let mut text = String::new();
        let mut i: usize = 0;
        assert(self@.subrange(0, 0) =~= Seq::<Seq<char>>::empty());
        while i < self.lines.len()
            invariant
                i <= self.lines@.len(),
                text@ == rendered(self@.subrange(0, i as int)),
            decreases self.lines@.len() - i,
        {
            let line = &self.lines[i];
            let ghost start = text@;
            let mut j: usize = 0;
            while j < line.len()
                invariant
                    j <= line@.len(),
                    text@ == start + line@.subrange(0, j as int),
                decreases line@.len() - j,
            {
                push_char(&mut text, line.char_at(j));
                assert(line@.subrange(0, j + 1) =~= line@.subrange(0, j as int).push(
                    line@[j as int],
                ));
                j = j + 1;
            }
            push_char(&mut text, '\n');
            proof {
                let upto = self@.subrange(0, i + 1);
                assert(upto.drop_last() =~= self@.subrange(0, i as int));
                assert(upto.last() == line@);
                assert(line@.subrange(0, j as int) =~= line@);
                assert(text@ =~= start + line@.push('\n'));
            }
            i = i + 1;
        }
        assert(self@.subrange(0, i as int) =~= self@);
        text
    }

    /// Puts `ch` at `column` of `line`. What stood at or after `column` moves
    /// one column to the right; no other line changes.
    pub fn insert_char(&mut self, line: usize, column: usize, ch: char)
        requires
            line < old(self)@.len(),
            column <= old(self)@[line as int].len(),
        ensures
            final(self)@ == old(self)@.update(
                line as int,
                old(self)@[line as int].insert(column as int, ch),
            ),
    {
        self.lines[line].insert(column, ch);
        assert(self@ =~= old(self)@.update(
            line as int,
            old(self)@[line as int].insert(column as int, ch),
        ));
    }

    /// Takes out the character just before `column` of `line`.
    pub fn delete_char_before(&mut self, line: usize, column: usize)
        requires
            line < old(self)@.len(),
            0 < column <= old(self)@[line as int].len(),
        ensures
            final(self)@ == old(self)@.update(
                line as int,
                old(self)@[line as int].remove(column - 1),
            ),
    {
        self.lines[line].remove(column - 1);
        assert(self@ =~= old(self)@.update(
            line as int,
            old(self)@[line as int].remove(column - 1),
        ));
    }

    /// Breaks `line` at `column`: the line keeps what stood before `column`,
    /// and the rest becomes a new line just below it.
    pub fn split_line(&mut self, line: usize, column: usize)
        requires
            line < old(self)@.len(),
            column <= old(self)@[line as int].len(),
        ensures
            final(self)@ == old(self)@.update(
                line as int,
                old(self)@[line as int].subrange(0, column as int),
            ).insert(
                line + 1,
                old(self)@[line as int].subrange(
                    column as int,
                    old(self)@[line as int].len() as int,
                ),
            ),
    {
        let rest = self.lines[line].split_off(column);
        assert(line < self.lines.len());
        self.lines.insert(line + 1, rest);
        assert(self@ =~= old(self)@.update(
            line as int,
            old(self)@[line as int].subrange(0, column as int),
        ).insert(
            line + 1,
            old(self)@[line as int].subrange(column as int, old(self)@[line as int].len() as int),
        ));
    }

    /// Joins `line` to the line above it: its characters go to the end of that
    /// line, and the line itself leaves the buffer.
    pub fn merge_with_previous(&mut self, line: usize)
        requires
            0 < line < old(self)@.len(),
        ensures
            final(self)@ == old(self)@.update(
                line - 1,
                old(self)@[line - 1] + old(self)@[line as int],
            ).remove(line as int),
    {
        let joined = self.lines.remove(line);
        self.lines[line - 1].append(joined);
        assert(self@ =~= old(self)@.update(
            line - 1,
            old(self)@[line - 1] + old(self)@[line as int],
        ).remove(line as int));
    }
}

} // verus!

//! One line of text.

use crate::text::{chars_of, string_of};
use vstd::prelude::*;

verus! {

/// One row of editable text: a sequence of characters, without the line break
/// that ends it.
///
/// Columns count characters from zero. Column `len()` is the place just past
/// the last character.
#[derive(Debug)]
pub struct Line {
    chars: Vec<char>,
}

impl View for Line {
    type V = Seq<char>;

    closed spec fn view(&self) -> Seq<char> {
        self.chars@
    }
}

impl Line {
    /// The empty line.
    pub fn new() -> (line: Line)
        ensures
            line@ == Seq::<char>::empty(),
    {
        Line { chars: Vec::new() }
    }

    /// The line that holds the characters of `text`.
    pub fn from_text(text: &str) -> (line: Line)
        ensures
            line@ == text@,
    {
        Line { chars: chars_of(text) }
    }

    /// The characters of the line, as a string.
    pub fn text(&self) -> (text: String)
        ensures
            text@ == self@,
    {
        string_of(&self.chars)
    }

    /// A line is never longer than a `usize` can count.
    pub proof fn lemma_len_bounded(&self)
        ensures
            self@.len() <= usize::MAX,
    {
        assert(self.chars.len() == self.chars@.len());
    }

    /// The number of characters in the line.
    pub fn len(&self) -> (n: usize)
        ensures
            n == self@.len(),
    {
        self.chars.len()
    }

    /// The character at `column`.
    pub fn char_at(&self, column: usize) -> (ch: char)
        requires
            column < self@.len(),
        ensures
            ch == self@[column as int],
    {
        self.chars[column]
    }

    /// Puts `ch` at `column`; what stood at or after `column` moves one column
    /// to the right.
    pub fn insert(&mut self, column: usize, ch: char)
        requires
            column <= old(self)@.len(),
        ensures
            final(self)@ == old(self)@.insert(column as int, ch),
    {
        self.chars.insert(column, ch);
    }

    /// Takes out the character at `column` and returns it; what stood after it
    /// moves one column to the left.
    pub fn remove(&mut self, column: usize) -> (ch: char)
        requires
            column < old(self)@.len(),
        ensures
            ch == old(self)@[column as int],
            final(self)@ == old(self)@.remove(column as int),
    {
        self.chars.remove(column)
    }

    /// Cuts the line at `column`: the line keeps what stood before `column`, and
    /// the rest is returned as a line of its own.
    pub fn split_off(&mut self, column: usize) -> (rest: Line)
        requires
            column <= old(self)@.len(),
        ensures
            final(self)@ == old(self)@.subrange(0, column as int),
            rest@ == old(self)@.subrange(column as int, old(self)@.len() as int),
    {
        Line { chars: self.chars.split_off(column) }
    }

    /// Puts the characters of `other` at the end of the line.
    pub fn append(&mut self, other: Line)
        ensures
            final(self)@ == old(self)@ + other@,
    {
        let mut other = other;
        self.chars.append(&mut other.chars);
    }
}

} // verus!

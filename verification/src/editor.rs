//! The editor: a text buffer and a caret, changed together by key presses and
//! by pasted text.

use crate::buffer::TextBuffer;
use crate::held::HeldKeys;
use crate::key::{KeyView, KeyboardKey};
use crate::model::{
    joined_to, lemma_segments_nonempty, lemma_segments_push, rendered, segments, EditorState,
};
use crate::position::Position;
use crate::text::chars_of;
use vstd::prelude::*;
use vstd::std_specs::iter::IteratorSpec;

verus! {

/// What can happen to an editor.
#[derive(Debug)]
pub enum EditorMsg {
    /// A key went down.
    KeyPressed(KeyboardKey),
    /// A key came up.
    KeyUp(KeyboardKey),
    /// The clipboard was read, and this text is to be pasted.
    Pasted(String),
    /// Something went wrong outside the editor.
    Error,
}

/// What the editor asks of its host after a message.
#[derive(Debug, Clone, Copy, PartialEq, Eq, Structural)]
pub enum HostAction {
    /// Nothing.
    Nothing,
    /// Read the clipboard and hand its text back as `EditorMsg::Pasted`.
    ReadClipboard,
}

/// The key that, pressed while `Control` is held, asks for a paste.
pub open spec fn paste_key() -> KeyView {
    KeyView::Printable(seq!['v'])
}

/// Tells whether a key is the paste key.
pub fn is_paste_key(key: &KeyboardKey) -> (paste: bool)
    ensures
        paste == (key@ == paste_key()),
{
    match key {
        KeyboardKey::Printable(text) => {
            let chars = chars_of(text.as_str());
            let paste = chars.len() == 1 && chars[0] == 'v';
            proof {
                if paste {
                    assert(text@ =~= seq!['v']);
                }
            }
            paste
        },
        _ => false,
    }
}

/// A text buffer, the caret in it, and the keys that are held down.
#[derive(Debug)]
pub struct Editor {
    caret_position: Position,
    content: TextBuffer,
    scape_keys_pressed: HeldKeys,
}

impl View for Editor {
    type V = EditorState;

    closed spec fn view(&self) -> EditorState {
        EditorState {
            lines: self.content@,
            line: self.caret_position.line as int,
            column: self.caret_position.column as int,
        }
    }
}

impl Editor {
    /// The keys that are held down.
    pub closed spec fn held(&self) -> Set<KeyView> {
        self.scape_keys_pressed@
    }

    /// The caret is on a line of the buffer and within that line.
    pub open spec fn wf(&self) -> bool {
        self@.valid()
    }

    /// A fresh editor: one empty line, the caret at its start, no key held.
    pub fn create() -> (editor: Editor)
        ensures
            editor@ == EditorState::initial(),
            editor.held() == Set::<KeyView>::empty(),
            editor.wf(),
    {
        Editor {
            caret_position: Position::new(),
            content: TextBuffer::new(),
            scape_keys_pressed: HeldKeys::new(),
        }
    }

    /// Whether the caret is on a line of the buffer and within that line.
    pub fn is_valid(&self) -> (valid: bool)
        ensures
            valid == self.wf(),
    {
        self.caret_position.line < self.content.line_count() && self.caret_position.column
            <= self.content.line_len(self.caret_position.line)
    }

    /// The place of the caret.
    pub fn caret_position(&self) -> (position: Position)
        ensures
            position.line == self@.line,
            position.column == self@.column,
    {
        self.caret_position
    }

    /// The number of lines.
    pub fn line_count(&self) -> (n: usize)
        ensures
            n == self@.lines.len(),
    {
        self.content.line_count()
    }

    /// The lines of the buffer, from top to bottom.
    pub fn content(&self) -> (lines: Vec<String>)
        ensures
            lines@.len() == self@.lines.len(),
            forall|i: int| 0 <= i < self@.lines.len() ==> (#[trigger] lines@[i])@ == self@.lines[i],
    {
        self.content.lines()
    }

    /// The whole text: each line, followed by a line break.
    pub fn text(&self) -> (text: String)
        ensures
            text@ == rendered(self@.lines),
    {
        self.content.text()
    }

    /// Whether the given key is held down.
    pub fn is_held(&self, key: &KeyboardKey) -> (held: bool)
        ensures
            held == self.held().contains(key@),
    {
        self.scape_keys_pressed.contains(key)
    }

    /// Applies one key press to the buffer and the caret. Returns whether
    /// anything changed.
    pub fn handle_insertions(&mut self, k: &KeyboardKey) -> (changed: bool)
        requires
            old(self).wf(),
        ensures
            final(self).wf(),
            final(self)@ == old(self)@.press(k@),
            final(self).held() == old(self).held(),
            changed == (old(self)@.press(k@) != old(self)@),
    {
        let line = self.caret_position.line;
        let column = self.caret_position.column;
        match k {
            KeyboardKey::Printable(text) => {
                let chars = chars_of(text.as_str());
                if chars.len() == 1 {
                    self.content.insert_char(line, column, chars[0]);
                    proof {
                        self.content.lemma_bounded();
                        assert(self.content@[line as int].len() == old(self)@.current().len() + 1);
                    }
                    self.caret_position.column = column + 1;
                    true
                } else {
                    false
                }
            },
            KeyboardKey::Backspace => {
                if column > 0 {
                    self.content.delete_char_before(line, column);
                    self.caret_position.column = column - 1;
                    true
                } else if line > 0 {
                    let above = self.content.line_len(line - 1);
                    self.content.merge_with_previous(line);
                    self.caret_position = Position { line: line - 1, column: above };
                    true
                } else {
                    false
                }
            },
            KeyboardKey::Enter => {
                self.content.split_line(line, column);
                proof {
                    self.content.lemma_bounded();
                }
                self.caret_position = Position { line: line + 1, column: 0 };
                true
            },
            KeyboardKey::ArrowLeft => {
                if column > 0 {
                    self.caret_position.column = column - 1;
                    true
                } else if line > 0 {
                    let above = self.content.line_len(line - 1);
                    self.caret_position = Position { line: line - 1, column: above };
                    true
                } else {
                    false
                }
            },
            KeyboardKey::ArrowRight => {
                let count = self.content.line_count();
                if column < self.content.line_len(line) {
                    self.caret_position.column = column + 1;
                    true
                } else if line + 1 < count {
                    self.caret_position = Position { line: line + 1, column: 0 };
                    true
                } else {
                    false
                }
            },
            KeyboardKey::ArrowUp => {
                if line > 0 {
                    let above = self.content.line_len(line - 1);
                    let column = if above < column {
                        above
                    } else {
                        column
                    };
                    self.caret_position = Position { line: line - 1, column };
                    true
                } else if column > 0 {
                    self.caret_position.column = 0;
                    true
                } else {
                    false
                }
            },
            KeyboardKey::ArrowDown => {
                let count = self.content.line_count();
                if line + 1 < count {
                    let below = self.content.line_len(line + 1);
                    let column = if below < column {
                        below
                    } else {
                        column
                    };
                    self.caret_position = Position { line: line + 1, column };
                    true
                } else {
                    let end = self.content.line_len(line);
                    if column < end {
                        self.caret_position.column = end;
                        true
                    } else {
                        false
                    }
                }
            },
            KeyboardKey::Delete | KeyboardKey::Escape | KeyboardKey::Shift | KeyboardKey::Control
            | KeyboardKey::Other => false,
        }
    }

    /// Pastes a text at the caret: its first segment joins what stood before
    /// the caret, each further segment is a new line, and what stood after the
    /// caret follows the last. The caret goes to the end of that last line.
    /// Always reports a change.
    pub fn handle_paste(&mut self, text: &str) -> (changed: bool)
        requires
            old(self).wf(),
        ensures
            final(self).wf(),
            final(self)@ == old(self)@.paste(text@),
            final(self).held() == old(self).held(),
            changed,
    {
        let first = self.caret_position.line;
        let mut line = first;
        let ghost start = self@;
        let ghost head = start.lines.subrange(0, first as int);
        let ghost tail = start.lines.subrange(first + 1, start.lines.len() as int);
        let ghost before = start.current().subrange(0, start.column);
        let ghost after = start.current().subrange(start.column, start.current().len() as int);
        self.content.split_line(line, self.caret_position.column);
        proof {
            lemma_segments_nonempty(Seq::<char>::empty());
            assert(text@.subrange(0, 0) =~= Seq::<char>::empty());
            assert(self.content@ =~= head + joined_to(before, segments(text@.subrange(0, 0))) + seq![
                after,
            ] + tail);
        }
        for ch in it: text.chars()
            invariant
                it.seq() == text@,
                self.caret_position == old(self).caret_position,
                self.scape_keys_pressed == old(self).scape_keys_pressed,
                head.len() == first,
                line == first + segments(text@.subrange(0, it.index() as int)).len() - 1,
                self.content@ == head + joined_to(
                    before,
                    segments(text@.subrange(0, it.index() as int)),
                ) + seq![after] + tail,
        {
            let ghost done = text@.subrange(0, it.index() as int);
            let ghost lines = self.content@;
            proof {
                lemma_segments_nonempty(done);
                lemma_segments_push(done, ch);
                assert(text@.subrange(0, it.index() + 1) =~= done.push(ch));
                self.content.lemma_bounded();
            }
            let end = self.content.line_len(line);
            if ch == '\n' {
                self.content.split_line(line, end);
                proof {
                    let block = joined_to(before, segments(done));
                    assert(lines[line as int] == block.last());
                    assert(lines[line as int].subrange(0, end as int) =~= lines[line as int]);
                    assert(lines[line as int].subrange(end as int, end as int)
                        =~= Seq::<char>::empty());
                    assert(joined_to(before, segments(done.push(ch))) =~= block.push(
                        Seq::<char>::empty(),
                    ));
                    assert(self.content@ =~= head + block.push(Seq::<char>::empty()) + seq![after]
                        + tail);
                }
                line = line + 1;
            } else {
                self.content.insert_char(line, end, ch);
                proof {
                    let block = joined_to(before, segments(done));
                    assert(lines[line as int] == block.last());
                    assert(lines[line as int].insert(end as int, ch) =~= block.last().push(ch));
                    assert(before + segments(done)[0].push(ch) =~= (before + segments(done)[0]).push(
                        ch,
                    ));
                    assert(joined_to(before, segments(done.push(ch))) =~= block.update(
                        block.len() - 1,
                        block.last().push(ch),
                    ));
                    assert(self.content@ =~= head + block.update(
                        block.len() - 1,
                        block.last().push(ch),
                    ) + seq![after] + tail);
                }
            }
        }
        proof {
            assert(text@.subrange(0, text@.len() as int) =~= text@);
            lemma_segments_nonempty(text@);
            self.content.lemma_bounded();
        }
        self.content.merge_with_previous(line + 1);
        let end = self.content.line_len(line);
        self.caret_position = Position { line, column: end };
        assert(self.content@ =~= start.paste(text@).lines);
        true
    }

    /// Takes one message and says what the host is to do next.
    ///
    /// The first part of the result tells whether the editor is to be drawn
    /// again, the second what the editor asks of its host. A press of the
    /// paste key while `Control` is held changes nothing and asks the host to
    /// read the clipboard. Any other key press is applied to the buffer and the
    /// caret, and the key is then held. A released key is no longer held. A
    /// pasted text goes in at the caret.
    pub fn update(&mut self, msg: EditorMsg) -> (outcome: (bool, HostAction))
        requires
            old(self).wf(),
        ensures
            final(self).wf(),
            match msg {
                EditorMsg::Pasted(text) => {
                    &&& final(self)@ == old(self)@.paste(text@)
                    &&& final(self).held() == old(self).held()
                    &&& outcome == (true, HostAction::Nothing)
                },
                EditorMsg::KeyPressed(key) => if key@ == paste_key() && old(self).held().contains(
                    KeyView::Control,
                ) {
                    &&& final(self)@ == old(self)@
                    &&& final(self).held() == old(self).held()
                    &&& outcome == (true, HostAction::ReadClipboard)
                } else {
                    &&& final(self)@ == old(self)@.press(key@)
                    &&& final(self).held() == old(self).held().insert(key@)
                    &&& outcome == (old(self)@.press(key@) != old(self)@, HostAction::Nothing)
                },
                EditorMsg::KeyUp(key) => {
                    &&& final(self)@ == old(self)@
                    &&& final(self).held() == old(self).held().remove(key@)
                    &&& outcome == (false, HostAction::Nothing)
                },
                EditorMsg::Error => {
                    &&& final(self)@ == old(self)@
                    &&& final(self).held() == old(self).held()
                    &&& outcome == (false, HostAction::Nothing)
                },
            },
    {
        match msg {
            EditorMsg::Pasted(text) => {
                self.handle_paste(text.as_str());
                (true, HostAction::Nothing)
            },
            EditorMsg::KeyPressed(key) => {
                if is_paste_key(&key) && self.scape_keys_pressed.contains(&KeyboardKey::Control) {
                    (true, HostAction::ReadClipboard)
                } else {
                    let changed = self.handle_insertions(&key);
                    self.scape_keys_pressed.insert(key);
                    (changed, HostAction::Nothing)
                }
            },
            EditorMsg::KeyUp(key) => {
                self.scape_keys_pressed.remove(&key);
                (false, HostAction::Nothing)
            },
            EditorMsg::Error => (false, HostAction::Nothing),
        }
    }
}

} // verus!

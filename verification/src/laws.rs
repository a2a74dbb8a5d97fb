//! What holds of the editor, whatever is typed or pasted.

use crate::key::KeyView;
use crate::model::{joined_to, lemma_segments_nonempty, rendered, segments, EditorState};
use vstd::prelude::*;

verus! {

/// One thing done to an editor.
pub enum Operation {
    /// A key is pressed.
    Press(KeyView),
    /// A text is pasted.
    Paste(Seq<char>),
}

/// The state after one operation.
pub open spec fn step(state: EditorState, op: Operation) -> EditorState {
    match op {
        Operation::Press(key) => state.press(key),
        Operation::Paste(text) => state.paste(text),
    }
}

/// The state after a sequence of operations, done in order.
pub open spec fn run(state: EditorState, ops: Seq<Operation>) -> EditorState
    decreases ops.len(),
{
    if ops.len() == 0 {
        state
    } else {
        step(run(state, ops.drop_last()), ops.last())
    }
}

/// The state after typing the given characters, in order.
pub open spec fn typed(state: EditorState, chars: Seq<char>) -> EditorState
    decreases chars.len(),
{
    if chars.len() == 0 {
        state
    } else {
        typed(state, chars.drop_last()).type_char(chars.last())
    }
}

/// The state after pressing backspace the given number of times.
pub open spec fn erased(state: EditorState, times: nat) -> EditorState
    decreases times,
{
    if times == 0 {
        state
    } else {
        erased(state.backspace(), (times - 1) as nat)
    }
}

/// A fresh editor is in a valid state.
pub proof fn lemma_initial_valid()
    ensures
        EditorState::initial().valid(),
{
}

/// A key press leaves a valid state valid.
pub proof fn lemma_press_keeps_valid(state: EditorState, key: KeyView)
    requires
        state.valid(),
    ensures
        state.press(key).valid(),
{
}

/// A paste leaves a valid state valid.
pub proof fn lemma_paste_keeps_valid(state: EditorState, text: Seq<char>)
    requires
        state.valid(),
    ensures
        state.paste(text).valid(),
{
    lemma_segments_nonempty(text);
}

/// After any sequence of key presses and pastes, from a fresh editor: the
/// buffer has at least one line, the caret is on a line of the buffer, and
/// the caret is within that line.
pub proof fn lemma_reachable_states_valid(ops: Seq<Operation>)
    ensures
        run(EditorState::initial(), ops).lines.len() >= 1,
        0 <= run(EditorState::initial(), ops).line < run(EditorState::initial(), ops).lines.len(),
        0 <= run(EditorState::initial(), ops).column <= run(
            EditorState::initial(),
            ops,
        ).current().len(),
    decreases ops.len(),
{
    if ops.len() > 0 {
        lemma_reachable_states_valid(ops.drop_last());
        let before = run(EditorState::initial(), ops.drop_last());
        match ops.last() {
            Operation::Press(key) => lemma_press_keeps_valid(before, key),
            Operation::Paste(text) => lemma_paste_keeps_valid(before, text),
        }
    }
}

/// Typing a character and then pressing backspace gives back the state
/// before.
pub proof fn lemma_type_then_backspace(state: EditorState, ch: char)
    requires
        state.valid(),
    ensures
        state.type_char(ch).backspace() == state,
{
    assert(state.current().insert(state.column, ch).remove(state.column) =~= state.current());
    assert(state.type_char(ch).backspace().lines =~= state.lines);
}

/// Typing some characters and then pressing backspace once for each of them
/// gives back the state before.
pub proof fn lemma_typed_then_erased(state: EditorState, chars: Seq<char>)
    requires
        state.valid(),
    ensures
        typed(state, chars).valid(),
        erased(typed(state, chars), chars.len()) == state,
    decreases chars.len(),
{
    if chars.len() > 0 {
        let before = typed(state, chars.drop_last());
        lemma_typed_then_erased(state, chars.drop_last());
        lemma_type_then_backspace(before, chars.last());
        assert(typed(state, chars).backspace() == before);
    }
}

/// Breaking a line and then pressing backspace gives back the state before.
pub proof fn lemma_enter_then_backspace(state: EditorState)
    requires
        state.valid(),
    ensures
        state.enter().backspace() == state,
{
    let kept = state.current().subrange(0, state.column);
    let moved = state.current().subrange(state.column, state.current().len() as int);
    assert(kept + moved =~= state.current());
    assert(state.enter().backspace().lines =~= state.lines);
}

/// A key that types always changes the state, and so does Enter. Backspace
/// changes it everywhere but at the start of the document. The keys that the
/// editor ignores never change it.
pub proof fn lemma_what_changes(state: EditorState, ch: char)
    requires
        state.valid(),
    ensures
        state.press(KeyView::Printable(seq![ch])) != state,
        state.press(KeyView::Enter) != state,
        (state.press(KeyView::Backspace) != state) <==> (state.line > 0 || state.column > 0),
        state.press(KeyView::Delete) == state,
        state.press(KeyView::Escape) == state,
        state.press(KeyView::Shift) == state,
        state.press(KeyView::Control) == state,
        state.press(KeyView::Other) == state,
{
}

/// An arrow key never changes the text.
pub proof fn lemma_arrows_keep_text(state: EditorState)
    ensures
        state.left().lines == state.lines,
        state.right().lines == state.lines,
        state.up().lines == state.lines,
        state.down().lines == state.lines,
{
}

/// A text with no line break has one segment, which is the text itself.
pub proof fn lemma_segments_of_line(text: Seq<char>)
    requires
        !text.contains('\n'),
    ensures
        segments(text) == seq![text],
    decreases text.len(),
{
    if text.len() == 0 {
        assert(text =~= Seq::<char>::empty());
        assert(segments(text) =~= seq![text]);
    } else {
        let front = text.drop_last();
        assert forall|i: int| 0 <= i < front.len() implies front[i] != '\n' by {
            assert(text[i] == front[i]);
            assert(text.contains(text[i]));
        }
        assert(!front.contains('\n'));
        lemma_segments_of_line(front);
        assert(text.contains(text.last()));
        assert(front.push(text.last()) =~= text);
        assert(segments(text) =~= seq![text]);
    }
}

/// No segment of a text holds a line break.
pub proof fn lemma_segments_hold_no_break(text: Seq<char>)
    ensures
        forall|i: int| 0 <= i < segments(text).len() ==> !(#[trigger] segments(text)[i]).contains('\n'),
    decreases text.len(),
{
    if text.len() > 0 {
        lemma_segments_hold_no_break(text.drop_last());
        lemma_segments_nonempty(text.drop_last());
        let before = segments(text.drop_last());
        assert forall|i: int| 0 <= i < segments(text).len() implies !(#[trigger] segments(
            text,
        )[i]).contains('\n') by {
            if text.last() == '\n' {
                if i < before.len() {
                    assert(segments(text)[i] == before[i]);
                }
            } else if i < before.len() - 1 {
                assert(segments(text)[i] == before[i]);
            } else {
                let grown = before.last().push(text.last());
                assert(!before.last().contains('\n'));
                if grown.contains('\n') {
                    let j = choose|j: int| 0 <= j < grown.len() && grown[j] == '\n';
                    if j < before.last().len() {
                        assert(before.last()[j] == '\n');
                        assert(before.last().contains('\n'));
                    }
                }
            }
        }
    }
}

/// The text that the segments of a text spell when a line break follows each
/// of them is that text with one line break at its end.
pub proof fn lemma_segments_rendered(text: Seq<char>)
    ensures
        rendered(segments(text)) == text.push('\n'),
    decreases text.len(),
{
    if text.len() == 0 {
        let lines = segments(text);
        assert(lines.drop_last() =~= Seq::<Seq<char>>::empty());
        assert(rendered(lines.drop_last()) =~= Seq::<char>::empty());
        assert(rendered(lines) =~= text.push('\n'));
    } else {
        let front = text.drop_last();
        lemma_segments_rendered(front);
        lemma_segments_nonempty(front);
        let before = segments(front);
        let lines = segments(text);
        assert(rendered(before) == rendered(before.drop_last()) + before.last().push('\n'));
        if text.last() == '\n' {
            assert(lines.drop_last() =~= before);
            assert(rendered(lines) =~= front.push('\n').push('\n'));
            assert(front.push('\n') =~= text);
        } else {
            assert(lines.drop_last() =~= before.drop_last());
            assert(lines.last() == before.last().push(text.last()));
            let head = rendered(before.drop_last());
            assert(rendered(lines) =~= head + before.last().push(text.last()).push('\n'));
            assert((head + before.last().push('\n')).drop_last() =~= head + before.last());
            assert(front.push('\n').drop_last() =~= front);
            assert(head + before.last() == front);
            assert(rendered(lines) =~= front.push(text.last()).push('\n'));
            assert(front.push(text.last()) =~= text);
        }
    }
}

/// Pasting a text without a line break puts it at the caret and brings no new
/// line; the caret goes to the end of the line.
pub proof fn lemma_paste_of_line(state: EditorState, text: Seq<char>)
    requires
        state.valid(),
        !text.contains('\n'),
    ensures
        state.paste(text).lines == state.lines.update(
            state.line,
            state.current().subrange(0, state.column) + text + state.current().subrange(
                state.column,
                state.current().len() as int,
            ),
        ),
        state.paste(text).line == state.line,
        state.paste(text).column == state.current().len() + text.len(),
{
    lemma_segments_of_line(text);
    let before = state.current().subrange(0, state.column);
    assert(joined_to(before, segments(text)) =~= seq![before + text]);
    assert(state.paste(text).lines =~= state.lines.update(
        state.line,
        state.current().subrange(0, state.column) + text + state.current().subrange(
            state.column,
            state.current().len() as int,
        ),
    ));
}

} // verus!

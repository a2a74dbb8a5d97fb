use rust_text_editor::editor::{is_paste_key, Editor, EditorMsg, HostAction};
use rust_text_editor::key::KeyboardKey;
use rust_text_editor::position::Position;

fn printable(text: &str) -> KeyboardKey {
    KeyboardKey::Printable(text.to_string())
}

fn lines(texts: &[&str]) -> Vec<String> {
    texts.iter().map(|text| text.to_string()).collect()
}

fn at(line: usize, column: usize) -> Position {
    Position { line, column }
}

fn typed(text: &str) -> Editor {
    let mut editor = Editor::create();
    for ch in text.chars() {
        let key = if ch == '\n' { KeyboardKey::Enter } else { printable(&ch.to_string()) };
        assert!(editor.handle_insertions(&key));
    }
    editor
}

fn moved_left(mut editor: Editor, times: usize) -> Editor {
    for _ in 0..times {
        assert!(editor.handle_insertions(&KeyboardKey::ArrowLeft));
    }
    editor
}

#[test]
fn fresh_editor_is_one_empty_line() {
    let editor = Editor::create();
    assert_eq!(editor.content(), lines(&[""]));
    assert_eq!(editor.caret_position(), at(0, 0));
    assert_eq!(editor.line_count(), 1);
    assert!(editor.is_valid());
    assert!(!editor.is_held(&KeyboardKey::Control));
}

#[test]
fn typing_two_characters() {
    let mut editor = Editor::create();
    assert!(editor.handle_insertions(&printable("h")));
    assert!(editor.handle_insertions(&printable("i")));
    assert_eq!(editor.content(), lines(&["hi"]));
    assert_eq!(editor.caret_position(), at(0, 2));
}

#[test]
fn enter_after_typing() {
    let mut editor = typed("hi");
    assert!(editor.handle_insertions(&KeyboardKey::Enter));
    assert_eq!(editor.content(), lines(&["hi", ""]));
    assert_eq!(editor.caret_position(), at(1, 0));
}

#[test]
fn backspace_joins_lines() {
    let mut editor = typed("hi\n");
    assert!(editor.handle_insertions(&KeyboardKey::Backspace));
    assert_eq!(editor.content(), lines(&["hi"]));
    assert_eq!(editor.caret_position(), at(0, 2));
}

#[test]
fn backspace_joins_lines_and_keeps_what_follows() {
    let mut editor = moved_left(typed("ab\ncd"), 2);
    assert_eq!(editor.caret_position(), at(1, 0));
    assert!(editor.handle_insertions(&KeyboardKey::Backspace));
    assert_eq!(editor.content(), lines(&["abcd"]));
    assert_eq!(editor.caret_position(), at(0, 2));
}

#[test]
fn arrow_up_at_the_very_start_does_nothing() {
    let mut editor = moved_left(typed("abc"), 3);
    assert_eq!(editor.caret_position(), at(0, 0));
    assert!(!editor.handle_insertions(&KeyboardKey::ArrowUp));
    assert_eq!(editor.caret_position(), at(0, 0));
    assert_eq!(editor.content(), lines(&["abc"]));
}

#[test]
fn arrow_down_on_the_last_line_goes_to_its_end() {
    let mut editor = moved_left(typed("abc"), 3);
    assert!(editor.handle_insertions(&KeyboardKey::ArrowDown));
    assert_eq!(editor.caret_position(), at(0, 3));
    assert!(!editor.handle_insertions(&KeyboardKey::ArrowDown));
    assert_eq!(editor.caret_position(), at(0, 3));
}

#[test]
fn arrow_up_on_the_first_line_goes_to_its_start() {
    let mut editor = moved_left(typed("abc"), 1);
    assert!(editor.handle_insertions(&KeyboardKey::ArrowUp));
    assert_eq!(editor.caret_position(), at(0, 0));
}

#[test]
fn paste_of_two_lines() {
    let mut editor = moved_left(typed("abcd"), 2);
    assert_eq!(editor.caret_position(), at(0, 2));
    assert!(editor.handle_paste("X\nY"));
    assert_eq!(editor.content(), lines(&["abX", "Ycd"]));
    assert_eq!(editor.caret_position(), at(1, 3));
    assert!(editor.is_valid());
}

#[test]
fn paste_without_a_line_break() {
    let mut editor = moved_left(typed("abcd"), 2);
    assert!(editor.handle_paste("XY"));
    assert_eq!(editor.content(), lines(&["abXYcd"]));
    assert_eq!(editor.caret_position(), at(0, 6));
}

#[test]
fn paste_that_ends_in_a_line_break() {
    let mut editor = moved_left(typed("abcd"), 2);
    assert!(editor.handle_paste("X\n"));
    assert_eq!(editor.content(), lines(&["abX", "cd"]));
    assert_eq!(editor.caret_position(), at(1, 2));
}

#[test]
fn paste_of_three_lines_between_others() {
    let mut editor = typed("one\ntwo\nthree");
    assert!(editor.handle_insertions(&KeyboardKey::ArrowUp));
    assert!(editor.handle_insertions(&KeyboardKey::ArrowLeft));
    assert_eq!(editor.caret_position(), at(1, 2));
    assert!(editor.handle_paste("A\n\nB"));
    assert_eq!(editor.content(), lines(&["one", "twA", "", "Bo", "three"]));
    assert_eq!(editor.caret_position(), at(3, 2));
}

#[test]
fn paste_of_nothing_reports_a_change() {
    let mut editor = moved_left(typed("ab"), 1);
    assert!(editor.handle_paste(""));
    assert_eq!(editor.content(), lines(&["ab"]));
    assert_eq!(editor.caret_position(), at(0, 2));
}

#[test]
fn backspace_at_the_very_start_does_nothing() {
    let mut editor = Editor::create();
    assert!(!editor.handle_insertions(&KeyboardKey::Backspace));
    assert_eq!(editor.content(), lines(&[""]));
    assert_eq!(editor.caret_position(), at(0, 0));
}

#[test]
fn typing_then_erasing_gives_back_the_fresh_editor() {
    let mut editor = Editor::create();
    for text in ["a", "b", "c"] {
        assert!(editor.handle_insertions(&printable(text)));
    }
    assert_eq!(editor.content(), lines(&["abc"]));
    for _ in 0..3 {
        assert!(editor.handle_insertions(&KeyboardKey::Backspace));
    }
    assert_eq!(editor.content(), lines(&[""]));
    assert_eq!(editor.caret_position(), at(0, 0));
}

#[test]
fn typing_in_the_middle_of_a_line() {
    let mut editor = moved_left(typed("ac"), 1);
    assert!(editor.handle_insertions(&printable("b")));
    assert_eq!(editor.content(), lines(&["abc"]));
    assert_eq!(editor.caret_position(), at(0, 2));
}

#[test]
fn typing_a_character_of_several_bytes() {
    let mut editor = typed("é");
    assert_eq!(editor.caret_position(), at(0, 1));
    assert!(editor.handle_insertions(&printable("x")));
    assert_eq!(editor.content(), lines(&["éx"]));
    assert!(editor.handle_insertions(&KeyboardKey::ArrowLeft));
    assert!(editor.handle_insertions(&KeyboardKey::Backspace));
    assert_eq!(editor.content(), lines(&["x"]));
    assert_eq!(editor.caret_position(), at(0, 0));
}

#[test]
fn enter_in_the_middle_of_a_line() {
    let mut editor = moved_left(typed("abcd"), 1);
    assert!(editor.handle_insertions(&KeyboardKey::Enter));
    assert_eq!(editor.content(), lines(&["abc", "d"]));
    assert_eq!(editor.caret_position(), at(1, 0));
}

#[test]
fn arrow_left_and_right_cross_lines() {
    let mut editor = typed("ab\nc");
    assert!(editor.handle_insertions(&KeyboardKey::ArrowLeft));
    assert_eq!(editor.caret_position(), at(1, 0));
    assert!(editor.handle_insertions(&KeyboardKey::ArrowLeft));
    assert_eq!(editor.caret_position(), at(0, 2));
    assert!(editor.handle_insertions(&KeyboardKey::ArrowRight));
    assert_eq!(editor.caret_position(), at(1, 0));
    assert!(editor.handle_insertions(&KeyboardKey::ArrowRight));
    assert_eq!(editor.caret_position(), at(1, 1));
    assert!(!editor.handle_insertions(&KeyboardKey::ArrowRight));
    assert_eq!(editor.caret_position(), at(1, 1));
}

#[test]
fn arrow_left_at_the_very_start_does_nothing() {
    let mut editor = Editor::create();
    assert!(!editor.handle_insertions(&KeyboardKey::ArrowLeft));
    assert_eq!(editor.caret_position(), at(0, 0));
}

#[test]
fn arrow_up_and_down_keep_the_column_where_they_can() {
    let mut editor = typed("abcd\nx\nabc");
    assert_eq!(editor.caret_position(), at(2, 3));
    assert!(editor.handle_insertions(&KeyboardKey::ArrowUp));
    assert_eq!(editor.caret_position(), at(1, 1));
    assert!(editor.handle_insertions(&KeyboardKey::ArrowUp));
    assert_eq!(editor.caret_position(), at(0, 1));
    assert!(editor.handle_insertions(&KeyboardKey::ArrowRight));
    assert!(editor.handle_insertions(&KeyboardKey::ArrowRight));
    assert_eq!(editor.caret_position(), at(0, 3));
    assert!(editor.handle_insertions(&KeyboardKey::ArrowDown));
    assert_eq!(editor.caret_position(), at(1, 1));
    assert!(editor.handle_insertions(&KeyboardKey::ArrowDown));
    assert_eq!(editor.caret_position(), at(2, 1));
}

#[test]
fn keys_without_effect_change_nothing() {
    let mut editor = typed("ab");
    for key in [
        KeyboardKey::Delete,
        KeyboardKey::Escape,
        KeyboardKey::Shift,
        KeyboardKey::Control,
        KeyboardKey::Other,
    ] {
        assert!(!editor.handle_insertions(&key));
    }
    assert_eq!(editor.content(), lines(&["ab"]));
    assert_eq!(editor.caret_position(), at(0, 2));
}

#[test]
fn malformed_printable_keys_change_nothing() {
    let mut editor = typed("ab");
    assert!(!editor.handle_insertions(&printable("")));
    assert!(!editor.handle_insertions(&printable("F1")));
    assert_eq!(editor.content(), lines(&["ab"]));
    assert_eq!(editor.caret_position(), at(0, 2));
}

#[test]
fn the_state_stays_valid() {
    let mut editor = typed("ab\ncd");
    let keys = [
        KeyboardKey::ArrowUp,
        KeyboardKey::Backspace,
        KeyboardKey::Backspace,
        KeyboardKey::Backspace,
        KeyboardKey::Enter,
        KeyboardKey::ArrowDown,
        KeyboardKey::ArrowDown,
        KeyboardKey::ArrowRight,
        KeyboardKey::Backspace,
    ];
    for key in keys {
        editor.handle_insertions(&key);
        assert!(editor.is_valid());
        assert!(editor.line_count() >= 1);
        let caret = editor.caret_position();
        assert!(caret.line < editor.line_count());
        assert!(caret.column <= editor.content()[caret.line].chars().count());
    }
    editor.handle_paste("x\n\ny\n");
    assert!(editor.is_valid());
}

#[test]
fn text_is_every_line_with_a_line_break() {
    assert_eq!(Editor::create().text(), "\n");
    assert_eq!(typed("ab\n\ncd").text(), "ab\n\ncd\n");
}

#[test]
fn update_applies_a_key_and_holds_it() {
    let mut editor = Editor::create();
    let outcome = editor.update(EditorMsg::KeyPressed(printable("a")));
    assert_eq!(outcome, (true, HostAction::Nothing));
    assert_eq!(editor.content(), lines(&["a"]));
    assert!(editor.is_held(&printable("a")));
    let outcome = editor.update(EditorMsg::KeyUp(printable("a")));
    assert_eq!(outcome, (false, HostAction::Nothing));
    assert!(!editor.is_held(&printable("a")));
    assert_eq!(editor.content(), lines(&["a"]));
}

#[test]
fn update_reports_a_key_without_effect() {
    let mut editor = Editor::create();
    let outcome = editor.update(EditorMsg::KeyPressed(KeyboardKey::Shift));
    assert_eq!(outcome, (false, HostAction::Nothing));
    assert!(editor.is_held(&KeyboardKey::Shift));
}

#[test]
fn update_asks_for_the_clipboard() {
    let mut editor = Editor::create();
    editor.update(EditorMsg::KeyPressed(KeyboardKey::Control));
    let outcome = editor.update(EditorMsg::KeyPressed(printable("v")));
    assert_eq!(outcome, (true, HostAction::ReadClipboard));
    assert_eq!(editor.content(), lines(&[""]));
    assert_eq!(editor.caret_position(), at(0, 0));
    assert!(!editor.is_held(&printable("v")));
    assert!(editor.is_held(&KeyboardKey::Control));
}

#[test]
fn update_types_the_paste_key_when_control_is_up() {
    let mut editor = Editor::create();
    editor.update(EditorMsg::KeyPressed(KeyboardKey::Control));
    editor.update(EditorMsg::KeyUp(KeyboardKey::Control));
    let outcome = editor.update(EditorMsg::KeyPressed(printable("v")));
    assert_eq!(outcome, (true, HostAction::Nothing));
    assert_eq!(editor.content(), lines(&["v"]));
}

#[test]
fn update_pastes() {
    let mut editor = Editor::create();
    let outcome = editor.update(EditorMsg::Pasted("a\nb".to_string()));
    assert_eq!(outcome, (true, HostAction::Nothing));
    assert_eq!(editor.content(), lines(&["a", "b"]));
    assert_eq!(editor.caret_position(), at(1, 1));
}

#[test]
fn update_ignores_an_error() {
    let mut editor = typed("a");
    let outcome = editor.update(EditorMsg::Error);
    assert_eq!(outcome, (false, HostAction::Nothing));
    assert_eq!(editor.content(), lines(&["a"]));
    assert_eq!(editor.caret_position(), at(0, 1));
}

#[test]
fn the_paste_key_is_the_letter_v() {
    assert!(is_paste_key(&printable("v")));
    assert!(!is_paste_key(&printable("V")));
    assert!(!is_paste_key(&printable("vv")));
    assert!(!is_paste_key(&KeyboardKey::Control));
}

//! Keys, as the editor understands them.

use crate::text::{chars_of, spells};
use vstd::prelude::*;
use vstd::std_specs::cmp::PartialEqSpecImpl;
use vstd::std_specs::convert::FromSpecImpl;

verus! {

/// One key of the keyboard.
///
/// A key that types a character is `Printable` and carries that character as a
/// text of length one. A `Printable` that carries any other text is malformed,
/// and the editor ignores it.
#[derive(Debug, Clone, Eq, Hash)]
pub enum KeyboardKey {
    Enter,
    Backspace,
    Delete,
    Escape,
    Shift,
    Control,
    ArrowDown,
    ArrowUp,
    ArrowLeft,
    ArrowRight,
    Printable(String),
    Other,
}

/// What a `KeyboardKey` stands for: the same variants, with the text of a
/// `Printable` as a sequence of characters.
pub enum KeyView {
    Enter,
    Backspace,
    Delete,
    Escape,
    Shift,
    Control,
    ArrowDown,
    ArrowUp,
    ArrowLeft,
    ArrowRight,
    Printable(Seq<char>),
    Other,
}

impl View for KeyboardKey {
    type V = KeyView;

    open spec fn view(&self) -> KeyView {
        match self {
            KeyboardKey::Enter => KeyView::Enter,
            KeyboardKey::Backspace => KeyView::Backspace,
            KeyboardKey::Delete => KeyView::Delete,
            KeyboardKey::Escape => KeyView::Escape,
            KeyboardKey::Shift => KeyView::Shift,
            KeyboardKey::Control => KeyView::Control,
            KeyboardKey::ArrowDown => KeyView::ArrowDown,
            KeyboardKey::ArrowUp => KeyView::ArrowUp,
            KeyboardKey::ArrowLeft => KeyView::ArrowLeft,
            KeyboardKey::ArrowRight => KeyView::ArrowRight,
            KeyboardKey::Printable(text) => KeyView::Printable(text@),
            KeyboardKey::Other => KeyView::Other,
        }
    }
}

/// Whether a character can be shown: every character but the control
/// characters, which are those up to U+001F and those from U+007F to U+009F.
pub open spec fn displayable(ch: char) -> bool {
    !(ch as u32 <= 0x1f || 0x7f <= ch as u32 <= 0x9f)
}

/// The key that a host's key identifier names.
///
/// The ten identifiers that name a key without a character give that key. Any
/// other identifier that is a single displayable character gives the
/// `Printable` key of that character. Everything else gives `Other`.
pub open spec fn key_named(name: Seq<char>) -> KeyView {
    if name == "Enter"@ {
        KeyView::Enter
    } else if name == "Backspace"@ {
        KeyView::Backspace
    } else if name == "Delete"@ {
        KeyView::Delete
    } else if name == "Escape"@ {
        KeyView::Escape
    } else if name == "Shift"@ {
        KeyView::Shift
    } else if name == "Control"@ {
        KeyView::Control
    } else if name == "ArrowDown"@ {
        KeyView::ArrowDown
    } else if name == "ArrowUp"@ {
        KeyView::ArrowUp
    } else if name == "ArrowLeft"@ {
        KeyView::ArrowLeft
    } else if name == "ArrowRight"@ {
        KeyView::ArrowRight
    } else if name.len() == 1 && displayable(name[0]) {
        KeyView::Printable(name)
    } else {
        KeyView::Other
    }
}

/// Tells whether a character can be shown.
pub fn is_displayable(ch: char) -> (shown: bool)
    ensures
        shown == displayable(ch),
{
    let code: u32 = ch as u32;
    !(code <= 0x1f || (0x7f <= code && code <= 0x9f))
}

impl PartialEq for KeyboardKey {
    /// Two keys are equal when they are the same variant and, for `Printable`,
    /// carry the same text.
    fn eq(&self, other: &KeyboardKey) -> (same: bool) {
        match self {
            KeyboardKey::Enter => matches!(other, KeyboardKey::Enter),
            KeyboardKey::Backspace => matches!(other, KeyboardKey::Backspace),
            KeyboardKey::Delete => matches!(other, KeyboardKey::Delete),
            KeyboardKey::Escape => matches!(other, KeyboardKey::Escape),
            KeyboardKey::Shift => matches!(other, KeyboardKey::Shift),
            KeyboardKey::Control => matches!(other, KeyboardKey::Control),
            KeyboardKey::ArrowDown => matches!(other, KeyboardKey::ArrowDown),
            KeyboardKey::ArrowUp => matches!(other, KeyboardKey::ArrowUp),
            KeyboardKey::ArrowLeft => matches!(other, KeyboardKey::ArrowLeft),
            KeyboardKey::ArrowRight => matches!(other, KeyboardKey::ArrowRight),
            KeyboardKey::Printable(text) => match other {
                KeyboardKey::Printable(other_text) => *text == *other_text,
                _ => false,
            },
            KeyboardKey::Other => matches!(other, KeyboardKey::Other),
        }
    }
}

impl PartialEqSpecImpl for KeyboardKey {
    open spec fn obeys_eq_spec() -> bool {
        true
    }

    open spec fn eq_spec(&self, other: &KeyboardKey) -> bool {
        self@ == other@
    }
}

impl<'a> From<&'a str> for KeyboardKey {
    /// Reads a host's key identifier.
    fn from(name: &'a str) -> (key: KeyboardKey)
        ensures
            key@ == key_named(name@),
    {
        let chars = chars_of(name);
        if spells(&chars, "Enter") {
            KeyboardKey::Enter
        } else if spells(&chars, "Backspace") {
            KeyboardKey::Backspace
        } else if spells(&chars, "Delete") {
            KeyboardKey::Delete
        } else if spells(&chars, "Escape") {
            KeyboardKey::Escape
        } else if spells(&chars, "Shift") {
            KeyboardKey::Shift
        } else if spells(&chars, "Control") {
            KeyboardKey::Control
        } else if spells(&chars, "ArrowDown") {
            KeyboardKey::ArrowDown
        } else if spells(&chars, "ArrowUp") {
            KeyboardKey::ArrowUp
        } else if spells(&chars, "ArrowLeft") {
            KeyboardKey::ArrowLeft
        } else if spells(&chars, "ArrowRight") {
            KeyboardKey::ArrowRight
        } else if chars.len() == 1 && is_displayable(chars[0]) {
            KeyboardKey::Printable(name.to_owned())
        } else {
            KeyboardKey::Other
        }
    }
}

/// A key may hold a `String`, and no spec function can build one, so `from`
/// states its result through the view of the key instead of through
/// `from_spec`.
impl<'a> FromSpecImpl<&'a str> for KeyboardKey {
    open spec fn obeys_from_spec() -> bool {
        false
    }

    open spec fn from_spec(name: &'a str) -> KeyboardKey {
        arbitrary()
    }
}

} // verus!

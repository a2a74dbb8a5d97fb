//! A block cursor that may blink or stay lit.

use crate::position::Position;
use vstd::prelude::*;

verus! {

/// What can happen to a cursor.
#[derive(Debug)]
pub enum CursorMsg {
    /// The blink timer fired.
    Blink,
}

/// What a cursor is given by the editor that shows it.
#[derive(Debug, Clone, Copy)]
pub struct CursorProperties {
    pub visible: bool,
    pub blinking: bool,
    pub position: Position,
}

/// A cursor.
#[derive(Debug)]
pub struct Cursor {
    pub position: Position,
    pub blinking: bool,
    pub visible: bool,
}

/// The style classes of a cursor that is shown.
pub open spec fn cursor_classes(visible: bool) -> Seq<char> {
    "absolute bg-gray-900 w-1 h-4"@ + if visible {
        " visible"@
    } else {
        " invisible"@
    }
}

impl Cursor {
    /// A cursor as its properties describe it.
    pub fn create(props: CursorProperties) -> (cursor: Cursor)
        ensures
            cursor.position == props.position,
            cursor.blinking == props.blinking,
            cursor.visible == props.visible,
    {
        Cursor { position: props.position, blinking: props.blinking, visible: props.visible }
    }

    /// A blink turns a blinking cursor on if it was off, and off if it was on.
    /// A cursor that does not blink is lit. The cursor is always to be drawn
    /// again.
    pub fn update(&mut self, msg: CursorMsg) -> (render: bool)
        ensures
            final(self).visible == (if old(self).blinking {
                !old(self).visible
            } else {
                true
            }),
            final(self).blinking == old(self).blinking,
            final(self).position == old(self).position,
            render,
    {
        if self.blinking {
            self.visible = !self.visible;
        } else {
            self.visible = true;
        }
        true
    }

    /// Takes over what the properties say. The cursor is always to be drawn
    /// again.
    pub fn change(&mut self, props: CursorProperties) -> (render: bool)
        ensures
            final(self).position == props.position,
            final(self).blinking == props.blinking,
            final(self).visible == props.visible,
            render,
    {
        self.position = props.position;
        self.blinking = props.blinking;
        self.visible = props.visible;
        true
    }

    /// The style classes under which the cursor is drawn.
    pub fn class_names(&self) -> (names: String)
        ensures
            names@ == cursor_classes(self.visible),
    {
        let names = "absolute bg-gray-900 w-1 h-4".to_owned();
        if self.visible {
            names.concat(" visible")
        } else {
            names.concat(" invisible")
        }
    }
}

} // verus!

//! The caret as it is shown: where it stands, and whether it is lit.

use crate::position::Position;
use vstd::prelude::*;

verus! {

/// The time between two blinks of a caret, in milliseconds.
pub const BLINK_MILLIS: u64 = 600;

/// What can happen to a caret.
#[derive(Debug)]
pub enum CaretMsg {
    /// The blink timer fired.
    Blink,
}

/// What a caret is given by the editor that shows it.
#[derive(Debug, Clone, Copy)]
pub struct CaretProperties {
    pub position: Position,
}

/// A blinking caret.
#[derive(Debug)]
pub struct Caret {
    pub position: Position,
    pub visible: bool,
}

/// The style classes of a caret that is shown.
pub open spec fn caret_classes(visible: bool) -> Seq<char> {
    "relative bg-gray-900 w-px-2 h-4 leading-tight"@ + if visible {
        " visible"@
    } else {
        " invisible"@
    }
}

impl Caret {
    /// A caret at the given place. It starts dark.
    pub fn create(props: CaretProperties) -> (caret: Caret)
        ensures
            caret.position == props.position,
            !caret.visible,
    {
        Caret { position: props.position, visible: false }
    }

    /// A blink turns the caret on if it was off, and off if it was on. The
    /// caret is always to be drawn again.
    pub fn update(&mut self, msg: CaretMsg) -> (render: bool)
        ensures
            final(self).visible == !old(self).visible,
            final(self).position == old(self).position,
            render,
    {
        self.visible = !self.visible;
        true
    }

    /// Moves the caret to the place it is given. The caret is always to be
    /// drawn again.
    pub fn change(&mut self, props: CaretProperties) -> (render: bool)
        ensures
            final(self).position == props.position,
            final(self).visible == old(self).visible,
            render,
    {
        self.position = props.position;
        true
    }

    /// The style classes under which the caret is drawn.
    pub fn class_names(&self) -> (names: String)
        ensures
            names@ == caret_classes(self.visible),
    {
        let names = "relative bg-gray-900 w-px-2 h-4 leading-tight".to_owned();
        if self.visible {
            names.concat(" visible")
        } else {
            names.concat(" invisible")
        }
    }
}

} // verus!

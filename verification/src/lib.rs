//! The editing core of a text editor widget: a buffer of lines, a caret, and
//! the rules by which key presses and pasted text change them.

pub mod buffer;
pub mod caret;
pub mod cursor;
pub mod editor;
pub mod held;
pub mod key;
pub mod laws;
pub mod line;
pub mod model;
pub mod position;
pub mod text;

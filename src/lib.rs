//! The navigation and rendering core of a small terminal text editor.
//!
//! A [`View`] owns a read-only text buffer, a cursor [`Location`] in buffer
//! coordinates and a [`ScrollOffset`] that maps a [`Size`]d viewport onto the
//! buffer. An [`Editor`] wraps a view, turns [`EditorCommand`]s into state
//! changes and describes every screen refresh as a list of [`DrawOp`]s that a
//! terminal front end carries out.
pub mod buffer;
pub mod command;
pub mod editor;
pub mod frame;
pub mod geometry;
pub mod scroll;
pub mod view;

pub use buffer::Buffer;
pub use command::{EditorCommand, InputEvent, Key, CONTROL};
pub use editor::Editor;
pub use frame::{DrawOp, NAME, VERSION};
pub use geometry::{CursorPosition, Direction, Location, ScrollOffset, Size};
pub use view::View;

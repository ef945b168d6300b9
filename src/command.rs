//! Logical editor commands, decoded from input events.
use vstd::prelude::*;

use crate::geometry::{Direction, Size};

verus! {

/// The modifier bit of the Control key in [`InputEvent::Key`]'s `modifiers`.
pub const CONTROL: u8 = 0b0000_0010;

/// A key as far as the editor tells keys apart.
#[derive(Clone, Copy, Debug, PartialEq, Eq, Structural)]
pub enum Key {
    Char(char),
    Left,
    Right,
    Up,
    Down,
    Home,
    End,
    PageUp,
    PageDown,
    Other,
}

/// A raw input event: a key press with its modifier bits (Shift 1, Control
/// 2, Alt 4, Super 8, Hyper 16, Meta 32), a new terminal size, or anything
/// else.
#[derive(Clone, Copy, Debug, PartialEq, Eq, Structural)]
pub enum InputEvent {
    Key { key: Key, modifiers: u8 },
    Resize { cols: u16, rows: u16 },
    Other,
}

/// What the editor is asked to do.
#[derive(Clone, Copy, Debug, PartialEq, Eq, Structural)]
pub enum EditorCommand {
    Ignore,
    Move(Direction),
    Resize(Size),
    Quit,
}

/// The command an event stands for: Control and `q` alone quit, the
/// arrow, Home, End and page keys move whatever the modifiers, a resize
/// carries the new size, and everything else is ignored.
pub open spec fn command_of(event: InputEvent) -> EditorCommand {
    match event {
        InputEvent::Key { key, modifiers } => match key {
            Key::Char(c) => if c == 'q' && modifiers == CONTROL {
                EditorCommand::Quit
            } else {
                EditorCommand::Ignore
            },
            Key::Left => EditorCommand::Move(Direction::Left),
            Key::Right => EditorCommand::Move(Direction::Right),
            Key::Up => EditorCommand::Move(Direction::Up),
            Key::Down => EditorCommand::Move(Direction::Down),
            Key::Home => EditorCommand::Move(Direction::Home),
            Key::End => EditorCommand::Move(Direction::End),
            Key::PageUp => EditorCommand::Move(Direction::PageUp),
            Key::PageDown => EditorCommand::Move(Direction::PageDown),
            Key::Other => EditorCommand::Ignore,
        },
        InputEvent::Resize { cols, rows } => EditorCommand::Resize(Size { rows: rows as usize, cols: cols as usize }),
        InputEvent::Other => EditorCommand::Ignore,
    }
}

impl From<InputEvent> for EditorCommand {
    fn from(event: InputEvent) -> (r: EditorCommand) {
        match event {
            InputEvent::Key { key, modifiers } => match key {
                Key::Char(c) => if c == 'q' && modifiers == CONTROL {
                    EditorCommand::Quit
                } else {
                    EditorCommand::Ignore
                },
                Key::Left => EditorCommand::Move(Direction::Left),
                Key::Right => EditorCommand::Move(Direction::Right),
                Key::Up => EditorCommand::Move(Direction::Up),
                Key::Down => EditorCommand::Move(Direction::Down),
                Key::Home => EditorCommand::Move(Direction::Home),
                Key::End => EditorCommand::Move(Direction::End),
                Key::PageUp => EditorCommand::Move(Direction::PageUp),
                Key::PageDown => EditorCommand::Move(Direction::PageDown),
                Key::Other => EditorCommand::Ignore,
            },
            InputEvent::Resize { cols, rows } => EditorCommand::Resize(
                Size { rows: rows as usize, cols: cols as usize },
            ),
            InputEvent::Other => EditorCommand::Ignore,
        }
    }
}

impl vstd::std_specs::convert::FromSpecImpl<InputEvent> for EditorCommand {
    open spec fn obeys_from_spec() -> bool {
        true
    }

    open spec fn from_spec(event: InputEvent) -> EditorCommand {
        command_of(event)
    }
}

} // verus!

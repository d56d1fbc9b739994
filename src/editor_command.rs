use vstd::prelude::*;
use crate::terminal::Size;

verus! {

/// The bit of a key event's modifier set that stands for the Control key.
pub const CONTROL: u8 = 0b0000_0010;

/// A key of the keyboard, as far as the decoder tells keys apart.
#[derive(Clone, Copy, Debug, PartialEq, Eq, Structural)]
pub enum KeyCode {
    Char(char),
    Up,
    Down,
    Left,
    Right,
    PageUp,
    PageDown,
    Home,
    End,
    Other,
}

/// A key press: the key and the set of modifiers held, one bit each
/// (Shift, Control, Alt, Super, Hyper, Meta from the lowest bit up).
#[derive(Clone, Copy, Debug, PartialEq, Eq, Structural)]
pub struct KeyEvent {
    pub code: KeyCode,
    pub modifiers: u8,
}

/// An input event read from the terminal.
#[derive(Clone, Copy, Debug, PartialEq, Eq, Structural)]
pub enum Event {
    Key(KeyEvent),
    Resize(u16, u16),
    Other,
}

#[derive(Clone, Copy, Debug, PartialEq, Eq, Structural)]
pub enum Direction {
    PageUp,
    PageDown,
    Home,
    End,
    Up,
    Left,
    Right,
    Down,
}

#[derive(Clone, Copy, Debug, PartialEq, Eq, Structural)]
pub enum EditorCommand {
    Move(Direction),
    Resize(Size),
    Quit,
}

/// Why an event gives no command.
#[derive(Clone, Copy, Debug, PartialEq, Eq, Structural)]
pub enum DecodeError {
    UnsupportedKey(KeyCode),
    UnsupportedEvent,
}

/// The command a key press stands for, if any. Control-q quits; the arrow
/// keys and their aliases h, j, k, l move, as do the page and line keys.
pub open spec fn key_command(key: KeyEvent) -> Option<EditorCommand> {
    if key.code == KeyCode::Char('q') && key.modifiers == CONTROL {
        Some(EditorCommand::Quit)
    } else {
        match key.code {
            KeyCode::Up | KeyCode::Char('k') => Some(EditorCommand::Move(Direction::Up)),
            KeyCode::Down | KeyCode::Char('j') => Some(EditorCommand::Move(Direction::Down)),
            KeyCode::Left | KeyCode::Char('h') => Some(EditorCommand::Move(Direction::Left)),
            KeyCode::Right | KeyCode::Char('l') => Some(EditorCommand::Move(Direction::Right)),
            KeyCode::PageUp => Some(EditorCommand::Move(Direction::PageUp)),
            KeyCode::PageDown => Some(EditorCommand::Move(Direction::PageDown)),
            KeyCode::Home => Some(EditorCommand::Move(Direction::Home)),
            KeyCode::End => Some(EditorCommand::Move(Direction::End)),
            _ => None,
        }
    }
}

/// The command an event decodes to, or why it decodes to none.
pub open spec fn decode(event: Event) -> Result<EditorCommand, DecodeError> {
    match event {
        Event::Key(key) => match key_command(key) {
            Some(c) => Ok(c),
            None => Err(DecodeError::UnsupportedKey(key.code)),
        },
        Event::Resize(w, h) => Ok(
            EditorCommand::Resize(Size { width: w as usize, height: h as usize }),
        ),
        Event::Other => Err(DecodeError::UnsupportedEvent),
    }
}

impl EditorCommand {
    /// Decodes an input event into a command.
    pub fn try_from(event: Event) -> (r: Result<EditorCommand, DecodeError>)
        ensures
            r == decode(event),
    {
        match event {
            Event::Key(KeyEvent { code, modifiers }) => {
                if modifiers == CONTROL {
                    if let KeyCode::Char(c) = code {
                        if c == 'q' {
                            return Ok(EditorCommand::Quit);
                        }
                    }
                }
                match code {
                    KeyCode::Up => Ok(EditorCommand::Move(Direction::Up)),
                    KeyCode::Down => Ok(EditorCommand::Move(Direction::Down)),
                    KeyCode::Left => Ok(EditorCommand::Move(Direction::Left)),
                    KeyCode::Right => Ok(EditorCommand::Move(Direction::Right)),
                    KeyCode::PageUp => Ok(EditorCommand::Move(Direction::PageUp)),
                    KeyCode::PageDown => Ok(EditorCommand::Move(Direction::PageDown)),
                    KeyCode::Home => Ok(EditorCommand::Move(Direction::Home)),
                    KeyCode::End => Ok(EditorCommand::Move(Direction::End)),
                    KeyCode::Char(c) => {
                        if c == 'k' {
                            Ok(EditorCommand::Move(Direction::Up))
                        } else if c == 'j' {
                            Ok(EditorCommand::Move(Direction::Down))
                        } else if c == 'h' {
                            Ok(EditorCommand::Move(Direction::Left))
                        } else if c == 'l' {
                            Ok(EditorCommand::Move(Direction::Right))
                        } else {
                            Err(DecodeError::UnsupportedKey(code))
                        }
                    },
                    KeyCode::Other => Err(DecodeError::UnsupportedKey(code)),
                }
            },
            Event::Resize(width_16, height_16) => {
                let height = height_16 as usize;
                let width = width_16 as usize;
                Ok(EditorCommand::Resize(Size { width, height }))
            },
            Event::Other => Err(DecodeError::UnsupportedEvent),
        }
    }
}

} // verus!

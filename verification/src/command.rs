//! Commands, and the reading of input events as commands.

use vstd::prelude::*;
use crate::geometry::Size;

verus! {

/// No modifier key is held.
pub const MODIFIER_NONE: u8 = 0;

/// The shift key is held.
pub const MODIFIER_SHIFT: u8 = 1;

/// The control key is held.
pub const MODIFIER_CONTROL: u8 = 2;

/// The key of a key event, as far as commands depend on it.
#[derive(Clone, Copy, Debug, PartialEq, Eq, Structural)]
pub enum KeyCode {
    Backspace,
    Enter,
    Up,
    Down,
    PageUp,
    PageDown,
    Tab,
    Delete,
    Esc,
    Char(char),
    /// Any other key.
    Other,
}

/// What happened to the key.
#[derive(Clone, Copy, Debug, PartialEq, Eq, Structural)]
pub enum KeyEventKind {
    Press,
    Repeat,
    Release,
}

/// A key event: the key, the set of modifier keys held with it as a bit
/// set, and what happened to the key.
#[derive(Clone, Copy, Debug, PartialEq, Eq, Structural)]
pub struct KeyEvent {
    pub code: KeyCode,
    pub modifiers: u8,
    pub kind: KeyEventKind,
}

/// An input event.
#[derive(Clone, Copy, Debug, PartialEq, Eq, Structural)]
pub enum Event {
    Key(KeyEvent),
    /// The screen has a new size, given as columns and rows.
    Resize(u16, u16),
    /// Any other event.
    Other,
}

/// A command that edits the text being entered.
#[derive(Clone, Copy, Debug, PartialEq, Eq, Structural)]
pub enum Edit {
    Insert(char),
    InsertNewLine,
    Delete,
    DeleteBackward,
}

/// A command that moves the selection.
#[derive(Clone, Copy, Debug, PartialEq, Eq, Structural)]
pub enum Move {
    PageUp,
    PageDown,
    Up,
    Down,
}

/// A command to the program as a whole.
#[derive(Clone, Copy, Debug, PartialEq, Eq, Structural)]
pub enum System {
    Save,
    Resize(Size),
    Quit,
    Dismiss,
    Search,
}

/// A command.
#[derive(Clone, Copy, Debug, PartialEq, Eq, Structural)]
pub enum Command {
    Move(Move),
    Edit(Edit),
    System(System),
}

impl Edit {
    /// The edit command that a key event stands for, if any.
    pub open spec fn of_key(event: KeyEvent) -> Option<Edit> {
        match event.code {
            KeyCode::Char(c) => if event.modifiers == MODIFIER_NONE || event.modifiers == MODIFIER_SHIFT {
                Some(Edit::Insert(c))
            } else {
                None
            },
            KeyCode::Tab => if event.modifiers == MODIFIER_NONE {
                Some(Edit::Insert('\t'))
            } else {
                None
            },
            KeyCode::Enter => if event.modifiers == MODIFIER_NONE {
                Some(Edit::InsertNewLine)
            } else {
                None
            },
            KeyCode::Backspace => if event.modifiers == MODIFIER_NONE {
                Some(Edit::DeleteBackward)
            } else {
                None
            },
            KeyCode::Delete => if event.modifiers == MODIFIER_NONE {
                Some(Edit::Delete)
            } else {
                None
            },
            _ => None,
        }
    }

    /// Reads a key event as an edit command: a character with no modifier or
    /// with shift is inserted, and tab, enter, backspace and delete count with
    /// no modifier.
    pub fn try_from(event: KeyEvent) -> (r: Option<Self>)
        ensures
            r == Self::of_key(event),
    {
        let plain = event.modifiers == MODIFIER_NONE;
        match event.code {
            KeyCode::Char(c) => if plain || event.modifiers == MODIFIER_SHIFT {
                Some(Edit::Insert(c))
            } else {
                None
            },
            KeyCode::Tab => if plain {
                Some(Edit::Insert('\t'))
            } else {
                None
            },
            KeyCode::Enter => if plain {
                Some(Edit::InsertNewLine)
            } else {
                None
            },
            KeyCode::Backspace => if plain {
                Some(Edit::DeleteBackward)
            } else {
                None
            },
            KeyCode::Delete => if plain {
                Some(Edit::Delete)
            } else {
                None
            },
            _ => None,
        }
    }
}

impl Move {
    /// The move command that a key event stands for, if any.
    pub open spec fn of_key(event: KeyEvent) -> Option<Move> {
        if event.modifiers == MODIFIER_NONE {
            match event.code {
                KeyCode::PageUp => Some(Move::PageUp),
                KeyCode::PageDown => Some(Move::PageDown),
                KeyCode::Down => Some(Move::Down),
                KeyCode::Up => Some(Move::Up),
                KeyCode::Char(c) => if c == 'j' {
                    Some(Move::Down)
                } else if c == 'k' {
                    Some(Move::Up)
                } else {
                    None
                },
                _ => None,
            }
        } else {
            None
        }
    }

    /// Reads a key event as a move command: the arrow and page keys, and the
    /// letters `j` and `k`, with no modifier.
    pub fn try_from(event: KeyEvent) -> (r: Option<Self>)
        ensures
            r == Self::of_key(event),
    {
        if event.modifiers == MODIFIER_NONE {
            match event.code {
                KeyCode::PageUp => Some(Move::PageUp),
                KeyCode::PageDown => Some(Move::PageDown),
                KeyCode::Down => Some(Move::Down),
                KeyCode::Up => Some(Move::Up),
                KeyCode::Char(c) => if c == 'j' {
                    Some(Move::Down)
                } else if c == 'k' {
                    Some(Move::Up)
                } else {
                    None
                },
                _ => None,
            }
        } else {
            None
        }
    }
}

impl System {
    /// The system command that a key event stands for, if any.
    pub open spec fn of_key(event: KeyEvent) -> Option<System> {
        if event.modifiers == MODIFIER_CONTROL {
            match event.code {
                KeyCode::Char(c) => if c == 's' {
                    Some(System::Save)
                } else if c == 'q' {
                    Some(System::Quit)
                } else if c == 'f' {
                    Some(System::Search)
                } else if c == 'c' {
                    Some(System::Dismiss)
                } else {
                    None
                },
                _ => None,
            }
        } else if event.modifiers == MODIFIER_NONE && event.code == KeyCode::Esc {
            Some(System::Dismiss)
        } else {
            None
        }
    }

    /// Reads a key event as a system command: control with `s`, `q`, `f` or
    /// `c`, and escape with no modifier.
    pub fn try_from(event: KeyEvent) -> (r: Option<Self>)
        ensures
            r == Self::of_key(event),
    {
        if event.modifiers == MODIFIER_CONTROL {
            match event.code {
                KeyCode::Char(c) => if c == 's' {
                    Some(System::Save)
                } else if c == 'q' {
                    Some(System::Quit)
                } else if c == 'f' {
                    Some(System::Search)
                } else if c == 'c' {
                    Some(System::Dismiss)
                } else {
                    None
                },
                _ => None,
            }
        } else if event.modifiers == MODIFIER_NONE {
            match event.code {
                KeyCode::Esc => Some(System::Dismiss),
                _ => None,
            }
        } else {
            None
        }
    }
}

impl Command {
    /// The command that an input event stands for, if any. A key event is
    /// read as an edit command first, then as a move command, then as a
    /// system command. A new size of the screen is a system command.
    pub open spec fn of_event(event: Event) -> Option<Command> {
        match event {
            Event::Key(key) => match Edit::of_key(key) {
                Some(edit) => Some(Command::Edit(edit)),
                None => match Move::of_key(key) {
                    Some(motion) => Some(Command::Move(motion)),
                    None => match System::of_key(key) {
                        Some(system) => Some(Command::System(system)),
                        None => None,
                    },
                },
            },
            Event::Resize(width, height) => Some(
                Command::System(System::Resize(Size { height: height as usize, width: width as usize })),
            ),
            Event::Other => None,
        }
    }

    /// Reads an input event as a command; an event that stands for none is
    /// not a command.
    pub fn try_from(event: Event) -> (r: Option<Self>)
        ensures
            r == Self::of_event(event),
    {
        match event {
            Event::Key(key) => match Edit::try_from(key) {
                Some(edit) => Some(Command::Edit(edit)),
                None => match Move::try_from(key) {
                    Some(motion) => Some(Command::Move(motion)),
                    None => match System::try_from(key) {
                        Some(system) => Some(Command::System(system)),
                        None => None,
                    },
                },
            },
            Event::Resize(width, height) => Some(
                Command::System(System::Resize(Size { height: height as usize, width: width as usize })),
            ),
            Event::Other => None,
        }
    }
}

} // verus!

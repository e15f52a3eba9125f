//! Input events, as far as the interaction context reads them.

use vstd::prelude::*;

use crate::geometry::Position;

verus! {

/// The key that a key event is about.
#[derive(Copy, Clone, Debug, PartialEq, Eq, Structural)]
pub enum KeyCode {
    /// A key that produces a character.
    Char(char),
    /// Any other key.
    Other,
}

#[derive(Copy, Clone, Debug, PartialEq, Eq, Structural)]
pub enum KeyEventKind {
    Press,
    Repeat,
    Release,
}

#[derive(Copy, Clone, Debug, PartialEq, Eq, Structural)]
pub struct KeyEvent {
    pub code: KeyCode,
    pub kind: KeyEventKind,
}

#[derive(Copy, Clone, Debug, PartialEq, Eq, Structural)]
pub enum MouseButton {
    Left,
    Right,
    Middle,
}

#[derive(Copy, Clone, Debug, PartialEq, Eq, Structural)]
pub enum MouseEventKind {
    Down(MouseButton),
    Up(MouseButton),
    Drag(MouseButton),
    Moved,
    ScrollDown,
    ScrollUp,
    ScrollLeft,
    ScrollRight,
}

#[derive(Copy, Clone, Debug, PartialEq, Eq, Structural)]
pub struct MouseEvent {
    pub kind: MouseEventKind,
    pub column: u16,
    pub row: u16,
}

/// One input event. At most one is live in a frame.
#[derive(Copy, Clone, Debug, PartialEq, Eq, Structural)]
pub enum Event {
    FocusGained,
    FocusLost,
    Key(KeyEvent),
    Mouse(MouseEvent),
    Paste,
    Resize(u16, u16),
}

/// The character of the key that asks the interface to quit.
pub const QUIT_KEY: char = 'q';

impl KeyEvent {
    /// Whether this is a press of the quit key.
    pub open spec fn spec_is_quit(self) -> bool {
        self.kind == KeyEventKind::Press && self.code == KeyCode::Char(QUIT_KEY)
    }

    /// Whether this is a press of the quit key. A repeat or a release of
    /// that key is not.
    #[verifier::when_used_as_spec(spec_is_quit)]
    pub fn is_quit(self) -> (quit: bool)
        ensures
            quit == self.spec_is_quit(),
    {
        self.kind == KeyEventKind::Press && self.code == KeyCode::Char(QUIT_KEY)
    }
}

impl MouseEvent {
    /// The cell the pointer was on.
    pub open spec fn spec_position(self) -> Position {
        Position { x: self.column, y: self.row }
    }

    /// The cell the pointer was on.
    #[verifier::when_used_as_spec(spec_position)]
    pub fn position(self) -> (p: Position)
        ensures
            p == self.spec_position(),
    {
        Position { x: self.column, y: self.row }
    }
}

impl Event {
    /// Whether this is a press of the quit key.
    pub open spec fn spec_is_quit(self) -> bool {
        self matches Event::Key(key) && key.is_quit()
    }

    /// Where the pointer is, if this is a movement of the pointer with no
    /// button held.
    pub open spec fn spec_moved_to(self) -> Option<Position> {
        match self {
            Event::Mouse(mouse) if mouse.kind == MouseEventKind::Moved => Some(mouse.position()),
            _ => None,
        }
    }

    /// Where a button went down, if this is such an event, whichever button
    /// it was.
    pub open spec fn spec_pressed_at(self) -> Option<Position> {
        match self {
            Event::Mouse(mouse) => match mouse.kind {
                MouseEventKind::Down(_) => Some(mouse.position()),
                _ => None,
            },
            _ => None,
        }
    }

    /// Where a button came up, if this is such an event, whichever button
    /// it was.
    pub open spec fn spec_released_at(self) -> Option<Position> {
        match self {
            Event::Mouse(mouse) => match mouse.kind {
                MouseEventKind::Up(_) => Some(mouse.position()),
                _ => None,
            },
            _ => None,
        }
    }

    /// Whether this is a press of the quit key.
    #[verifier::when_used_as_spec(spec_is_quit)]
    pub fn is_quit(self) -> (quit: bool)
        ensures
            quit == self.spec_is_quit(),
    {
        match self {
            Event::Key(key) => key.is_quit(),
            _ => false,
        }
    }

    /// Where the pointer is, if this is a movement of the pointer with no
    /// button held; `None` for every other event.
    #[verifier::when_used_as_spec(spec_moved_to)]
    pub fn moved_to(self) -> (at: Option<Position>)
        ensures
            at == self.spec_moved_to(),
    {
        match self {
            Event::Mouse(mouse) => {
                if mouse.kind == MouseEventKind::Moved {
                    Some(mouse.position())
                } else {
                    None
                }
            },
            _ => None,
        }
    }

    /// Where a button went down, if this is such an event, whichever button
    /// it was; `None` for every other event.
    #[verifier::when_used_as_spec(spec_pressed_at)]
    pub fn pressed_at(self) -> (at: Option<Position>)
        ensures
            at == self.spec_pressed_at(),
    {
        match self {
            Event::Mouse(mouse) => match mouse.kind {
                MouseEventKind::Down(_) => Some(mouse.position()),
                _ => None,
            },
            _ => None,
        }
    }

    /// Where a button came up, if this is such an event, whichever button
    /// it was; `None` for every other event.
    #[verifier::when_used_as_spec(spec_released_at)]
    pub fn released_at(self) -> (at: Option<Position>)
        ensures
            at == self.spec_released_at(),
    {
        match self {
            Event::Mouse(mouse) => match mouse.kind {
                MouseEventKind::Up(_) => Some(mouse.position()),
                _ => None,
            },
            _ => None,
        }
    }
}

} // verus!

//! Input as the application sees it.

use vstd::prelude::*;

verus! {

/// A key of the editor's keymap.
#[derive(Clone, Copy, Debug, PartialEq, Eq, Structural)]
pub enum Key {
    Char(char),
    Ctrl(char),
    Alt(char),
    Enter,
    Escape,
    Backspace,
    Delete,
    Tab,
    BackTab,
    Up,
    Down,
    Left,
    Right,
    Home,
    End,
    PageUp,
    PageDown,
}

/// One press or release of a key.
#[derive(Clone, Copy, Debug, PartialEq, Eq, Structural)]
pub struct KeyPress {
    /// Whether the key was let go rather than pressed or held.
    pub released: bool,
    /// The key as the keymap knows it, where it does.
    pub key: Option<Key>,
}

#[derive(Clone, Copy, Debug, PartialEq, Eq, Structural)]
pub enum MouseButton {
    Left,
    Right,
    Middle,
}

#[derive(Clone, Copy, Debug, PartialEq, Eq, Structural)]
pub enum MouseEventKind {
    Down(MouseButton),
    Up(MouseButton),
    Drag(MouseButton),
    Moved,
    ScrollDown,
    ScrollUp,
    ScrollLeft,
    ScrollRight,
}

/// A pointer event at a cell of the screen.
#[derive(Clone, Copy, Debug, PartialEq, Eq, Structural)]
pub struct MouseEvent {
    pub kind: MouseEventKind,
    pub column: u16,
    pub row: u16,
}

/// An event of the terminal.
#[derive(Debug)]
pub enum Event {
    Key(KeyPress),
    Paste(String),
    Resize(u16, u16),
    FocusGained,
    FocusLost,
    Mouse(MouseEvent),
}

impl Event {
    /// The key that an event presses, where the keymap knows it.
    pub open spec fn pressed(&self) -> Option<Key> {
        match self {
            Event::Key(press) => if press.released { None } else { press.key },
            _ => None,
        }
    }

    /// Whether the event lets a key go.
    pub open spec fn is_release(&self) -> bool {
        match self {
            Event::Key(press) => press.released,
            _ => false,
        }
    }

    /// The key that an event presses, where the keymap knows it.
    pub fn key(&self) -> (key: Option<Key>)
        ensures
            key == self.pressed(),
    {
        match self {
            Event::Key(press) => if press.released { None } else { press.key },
            _ => None,
        }
    }

    /// Whether the event lets a key go.
    pub fn released(&self) -> (yes: bool)
        ensures
            yes == self.is_release(),
    {
        match self {
            Event::Key(press) => press.released,
            _ => false,
        }
    }

    /// An equal event.
    pub fn duplicate(&self) -> (event: Event)
        ensures
            event == *self,
    {
        match self {
            Event::Key(press) => Event::Key(*press),
            Event::Paste(text) => Event::Paste(text.clone()),
            Event::Resize(width, height) => Event::Resize(*width, *height),
            Event::FocusGained => Event::FocusGained,
            Event::FocusLost => Event::FocusLost,
            Event::Mouse(mouse) => Event::Mouse(*mouse),
        }
    }
}

} // verus!

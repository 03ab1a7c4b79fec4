//! Input events, as the session engine sees them.

use vstd::prelude::*;

verus! {

/// A key, reduced to what the session distinguishes.
#[derive(Clone, Copy, Debug, PartialEq, Eq, Structural)]
pub enum Key {
    /// A printable character key.
    Char(char),
    /// The Enter key.
    Enter,
    /// The Escape key.
    Esc,
    /// The Backspace key.
    Backspace,
    /// Any other key.
    Other,
}

/// What happened to a key.
#[derive(Clone, Copy, Debug, PartialEq, Eq, Structural)]
pub enum KeyKind {
    /// The key went down.
    Press,
    /// The key is held and repeats.
    Repeat,
    /// The key went up.
    Release,
}

/// An event delivered by the terminal.
#[derive(Clone, Copy, Debug, PartialEq, Eq, Structural)]
pub enum InputEvent {
    /// A key event.
    Key { key: Key, kind: KeyKind },
    /// Anything else: mouse, resize, focus, paste.
    Other,
}

impl InputEvent {
    /// The key that this event dispatches, if any: only presses count, so
    /// that one physical press yields one transition.
    pub open spec fn pressed(self) -> Option<Key> {
        match self {
            InputEvent::Key { key, kind: KeyKind::Press } => Some(key),
            _ => None,
        }
    }

    /// The key of a press event; `None` for releases, repeats and events
    /// that are no key events.
    pub fn pressed_key(&self) -> (key: Option<Key>)
        ensures
            key == self.pressed(),
    {
        match *self {
            InputEvent::Key { key, kind } => match kind {
                KeyKind::Press => Some(key),
                _ => None,
            },
            InputEvent::Other => None,
        }
    }
}

} // verus!

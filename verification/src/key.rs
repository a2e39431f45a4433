//! Key presses as the terminal reports them, and the keys they stand for.

use vstd::prelude::*;
use vstd::std_specs::convert::FromSpecImpl;

verus! {

/// The modifier bit for the shift key.
pub const SHIFT: u8 = 1;

/// The modifier bit for the control key.
pub const CONTROL: u8 = 2;

/// The modifier bit for the alt key.
pub const ALT: u8 = 4;

/// Which key was pressed.
#[derive(Clone, Copy, Debug, PartialEq, Eq, Structural)]
pub enum KeyCode {
    Char(char),
    Enter,
    Backspace,
    Left,
    Right,
    Up,
    Down,
    Esc,
    /// Any other key.
    Other,
}

/// One key press: the key, and the modifier keys held down with it as a set
/// of bits (`SHIFT`, `CONTROL`, `ALT` and higher bits for rarer modifiers).
#[derive(Clone, Copy, Debug, PartialEq, Eq, Structural)]
pub struct KeyPress {
    pub code: KeyCode,
    pub modifiers: u8,
}

/// A key press reduced to what the shell tells apart.
#[derive(Clone, Copy, Debug, PartialEq, Eq, Structural)]
pub enum Key {
    /// A character, typed with any modifiers other than control alone.
    Char(char),
    /// A character typed with control, and nothing else, held down.
    Ctrl(char),
    Esc,
    Unknown,
}

impl Key {
    /// The key that a key press stands for.
    pub open spec fn of(press: KeyPress) -> Key {
        match press.code {
            KeyCode::Char(c) => if press.modifiers == CONTROL {
                Key::Ctrl(c)
            } else {
                Key::Char(c)
            },
            KeyCode::Esc => Key::Esc,
            _ => Key::Unknown,
        }
    }
}

impl FromSpecImpl<KeyPress> for Key {
    open spec fn obeys_from_spec() -> bool {
        true
    }

    open spec fn from_spec(press: KeyPress) -> Key {
        Key::of(press)
    }
}

impl From<KeyPress> for Key {
    fn from(press: KeyPress) -> (key: Key) {
        match press.code {
            KeyCode::Char(c) => if press.modifiers == CONTROL {
                Key::Ctrl(c)
            } else {
                Key::Char(c)
            },
            KeyCode::Esc => Key::Esc,
            _ => Key::Unknown,
        }
    }
}

/// A key press as the shell's input routing takes it: a character, a key
/// to edit or submit the line, a key to move about, or one of the controls
/// that switch between the line and the panes.
#[derive(Clone, Copy, Debug, PartialEq, Eq, Structural)]
pub enum Keystroke {
    Char(char),
    Enter,
    Backspace,
    Left,
    Right,
    Up,
    Down,
    /// Escape: switch between editing the line and talking to a pane.
    SwitchMode,
    /// Control with `p`: make the pane before the active one active.
    PreviousPane,
    /// Control with `n`: make the pane behind the active one active.
    NextPane,
    /// A key press that means nothing to the shell.
    Other,
}

impl Keystroke {
    /// How a key press is taken.
    pub open spec fn of(press: KeyPress) -> Keystroke {
        match press.code {
            KeyCode::Enter => Keystroke::Enter,
            KeyCode::Backspace => Keystroke::Backspace,
            KeyCode::Left => Keystroke::Left,
            KeyCode::Right => Keystroke::Right,
            KeyCode::Up => Keystroke::Up,
            KeyCode::Down => Keystroke::Down,
            _ => match Key::of(press) {
                Key::Char(c) => Keystroke::Char(c),
                Key::Ctrl(c) => if c == 'p' {
                    Keystroke::PreviousPane
                } else if c == 'n' {
                    Keystroke::NextPane
                } else {
                    Keystroke::Other
                },
                Key::Esc => Keystroke::SwitchMode,
                Key::Unknown => Keystroke::Other,
            },
        }
    }

    /// How a key press is taken.
    pub fn from_press(press: KeyPress) -> (keystroke: Keystroke)
        ensures
            keystroke == Keystroke::of(press),
    {
        match press.code {
            KeyCode::Enter => Keystroke::Enter,
            KeyCode::Backspace => Keystroke::Backspace,
            KeyCode::Left => Keystroke::Left,
            KeyCode::Right => Keystroke::Right,
            KeyCode::Up => Keystroke::Up,
            KeyCode::Down => Keystroke::Down,
            _ => match Key::from(press) {
                Key::Char(c) => Keystroke::Char(c),
                Key::Ctrl(c) => if c == 'p' {
                    Keystroke::PreviousPane
                } else if c == 'n' {
                    Keystroke::NextPane
                } else {
                    Keystroke::Other
                },
                Key::Esc => Keystroke::SwitchMode,
                Key::Unknown => Keystroke::Other,
            },
        }
    }
}

} // verus!

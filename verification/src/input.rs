//! How the shell takes its input, and when the reading of input ends.

use vstd::prelude::*;
use crate::key::Key;

verus! {

/// Where key presses go.
#[derive(Clone, Copy, Debug, PartialEq, Eq, Structural)]
pub enum InputMode {
    /// To the line that the user edits and submits.
    Command,
    /// To the program of the active pane.
    Interact,
}

/// What the reader of the terminal passes on: an input, or the time to redraw.
#[derive(Clone, Copy, Debug, PartialEq, Eq)]
pub enum TerminalEvent<I> {
    Input(I),
    Tick,
}

/// How the terminal is read.
#[derive(Clone, Copy, Debug, PartialEq, Eq)]
pub struct Config {
    /// The key that ends the reading of input.
    pub exit_key: Key,
    /// The time between two redraws, in milliseconds.
    pub tick_rate: u64,
}

impl Default for Config {
    /// The terminal is read until `q` is pressed, and redrawn every 150
    /// milliseconds.
    fn default() -> (config: Config)
        ensures
            config.exit_key == Key::Char('q'),
            config.tick_rate == 150,
    {
        Config { exit_key: Key::Char('q'), tick_rate: 150 }
    }
}

impl Config {
    /// Whether the reading of input ends once `event` was passed on.
    pub open spec fn ends_with(self, event: TerminalEvent<Key>, ignore_exit_key: bool) -> bool {
        !ignore_exit_key && event == TerminalEvent::Input(self.exit_key)
    }

    /// Whether the reading of input ends once `event` was passed on: it ends
    /// with the exit key, unless that key is to be ignored.
    pub fn ends_input(&self, event: &TerminalEvent<Key>, ignore_exit_key: bool) -> (ends: bool)
        ensures
            ends == self.ends_with(*event, ignore_exit_key),
    {
        match event {
            TerminalEvent::Input(key) => !ignore_exit_key && *key == self.exit_key,
            TerminalEvent::Tick => false,
        }
    }
}

} // verus!

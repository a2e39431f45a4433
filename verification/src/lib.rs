//! The core of a shell that runs several programs side by side, each in its
//! own output pane: the model of a running program, the bounded set of panes,
//! the command history and the state machine that routes keystrokes.

pub mod bounded;
pub mod cache;
pub mod command;
pub mod config;
pub mod course;
pub mod cursor;
pub mod effect;
pub mod error;
pub mod event;
pub mod frame;
pub mod history;
pub mod inbuilt;
pub mod input;
pub mod key;
pub mod pane;
pub mod pane_set;
pub mod pty;
pub mod shell;
pub mod state;
pub mod text;

//! What can go wrong while the shell runs.

use vstd::prelude::*;
use vstd::string::*;

verus! {

/// Why a built-in command could not find the pane it was asked for.
#[derive(Clone, Copy, Debug, PartialEq, Eq, Structural)]
pub enum Lookup {
    /// The arguments are missing or are not of the expected form.
    IncorrectArguments,
    /// There is no pane at all.
    NoPanes,
    /// The index names no pane.
    OutOfRange,
}

/// A failure of a command or of a pane. Each is local to the command or the
/// pane that produced it.
#[derive(Clone, Debug, PartialEq, Eq)]
pub enum Error {
    /// The program could not be started.
    SpawnFailed { reason: String },
    /// Reading from or writing to a running program failed.
    RuntimeIoFailure,
    /// The program no longer takes input.
    ChannelClosed,
    /// A built-in command was given a pane index or an argument that it cannot use.
    LookupFailure(Lookup),
}

impl Error {
    /// The text shown on the status line for this error.
    pub open spec fn text(self) -> Seq<char> {
        match self {
            Error::SpawnFailed { reason } => reason@,
            Error::RuntimeIoFailure => "input/output failure"@,
            Error::ChannelClosed => "sending on a closed channel"@,
            Error::LookupFailure(Lookup::IncorrectArguments) => "incorrect arguments"@,
            Error::LookupFailure(Lookup::NoPanes) => "no panes to communicate with"@,
            Error::LookupFailure(Lookup::OutOfRange) => "no such pane"@,
        }
    }

    /// The text shown on the status line for this error.
    pub fn message(&self) -> (message: String)
        ensures
            message@ == self.text(),
    {
        match self {
            Error::SpawnFailed { reason } => reason.clone(),
            Error::RuntimeIoFailure => String::from_str("input/output failure"),
            Error::ChannelClosed => String::from_str("sending on a closed channel"),
            Error::LookupFailure(Lookup::IncorrectArguments) => String::from_str(
                "incorrect arguments",
            ),
            Error::LookupFailure(Lookup::NoPanes) => String::from_str(
                "no panes to communicate with",
            ),
            Error::LookupFailure(Lookup::OutOfRange) => String::from_str("no such pane"),
        }
    }
}

} // verus!

//! What is handed to the pseudo-terminal system to start a program.

use vstd::prelude::*;
use portable_pty::{CommandBuilder, PtySize};
use crate::command::TerminalSize;
use crate::effect::SpawnRequest;
use crate::text::strings_view;

verus! {

/// `portable_pty::CommandBuilder`, the command line that is built up
/// before a program is started. Of what it holds nothing is known here but
/// its words, by `argv`.
#[verifier::external_type_specification]
#[verifier::external_body]
pub struct ExCommandBuilder(CommandBuilder);

/// `portable_pty::PtySize`, the size of a pseudo-terminal. It is read as it
/// is declared: four public numbers, the rows, the columns, and the width
/// and height of a cell in pixels.
#[verifier::external_type_specification]
pub struct ExPtySize(PtySize);

/// The words of the command line that `builder` holds, as
/// `CommandBuilder::get_argv` hands them out: the program first, then its
/// arguments.
pub uninterp spec fn argv(builder: CommandBuilder) -> Seq<Seq<char>>;

/// `CommandBuilder::new` makes a command line that holds the program and
/// nothing else.
#[verifier::external_body]
fn command_line(program: &str) -> (builder: CommandBuilder)
    ensures
        argv(builder) == seq![program@],
{
    CommandBuilder::new(program)
}

/// `CommandBuilder::arg` adds one word at the end of the command line. It
/// panics on a command line without a program.
#[verifier::external_body]
fn add_argument(builder: &mut CommandBuilder, arg: &str)
    requires
        argv(*old(builder)).len() > 0,
    ensures
        argv(*final(builder)) == argv(*old(builder)).push(arg@),
{
    builder.arg(arg)
}

impl SpawnRequest {
    /// The command line of the program to start: the program, then its
    /// arguments in order.
    pub fn builder(&self) -> (builder: CommandBuilder)
        ensures
            argv(builder) == seq![self@.program] + self@.args,
    {
        let mut builder = command_line(self.program.as_str());
        let mut i: usize = 0;
        while i < self.args.len()
            invariant
                i <= self.args.len(),
                argv(builder) == seq![self@.program] + self@.args.take(i as int),
            decreases self.args.len() - i,
        {
            add_argument(&mut builder, self.args[i].as_str());
            i += 1;
        }
        builder
    }
}

/// The size of the pseudo-terminal for a terminal of `size`: as many rows
/// and columns, and no size in pixels.
pub fn pty_size(size: TerminalSize) -> (pty: PtySize)
    ensures
        pty.rows == size.rows,
        pty.cols == size.cols,
        pty.pixel_width == 0,
        pty.pixel_height == 0,
{
    PtySize { rows: size.rows, cols: size.cols, pixel_width: 0, pixel_height: 0 }
}

} // verus!

//! A pane: one program together with how its output is shown.

use vstd::prelude::*;
use crate::command::{Command, CommandView, Read};
use crate::error::Error;

verus! {

/// The byte that ends a line.
pub const LINE_BREAK: u8 = 10;

/// `bytes` without its first `lines` lines. A line ends with a line break or
/// with the end of `bytes`.
pub open spec fn skip_lines(bytes: Seq<u8>, lines: nat) -> Seq<u8>
    decreases bytes.len(),
{
    if lines == 0 || bytes.len() == 0 {
        bytes
    } else if bytes[0] == LINE_BREAK {
        skip_lines(bytes.skip(1), (lines - 1) as nat)
    } else {
        skip_lines(bytes.skip(1), lines)
    }
}

/// What is left when lines are skipped is the end of the bytes: nothing is
/// altered, and nothing is left out but from the front.
pub proof fn skipping_leaves_a_tail(bytes: Seq<u8>, lines: nat)
    ensures
        skip_lines(bytes, lines).len() <= bytes.len(),
        skip_lines(bytes, lines) == bytes.skip(bytes.len() - skip_lines(bytes, lines).len()),
    decreases bytes.len(),
{
    if lines > 0 && bytes.len() > 0 {
        let left: nat = if bytes[0] == LINE_BREAK { (lines - 1) as nat } else { lines };
        skipping_leaves_a_tail(bytes.skip(1), left);
    }
}

/// The state of a pane.
pub struct PaneView {
    /// The name by which the pane's program is known outside.
    pub id: u64,
    pub command: CommandView,
    /// How many lines of the output are scrolled out of sight.
    pub offset: nat,
}

impl PaneView {
    /// The pane with its program asked to stop.
    pub open spec fn kill(self) -> PaneView {
        PaneView { command: self.command.kill(), ..self }
    }

    /// The pane after one item of input was handed to its program.
    pub open spec fn send(self, input: char) -> PaneView {
        PaneView { command: self.command.send(input), ..self }
    }

    /// The pane after each of `items` was handed to its program, in order.
    pub open spec fn send_all(self, items: Seq<char>) -> PaneView
        decreases items.len(),
    {
        if items.len() == 0 {
            self
        } else {
            self.send_all(items.drop_last()).send(items.last())
        }
    }

    /// The pane with one more line in sight, if any was out of sight.
    pub open spec fn scroll_up(self) -> PaneView {
        PaneView { offset: if self.offset > 0 { (self.offset - 1) as nat } else { 0 }, ..self }
    }

    /// The pane with one more line out of sight, as far as the machine counts.
    pub open spec fn scroll_down(self) -> PaneView {
        PaneView {
            offset: if self.offset < usize::MAX { self.offset + 1 } else { self.offset },
            ..self
        }
    }

    /// What the pane shows: the output from the first line in sight on.
    pub open spec fn render(self) -> Seq<u8> {
        skip_lines(self.command.output, self.offset)
    }
}

/// A program that takes no input is left as it is by whatever is handed to it.
pub proof fn refused_input_changes_nothing(pane: PaneView, items: Seq<char>)
    requires
        !pane.command.accepts_input(),
    ensures
        pane.send_all(items) == pane,
    decreases items.len(),
{
    if items.len() > 0 {
        refused_input_changes_nothing(pane, items.drop_last());
    }
}

/// One program and the view on its output.
#[derive(Debug)]
pub struct Pane {
    id: u64,
    command: Command,
    offset: usize,
}

impl View for Pane {
    type V = PaneView;

    closed spec fn view(&self) -> PaneView {
        PaneView { id: self.id, command: self.command@, offset: self.offset as nat }
    }
}

impl Pane {
    /// A pane for `command`, known outside as `id`, with nothing scrolled
    /// out of sight.
    pub fn new(id: u64, command: Command) -> (pane: Self)
        ensures
            pane@ == (PaneView { id, command: command@, offset: 0 }),
    {
        Self { id, command, offset: 0 }
    }

    /// The name by which the pane's program is known outside.
    pub fn id(&self) -> (id: u64)
        ensures
            id == self@.id,
    {
        self.id
    }

    /// How many lines are scrolled out of sight.
    pub fn offset(&self) -> (offset: usize)
        ensures
            offset == self@.offset,
    {
        self.offset
    }

    /// The pane's program.
    pub fn command(&self) -> (command: &Command)
        ensures
            command@ == self@.command,
    {
        &self.command
    }

    /// Brings one more line back into sight, if any is out of sight.
    pub fn scroll_up(&mut self)
        ensures
            final(self)@ == old(self)@.scroll_up(),
    {
        if self.offset > 0 {
            self.offset -= 1;
        }
    }

    /// Scrolls one more line out of sight.
    pub fn scroll_down(&mut self)
        ensures
            final(self)@ == old(self)@.scroll_down(),
    {
        if self.offset < usize::MAX {
            self.offset += 1;
        }
    }

    /// Hands one character to the program's input.
    pub fn send(&mut self, input: char) -> (result: Result<(), Error>)
        ensures
            final(self)@ == old(self)@.send(input),
            old(self)@.command.accepts_input() ==> result is Ok,
            !old(self)@.command.accepts_input() ==> result == Err::<(), Error>(
                Error::ChannelClosed,
            ),
    {
        self.command.send_char(input)
    }

    /// Whether the program takes input.
    pub fn accepts_input(&self) -> (accepts: bool)
        ensures
            accepts == self@.command.accepts_input(),
    {
        self.command.accepts_input()
    }

    /// Hands each of `items` to the program's input, in order.
    pub fn send_all(&mut self, items: &Vec<char>) -> (result: Result<(), Error>)
        ensures
            final(self)@ == old(self)@.send_all(items@),
            old(self)@.command.accepts_input() || items@.len() == 0 ==> result is Ok,
            !old(self)@.command.accepts_input() && items@.len() > 0 ==> result == Err::<(), Error>(
                Error::ChannelClosed,
            ),
    {
        let mut i: usize = 0;
        while i < items.len()
            invariant
                i <= items.len(),
                self@ == old(self)@.send_all(items@.take(i as int)),
                self@.command.accepts_input() == old(self)@.command.accepts_input(),
                i > 0 ==> old(self)@.command.accepts_input(),
            decreases items.len() - i,
        {
            assert(items@.take(i + 1).drop_last() =~= items@.take(i as int));
            match self.command.send_char(items[i]) {
                Ok(()) => {},
                Err(error) => {
                    assert(self@ == old(self)@.send_all(items@)) by {
                        refused_input_changes_nothing(old(self)@, items@);
                    }
                    return Err(error);
                },
            }
            i += 1;
        }
        assert(items@.take(i as int) =~= items@);
        Ok(())
    }

    /// Asks the program to stop. Asking again changes nothing.
    pub fn kill(&mut self)
        ensures
            final(self)@ == old(self)@.kill(),
    {
        self.command.kill();
    }

    /// Takes in what one read from the program's output gave, and tells
    /// whether the reader goes on.
    pub fn read(&mut self, read: Read) -> (goes_on: bool)
        ensures
            final(self)@ == (PaneView { command: old(self)@.command.read(read@), ..old(self)@ }),
            goes_on == old(self)@.command.reads_on(read@),
    {
        self.command.read(read)
    }

    /// Takes note of how writing one character to the program went, and tells
    /// whether delivery goes on.
    pub fn written(&mut self, ok: bool) -> (goes_on: bool)
        ensures
            final(self)@ == (PaneView { command: old(self)@.command.written(ok), ..old(self)@ }),
            goes_on == final(self)@.command.writing,
    {
        self.command.written(ok)
    }

    /// Takes the oldest queued character for delivery, if there is one to deliver.
    pub fn next_input(&mut self) -> (item: Option<char>)
        ensures
            final(self)@ == (PaneView { command: old(self)@.command.take_input(), ..old(self)@ }),
            item == if old(self)@.command.has_input() {
                Some(old(self)@.command.queue[0])
            } else {
                None
            },
    {
        self.command.next_input()
    }

    /// What the pane shows: the output gathered so far, without the lines
    /// that are scrolled out of sight.
    pub fn render(&self) -> (shown: Vec<u8>)
        ensures
            shown@ == self@.render(),
    {
        let mut output = self.command.get_output();
        let mut start: usize = 0;
        let mut lines: usize = self.offset;
        assert(output@.skip(0) =~= output@);
        while lines > 0 && start < output.len()
            invariant
                start <= output.len(),
                output@ == self@.command.output,
                skip_lines(output@.skip(start as int), lines as nat) == self@.render(),
            decreases output.len() - start,
        {
            if output[start] == LINE_BREAK {
                lines -= 1;
            }
            assert(output@.skip(start as int).skip(1) =~= output@.skip(start + 1));
            start += 1;
        }
        output.split_off(start)
    }
}

} // verus!

//! One running program as the shell sees it: what it was started with, the
//! output gathered from it so far, the input waiting to be delivered to it and
//! the flag that asks it to stop.
//!
//! The program itself runs outside. Whoever reads its output, writes its input
//! and waits for its end reports each step here and is told how to go on.

use vstd::prelude::*;
use vstd::string::*;
use crate::error::Error;
use crate::text::strings_view;

verus! {

/// How long, in milliseconds, the supervisor of a program on a
/// pseudo-terminal sleeps between two looks at the kill flag.
pub const POLL_INTERVAL_MS: u64 = 100;

/// The size of a terminal in character cells.
#[derive(Clone, Copy, Debug, PartialEq, Eq, Structural)]
pub struct TerminalSize {
    pub cols: u16,
    pub rows: u16,
}

/// How a program is run.
#[derive(Clone, Copy, Debug, PartialEq, Eq, Structural)]
pub enum Mode {
    /// Over plain pipes.
    Direct,
    /// Inside a pseudo-terminal of the given size.
    Pty(TerminalSize),
}

/// What one read from a program's output gave.
#[derive(Clone, Debug, PartialEq, Eq)]
pub enum Read {
    /// The bytes read. None at all means that the output has ended.
    Bytes(Vec<u8>),
    /// The read failed.
    Failed,
}

/// What a `Read` holds.
pub enum ReadView {
    Bytes(Seq<u8>),
    Failed,
}

impl View for Read {
    type V = ReadView;

    open spec fn view(&self) -> ReadView {
        match self {
            Read::Bytes(bytes) => ReadView::Bytes(bytes@),
            Read::Failed => ReadView::Failed,
        }
    }
}

impl ReadView {
    /// Whether the reader goes on after this read, given whether the
    /// program was asked to stop: it goes on after bytes were read, unless
    /// the program was asked to stop.
    pub open spec fn goes_on(self, killed: bool) -> bool {
        match self {
            ReadView::Bytes(bytes) => bytes.len() > 0 && !killed,
            ReadView::Failed => false,
        }
    }
}

impl Read {
    /// Whether the reader goes on after this read, given whether the
    /// program was asked to stop.
    pub fn goes_on(&self, killed: bool) -> (goes_on: bool)
        ensures
            goes_on == self@.goes_on(killed),
    {
        match self {
            Read::Bytes(bytes) => bytes.len() > 0 && !killed,
            Read::Failed => false,
        }
    }
}

/// What the supervisor of a program on a pseudo-terminal does next.
#[derive(Clone, Copy, Debug, PartialEq, Eq, Structural)]
pub enum Supervision {
    /// Sleep for so many milliseconds, then look again.
    Wait(u64),
    /// Send the program the signal to terminate and wait for its end.
    Terminate,
}

impl Supervision {
    /// What the supervisor does, given whether the program was asked to
    /// stop: terminate the program if so, sleep and look again if not.
    pub open spec fn given(killed: bool) -> Supervision {
        if killed {
            Supervision::Terminate
        } else {
            Supervision::Wait(POLL_INTERVAL_MS)
        }
    }

    /// What the supervisor does, given whether the program was asked to stop.
    pub fn next(killed: bool) -> (next: Supervision)
        ensures
            next == Supervision::given(killed),
    {
        if killed {
            Supervision::Terminate
        } else {
            Supervision::Wait(POLL_INTERVAL_MS)
        }
    }
}

/// The state of a program.
pub struct CommandView {
    pub program: Seq<char>,
    pub args: Seq<Seq<char>>,
    pub mode: Mode,
    /// Whether the program has been started.
    pub spawned: bool,
    /// All output gathered so far.
    pub output: Seq<u8>,
    /// Whether the program was asked to stop, or has ended.
    pub killed: bool,
    /// Input that waits for delivery, oldest first.
    pub queue: Seq<char>,
    /// Whether input is still being delivered.
    pub writing: bool,
    /// Whether reading the output has failed.
    pub failed: bool,
}

impl CommandView {
    /// A program that has not been started, run over plain pipes.
    pub open spec fn fresh(program: Seq<char>) -> CommandView {
        CommandView {
            program,
            args: Seq::empty(),
            mode: Mode::Direct,
            spawned: false,
            output: Seq::empty(),
            killed: false,
            queue: Seq::empty(),
            writing: false,
            failed: false,
        }
    }

    /// The program with one more argument.
    pub open spec fn with_arg(self, arg: Seq<char>) -> CommandView {
        CommandView { args: self.args.push(arg), ..self }
    }

    /// The program with more arguments.
    pub open spec fn with_args(self, args: Seq<Seq<char>>) -> CommandView {
        CommandView { args: self.args + args, ..self }
    }

    /// The program, to be run in another way.
    pub open spec fn with_mode(self, mode: Mode) -> CommandView {
        CommandView { mode, ..self }
    }

    /// The program was started, or could not be.
    pub open spec fn started(self, ok: bool) -> CommandView {
        if ok {
            CommandView { spawned: true, writing: true, ..self }
        } else {
            self
        }
    }

    /// The program is asked to stop.
    pub open spec fn kill(self) -> CommandView {
        CommandView { killed: true, ..self }
    }

    /// Whether `send` takes an item.
    pub open spec fn accepts_input(self) -> bool {
        !self.spawned || self.writing
    }

    /// One item of input is handed in.
    pub open spec fn send(self, item: char) -> CommandView {
        if self.spawned && self.writing {
            CommandView { queue: self.queue.push(item), ..self }
        } else {
            self
        }
    }

    /// Whether an item of input can be delivered now.
    pub open spec fn has_input(self) -> bool {
        self.writing && self.queue.len() > 0
    }

    /// The oldest item of input is taken for delivery.
    pub open spec fn take_input(self) -> CommandView {
        if self.has_input() {
            CommandView { queue: self.queue.drop_first(), ..self }
        } else {
            self
        }
    }

    /// An item of input was written to the program, or could not be.
    pub open spec fn written(self, ok: bool) -> CommandView {
        if ok {
            self
        } else {
            CommandView { writing: false, ..self }
        }
    }

    /// One read from the program's output has returned.
    pub open spec fn read(self, read: ReadView) -> CommandView {
        match read {
            ReadView::Bytes(bytes) => CommandView { output: self.output + bytes, ..self },
            ReadView::Failed => CommandView { failed: true, ..self },
        }
    }

    /// Whether the reader goes on reading after `read`.
    pub open spec fn reads_on(self, read: ReadView) -> bool {
        read.goes_on(self.killed)
    }

    /// Whether the pseudo-terminal can be given a new size.
    pub open spec fn resizable(self) -> bool {
        self.mode is Pty && !self.killed
    }

    /// The pseudo-terminal is given a new size.
    pub open spec fn resize(self, cols: u16, rows: u16) -> CommandView {
        if self.resizable() {
            CommandView { mode: Mode::Pty(TerminalSize { cols, rows }), ..self }
        } else {
            self
        }
    }

    /// What the supervisor of the program does next.
    pub open spec fn supervise(self) -> Supervision {
        Supervision::given(self.killed)
    }
}

/// One step in the life of a program: a call of one of the operations of
/// `Command`.
pub enum Step {
    Arg(Seq<char>),
    Args(Seq<Seq<char>>),
    SetMode(Mode),
    Started(bool),
    Kill,
    Send(char),
    TakeInput,
    Written(bool),
    Read(ReadView),
    Resize(u16, u16),
}

impl CommandView {
    /// The state after one step.
    pub open spec fn step(self, step: Step) -> CommandView {
        match step {
            Step::Arg(arg) => self.with_arg(arg),
            Step::Args(args) => self.with_args(args),
            Step::SetMode(mode) => self.with_mode(mode),
            Step::Started(ok) => self.started(ok),
            Step::Kill => self.kill(),
            Step::Send(item) => self.send(item),
            Step::TakeInput => self.take_input(),
            Step::Written(ok) => self.written(ok),
            Step::Read(read) => self.read(read),
            Step::Resize(cols, rows) => self.resize(cols, rows),
        }
    }

    /// The state after a run of steps, taken in order.
    pub open spec fn run(self, steps: Seq<Step>) -> CommandView
        decreases steps.len(),
    {
        if steps.len() == 0 {
            self
        } else {
            self.run(steps.drop_last()).step(steps.last())
        }
    }
}

/// Asking a program to stop a second time changes nothing.
pub proof fn kill_is_idempotent(command: CommandView)
    ensures
        command.kill().kill() == command.kill(),
{
}

/// A program that was asked to stop stays so, whatever happens to it later.
pub proof fn kill_is_final(command: CommandView, steps: Seq<Step>)
    requires
        command.killed,
    ensures
        command.run(steps).killed,
    decreases steps.len(),
{
    if steps.len() > 0 {
        kill_is_final(command, steps.drop_last());
    }
}

/// No step takes away or alters output that was gathered before it: the
/// output before is the beginning of the output after.
pub proof fn output_only_grows(command: CommandView, steps: Seq<Step>)
    ensures
        command.output.is_prefix_of(command.run(steps).output),
    decreases steps.len(),
{
    if steps.len() > 0 {
        output_only_grows(command, steps.drop_last());
    }
}

/// The outputs seen in the course of a run form a chain: what was seen after
/// the first `i` steps is the beginning of what is seen after the first `j`,
/// for `i` up to `j`.
pub proof fn outputs_form_a_chain(command: CommandView, steps: Seq<Step>, i: int, j: int)
    requires
        0 <= i <= j <= steps.len(),
    ensures
        command.run(steps.take(i)).output.is_prefix_of(command.run(steps.take(j)).output),
    decreases j - i,
{
    if i < j {
        outputs_form_a_chain(command, steps, i, j - 1);
        assert(steps.take(j).drop_last() =~= steps.take(j - 1));
    }
}

/// A program and what the shell holds of it.
#[derive(Clone, Debug)]
pub struct Command {
    command: String,
    args: Vec<String>,
    mode: Mode,
    spawned: bool,
    output: Vec<u8>,
    kill: bool,
    stdin: Vec<char>,
    writing: bool,
    failed: bool,
}

impl View for Command {
    type V = CommandView;

    closed spec fn view(&self) -> CommandView {
        CommandView {
            program: self.command@,
            args: strings_view(self.args@),
            mode: self.mode,
            spawned: self.spawned,
            output: self.output@,
            killed: self.kill,
            queue: self.stdin@,
            writing: self.writing,
            failed: self.failed,
        }
    }
}

impl Command {
    /// A program to be run over plain pipes, without arguments, not started yet.
    pub fn new(command_name: &str) -> (command: Self)
        ensures
            command@ == CommandView::fresh(command_name@),
    {
        let command = Self {
            command: String::from_str(command_name),
            args: Vec::new(),
            mode: Mode::Direct,
            spawned: false,
            output: Vec::new(),
            kill: false,
            stdin: Vec::new(),
            writing: false,
            failed: false,
        };
        assert(strings_view(command.args@) =~= Seq::<Seq<char>>::empty());
        command
    }

    /// A program to be run inside a pseudo-terminal of the given size, not
    /// started yet: the first of `words` names the program, the others are
    /// its arguments. Without a word there is no program to run.
    pub fn with_terminal(words: &Vec<String>, terminal_size: TerminalSize) -> (result: Result<
        Self,
        Error,
    >)
        ensures
            words@.len() == 0 ==> (result matches Err(Error::SpawnFailed { reason }) && reason@
                == "Not enough arguments"@),
            words@.len() > 0 ==> (result matches Ok(command) && command@ == CommandView::fresh(
                words@[0]@,
            ).with_args(strings_view(words@).skip(1)).with_mode(Mode::Pty(terminal_size))),
    {
        if words.len() < 1 {
            return Err(Error::SpawnFailed { reason: String::from_str("Not enough arguments") });
        }
        let mut command = Self::new(words[0].as_str());
        let mut i: usize = 1;
        while i < words.len()
            invariant
                1 <= i <= words.len(),
                command@ == CommandView::fresh(words@[0]@).with_args(
                    strings_view(words@).subrange(1, i as int),
                ),
            decreases words.len() - i,
        {
            command.arg(words[i].as_str());
            proof {
                let all = strings_view(words@);
                assert(all.subrange(1, i + 1) =~= all.subrange(1, i as int).push(words@[i as int]@));
            }
            i += 1;
        }
        command.mode(Mode::Pty(terminal_size));
        Ok(command)
    }

    /// Adds one argument after those already given.
    pub fn arg(&mut self, arg: &str) -> (this: &mut Self)
        ensures
            this@ == old(self)@.with_arg(arg@),
            *final(self) == *final(this),
    {
        self.args.push(String::from_str(arg));
        assert(strings_view(self.args@) =~= strings_view(old(self).args@).push(arg@));
        self
    }

    /// Adds arguments, in order, after those already given.
    pub fn args(&mut self, collection: &Vec<String>) -> (this: &mut Self)
        ensures
            this@ == old(self)@.with_args(strings_view(collection@)),
            *final(self) == *final(this),
    {
        let mut i: usize = 0;
        while i < collection.len()
            invariant
                i <= collection.len(),
                self@ == old(self)@.with_args(strings_view(collection@.take(i as int))),
            decreases collection.len() - i,
        {
            let ghost before = self.args@;
            self.args.push(collection[i].clone());
            proof {
                let taken = strings_view(collection@.take(i as int));
                let more = strings_view(collection@.take(i + 1));
                assert(strings_view(self.args@) =~= strings_view(before).push(
                    collection@[i as int]@,
                ));
                assert(strings_view(old(self).args@) + more =~= (strings_view(old(self).args@)
                    + taken).push(collection@[i as int]@));
            }
            i += 1;
        }
        assert(collection@.take(i as int) =~= collection@);
        self
    }

    /// Chooses how the program is run.
    pub fn mode(&mut self, mode: Mode) -> (this: &mut Self)
        ensures
            this@ == old(self)@.with_mode(mode),
            *final(self) == *final(this),
    {
        self.mode = mode;
        self
    }

    /// Takes note that the program was started, or why it could not be. A
    /// program that could not be started is left as it was.
    pub fn spawn(&mut self, started: Result<(), String>) -> (result: Result<(), Error>)
        ensures
            final(self)@ == old(self)@.started(started is Ok),
            started is Ok ==> result is Ok,
            started matches Err(reason) ==> result matches Err(Error::SpawnFailed { reason: why })
                && why@ == reason@,
    {
        match started {
            Ok(()) => {
                self.spawned = true;
                self.writing = true;
                Ok(())
            },
            Err(reason) => Err(Error::SpawnFailed { reason }),
        }
    }

    /// Asks the program to stop. Whoever supervises the program sees the
    /// request the next time it looks; asking again changes nothing.
    pub fn kill(&mut self)
        ensures
            final(self)@ == old(self)@.kill(),
    {
        self.kill = true;
    }

    /// Asks the program to stop, as `kill` does.
    pub fn kill_process(&mut self)
        ensures
            final(self)@ == old(self)@.kill(),
    {
        self.kill();
    }

    /// Takes note that the program has ended: from then on it counts as stopped.
    pub fn exited(&mut self)
        ensures
            final(self)@ == old(self)@.kill(),
    {
        self.kill();
    }

    /// Whether the program was asked to stop or has ended.
    pub fn is_killed(&self) -> (killed: bool)
        ensures
            killed == self@.killed,
    {
        self.kill
    }

    /// Whether `send_char` takes a character.
    pub fn accepts_input(&self) -> (accepts: bool)
        ensures
            accepts == self@.accepts_input(),
    {
        !self.spawned || self.writing
    }

    /// Queues one character for delivery to the program's input. Before the
    /// program is started there is nowhere to send to and the character is
    /// dropped; once delivery has stopped the character is refused.
    pub fn send_char(&mut self, c: char) -> (result: Result<(), Error>)
        ensures
            final(self)@ == old(self)@.send(c),
            old(self)@.accepts_input() ==> result is Ok,
            !old(self)@.accepts_input() ==> result == Err::<(), Error>(Error::ChannelClosed),
    {
        if !self.spawned {
            Ok(())
        } else if self.writing {
            self.stdin.push(c);
            Ok(())
        } else {
            Err(Error::ChannelClosed)
        }
    }

    /// Takes the oldest queued character for delivery, if delivery is still
    /// going on and a character waits.
    pub fn next_input(&mut self) -> (item: Option<char>)
        ensures
            final(self)@ == old(self)@.take_input(),
            item == if old(self)@.has_input() {
                Some(old(self)@.queue[0])
            } else {
                None
            },
    {
        if self.writing && self.stdin.len() > 0 {
            let item = self.stdin.remove(0);
            Some(item)
        } else {
            None
        }
    }

    /// Takes note of how writing one character to the program went, and tells
    /// whether delivery goes on. A failed write ends delivery for good.
    pub fn written(&mut self, ok: bool) -> (goes_on: bool)
        ensures
            final(self)@ == old(self)@.written(ok),
            goes_on == final(self)@.writing,
    {
        if !ok {
            self.writing = false;
        }
        self.writing
    }

    /// Takes in what one read from the program's output gave, and tells
    /// whether the reader goes on. Bytes read are added behind those already
    /// held; the end of the output, a failure, or a request to stop seen after
    /// the read, end the reading.
    pub fn read(&mut self, read: Read) -> (goes_on: bool)
        ensures
            final(self)@ == old(self)@.read(read@),
            goes_on == old(self)@.reads_on(read@),
    {
        let goes_on = read.goes_on(self.kill);
        match read {
            Read::Bytes(mut bytes) => {
                self.output.append(&mut bytes);
            },
            Read::Failed => {
                self.failed = true;
            },
        }
        goes_on
    }

    /// Whether reading the program's output has failed.
    pub fn has_failed(&self) -> (failed: bool)
        ensures
            failed == self@.failed,
    {
        self.failed
    }

    /// A copy of all output gathered so far.
    pub fn get_output(&self) -> (output: Vec<u8>)
        ensures
            output@ == self@.output,
    {
        self.output.clone()
    }

    /// Gives the pseudo-terminal a new size. Fails for a program that runs
    /// over plain pipes, and once the program was asked to stop or has ended.
    pub fn resize(&mut self, cols: u16, rows: u16) -> (result: Result<(), Error>)
        ensures
            final(self)@ == old(self)@.resize(cols, rows),
            old(self)@.resizable() ==> result is Ok,
            !old(self)@.resizable() ==> result == Err::<(), Error>(Error::RuntimeIoFailure),
    {
        let is_pty = match self.mode {
            Mode::Pty(_) => true,
            Mode::Direct => false,
        };
        if is_pty && !self.kill {
            self.mode = Mode::Pty(TerminalSize { cols, rows });
            Ok(())
        } else {
            Err(Error::RuntimeIoFailure)
        }
    }

    /// What the supervisor does next: terminate the program once it was asked
    /// to stop, sleep and look again until then.
    pub fn supervise(&self) -> (next: Supervision)
        ensures
            next == self@.supervise(),
    {
        Supervision::next(self.kill)
    }

    /// The program's name or path.
    pub fn program(&self) -> (program: String)
        ensures
            program@ == self@.program,
    {
        self.command.clone()
    }

    /// The program's arguments.
    pub fn arguments(&self) -> (args: Vec<String>)
        ensures
            strings_view(args@) == self@.args,
    {
        let args = self.args.clone();
        args
    }

    /// How the program is run.
    pub fn get_mode(&self) -> (mode: Mode)
        ensures
            mode == self@.mode,
    {
        self.mode
    }
}

} // verus!

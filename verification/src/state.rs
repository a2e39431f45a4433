//! The state of the shell and the rules by which it changes: what each key
//! press, and each report from the world outside, does to the line, to the
//! panes and to the history, and which effects it asks for.

use vstd::prelude::*;
use crate::bounded::{newest, pushed};
use crate::command::{CommandView, Mode, ReadView, TerminalSize};
use crate::effect::{EffectView, SpawnView};
use crate::error::{Error, Lookup};
use crate::history::HistoryView;
use crate::inbuilt::{requested, RequestView};
use crate::input::InputMode;
use crate::key::Keystroke;
use crate::pane::PaneView;
use crate::pane_set::normalized;
use crate::text::words;

verus! {

/// The state of the shell.
pub struct ShellView {
    pub username: Seq<char>,
    /// The working directory, as shown.
    pub current_dir: Seq<char>,
    /// The last error, as shown; empty if there is none to show.
    pub error: Seq<char>,
    /// The line that the user edits.
    pub input: Seq<char>,
    /// The place in the line at which the user types, counted from one: the
    /// next character goes in front of the character at this place, or
    /// behind the last.
    pub cursor: nat,
    pub mode: InputMode,
    /// The position of the pane that key presses go to in `Interact`.
    pub active_pane: nat,
    /// The panes, oldest first.
    pub panes: Seq<PaneView>,
    /// How many panes there may be.
    pub max_outputs: nat,
    pub history: HistoryView,
    /// The programs that can be run: for each name the path.
    pub commands: Map<Seq<char>, Seq<char>>,
    /// The size given to the terminal of each new program.
    pub terminal_size: TerminalSize,
    /// The name that the next program gets.
    pub next_id: nat,
    /// The program that is being started, if any.
    pub pending: Option<SpawnView>,
    /// Whether the shell has not been left yet.
    pub running: bool,
}

/// The state after a step and the effects that the step asks for, in order.
pub struct Outcome {
    pub state: ShellView,
    pub effects: Seq<EffectView>,
}

/// The position of the active pane once only `len` panes are left.
pub open spec fn clamped(active: nat, len: nat) -> nat {
    if active < len {
        active
    } else if len == 0 {
        0
    } else {
        (len - 1) as nat
    }
}

/// The order to terminate the program of each of `panes`, in order.
pub open spec fn kills(panes: Seq<PaneView>) -> Seq<EffectView> {
    panes.map_values(|pane: PaneView| EffectView::Kill(pane.id))
}

/// The text shown when no name is left for a new program.
pub open spec fn out_of_names() -> Seq<char> {
    "no name is left for another program"@
}

impl ShellView {
    /// The state in which the shell starts: an empty line to edit, no pane,
    /// and of the lines kept from earlier the newest, as many as fit.
    pub open spec fn initial(
        username: Seq<char>,
        current_dir: Seq<char>,
        terminal_size: TerminalSize,
        max_outputs: nat,
        history_size: nat,
        error: Seq<char>,
        lines: Seq<Seq<char>>,
        commands: Map<Seq<char>, Seq<char>>,
    ) -> ShellView {
        ShellView {
            username,
            current_dir,
            error,
            input: Seq::empty(),
            cursor: 1,
            mode: InputMode::Command,
            active_pane: 0,
            panes: Seq::empty(),
            max_outputs,
            history: HistoryView {
                entries: newest(lines, history_size),
                capacity: history_size,
                cursor: newest(lines, history_size).len(),
            },
            commands,
            terminal_size,
            next_id: 0,
            pending: None,
            running: true,
        }
    }

    /// What holds of the state at all times: the cursor is in or just
    /// behind the line, there are no more panes than there may be, the
    /// active pane is one of the panes if there is any, the history is
    /// within its bound, and the panes stand in the order in which their
    /// programs were named, which is the order in which they came; the
    /// program that is being started was named after all of them.
    pub open spec fn wf(self) -> bool {
        &&& 1 <= self.cursor <= self.input.len() + 1
        &&& 1 <= self.max_outputs
        &&& self.panes.len() <= self.max_outputs
        &&& (self.active_pane < self.panes.len() || self.active_pane == 0)
        &&& self.history.wf()
        &&& self.next_id <= u64::MAX
        &&& forall|i: int| 0 <= i < self.panes.len() ==> (#[trigger] self.panes[i]).id < self.next_id
        &&& forall|i: int, j: int|
            #![trigger self.panes[i], self.panes[j]]
            0 <= i < j < self.panes.len() ==> self.panes[i].id < self.panes[j].id
        &&& self.pending matches Some(request) ==> request.id < self.next_id && forall|i: int|
            0 <= i < self.panes.len() ==> (#[trigger] self.panes[i]).id < request.id
    }

    /// Whether the program known as `id` has a pane.
    pub open spec fn knows(self, id: u64) -> bool {
        exists|i: int| 0 <= i < self.panes.len() && (#[trigger] self.panes[i]).id == id
    }

    /// The position of the pane of the program known as `id`.
    pub open spec fn place(self, id: u64) -> int {
        choose|i: int| 0 <= i < self.panes.len() && (#[trigger] self.panes[i]).id == id
    }

    /// The state with `pane` in place of the pane at position `i`.
    pub open spec fn with_pane(self, i: int, pane: PaneView) -> ShellView {
        ShellView { panes: self.panes.update(i, pane), ..self }
    }

    /// The state with `text` as the error to show.
    pub open spec fn failed(self, text: Seq<char>) -> ShellView {
        ShellView { error: text, ..self }
    }

    /// A character is typed into the line: it goes in at the cursor, and the
    /// cursor moves behind it.
    pub open spec fn typed(self, c: char) -> ShellView {
        ShellView { input: self.input.insert(self.cursor - 1, c), cursor: self.cursor + 1, ..self }
    }

    /// The character in front of the cursor is taken out, if there is one.
    pub open spec fn erased(self) -> ShellView {
        if self.cursor > 1 {
            ShellView {
                input: self.input.remove(self.cursor - 2),
                cursor: (self.cursor - 1) as nat,
                ..self
            }
        } else {
            self
        }
    }

    /// The cursor moves one place to the left, unless it is at the first.
    pub open spec fn moved_left(self) -> ShellView {
        if self.cursor > 1 {
            ShellView { cursor: (self.cursor - 1) as nat, ..self }
        } else {
            self
        }
    }

    /// The cursor moves one place to the right, unless it is behind the line.
    pub open spec fn moved_right(self) -> ShellView {
        if self.cursor <= self.input.len() {
            ShellView { cursor: self.cursor + 1, ..self }
        } else {
            self
        }
    }

    /// The line becomes the line of the history that the user looks at in
    /// `history`, with the cursor behind it.
    pub open spec fn recalled(self, history: HistoryView) -> ShellView {
        let line = history.entries[history.cursor as int];
        ShellView { history, input: line, cursor: line.len() + 1, ..self }
    }

    /// The line becomes the next older line of the history, if there is one.
    pub open spec fn older_line(self) -> ShellView {
        if self.history.has_older() {
            self.recalled(self.history.older())
        } else {
            self
        }
    }

    /// The line becomes the next newer line of the history, if there is one.
    pub open spec fn newer_line(self) -> ShellView {
        if self.history.has_newer() {
            self.recalled(self.history.newer())
        } else {
            self
        }
    }

    /// From the line to the panes, if there is a pane, and from the panes
    /// back to the line.
    pub open spec fn switched(self) -> ShellView {
        match self.mode {
            InputMode::Command => if self.panes.len() >= 1 {
                ShellView { mode: InputMode::Interact, ..self }
            } else {
                self
            },
            InputMode::Interact => ShellView { mode: InputMode::Command, ..self },
        }
    }

    /// The pane before the active one becomes active, if there is one.
    pub open spec fn previous_pane(self) -> ShellView {
        if self.active_pane > 0 {
            ShellView { active_pane: (self.active_pane - 1) as nat, ..self }
        } else {
            self
        }
    }

    /// The pane behind the active one becomes active, if there is one.
    pub open spec fn next_pane(self) -> ShellView {
        if self.active_pane + 1 < self.panes.len() {
            ShellView { active_pane: self.active_pane + 1, ..self }
        } else {
            self
        }
    }

    /// A character goes to the program of the active pane, which is then to
    /// be delivered. Without a pane nothing happens; a program that takes
    /// no input any more leaves an error to show.
    pub open spec fn forwarded(self, c: char) -> Outcome {
        let i = self.active_pane as int;
        if i >= self.panes.len() {
            Outcome { state: self, effects: Seq::empty() }
        } else if !self.panes[i].command.accepts_input() {
            Outcome { state: self.failed(Error::ChannelClosed.text()), effects: Seq::empty() }
        } else {
            Outcome {
                state: self.with_pane(i, self.panes[i].send(c)),
                effects: seq![EffectView::Deliver(self.panes[i].id)],
            }
        }
    }

    /// What a request does to the state, and the effects that it asks for.
    ///
    /// - To change the directory and to reload are left to the world.
    /// - To clear takes out all panes, or the one at the position given, and
    ///   asks for the end of their programs; a position without a pane is an
    ///   error.
    /// - To send hands the message to the program of the pane at the
    ///   position given, which is then to be delivered; it is an error if
    ///   there is no pane at all, none at that position, or if the program
    ///   takes no input any more.
    /// - To exit takes out all panes, asks for the end of their programs,
    ///   hands out the history and ends the shell.
    /// - To run a program that is known by name gives the program the next
    ///   name and asks for its start; the pane comes once the start is
    ///   reported. A program that is not known changes nothing.
    ///
    /// An error is left as the error to show, and nothing else changes.
    pub open spec fn carried_out(self, request: RequestView) -> Outcome {
        match request {
            RequestView::Nothing => Outcome { state: self, effects: Seq::empty() },
            RequestView::ChangeDir { dir } => Outcome {
                state: self,
                effects: seq![EffectView::ChangeDir(dir)],
            },
            RequestView::ClearAll => Outcome {
                state: ShellView { panes: Seq::empty(), active_pane: 0, ..self },
                effects: kills(self.panes),
            },
            RequestView::ClearPane { index } => if index < self.panes.len() {
                Outcome {
                    state: ShellView {
                        panes: self.panes.remove(index as int),
                        active_pane: clamped(self.active_pane, (self.panes.len() - 1) as nat),
                        ..self
                    },
                    effects: seq![EffectView::Kill(self.panes[index as int].id)],
                }
            } else {
                Outcome {
                    state: self.failed(Error::LookupFailure(Lookup::OutOfRange).text()),
                    effects: Seq::empty(),
                }
            },
            RequestView::Send { index, message } => if self.panes.len() == 0 {
                Outcome {
                    state: self.failed(Error::LookupFailure(Lookup::NoPanes).text()),
                    effects: Seq::empty(),
                }
            } else if index >= self.panes.len() {
                Outcome {
                    state: self.failed(Error::LookupFailure(Lookup::OutOfRange).text()),
                    effects: Seq::empty(),
                }
            } else if !self.panes[index as int].command.accepts_input() {
                Outcome { state: self.failed(Error::ChannelClosed.text()), effects: Seq::empty() }
            } else {
                Outcome {
                    state: self.with_pane(index as int, self.panes[index as int].send_all(message)),
                    effects: seq![EffectView::Deliver(self.panes[index as int].id)],
                }
            },
            RequestView::Reload => Outcome { state: self, effects: seq![EffectView::Reload] },
            RequestView::Exit => Outcome {
                state: ShellView { running: false, panes: Seq::empty(), active_pane: 0, ..self },
                effects: kills(self.panes).push(EffectView::Exit(self.history.entries)),
            },
            RequestView::Run { name, args } => if !self.commands.contains_key(name) {
                Outcome { state: self, effects: Seq::empty() }
            } else if self.next_id >= u64::MAX {
                Outcome { state: self.failed(out_of_names()), effects: Seq::empty() }
            } else {
                let request = SpawnView {
                    id: self.next_id as u64,
                    program: self.commands[name],
                    args,
                    mode: Mode::Pty(self.terminal_size),
                };
                Outcome {
                    state: ShellView {
                        pending: Some(request),
                        next_id: self.next_id + 1,
                        ..self
                    },
                    effects: seq![EffectView::Spawn(request)],
                }
            },
        }
    }

    /// The state once the line was taken in: the line is the newest of the
    /// history, the line to edit is empty and there is no error to show.
    pub open spec fn taken(self) -> ShellView {
        ShellView {
            history: self.history.push(self.input),
            input: Seq::empty(),
            cursor: 1,
            error: Seq::empty(),
            ..self
        }
    }

    /// The line is submitted. A line without a word is left alone. Any other
    /// line goes into the history and is to be remembered, the line is
    /// emptied and the error to show is cleared; then what the line asks
    /// for is carried out, or the reason why it cannot be understood is
    /// left as the error to show.
    pub open spec fn submitted(self) -> Outcome {
        if words(self.input).len() == 0 {
            Outcome { state: self, effects: Seq::empty() }
        } else {
            let taken = self.taken();
            let remember = seq![EffectView::Remember(self.input)];
            match requested(words(self.input)) {
                Ok(request) => Outcome {
                    state: taken.carried_out(request).state,
                    effects: remember + taken.carried_out(request).effects,
                },
                Err(lookup) => Outcome {
                    state: taken.failed(Error::LookupFailure(lookup).text()),
                    effects: remember,
                },
            }
        }
    }

    /// What a key press does while the user edits the line.
    pub open spec fn command_key(self, key: Keystroke) -> Outcome {
        match key {
            Keystroke::Char(c) => Outcome { state: self.typed(c), effects: Seq::empty() },
            Keystroke::Backspace => Outcome { state: self.erased(), effects: Seq::empty() },
            Keystroke::Left => Outcome { state: self.moved_left(), effects: Seq::empty() },
            Keystroke::Right => Outcome { state: self.moved_right(), effects: Seq::empty() },
            Keystroke::Up => Outcome { state: self.older_line(), effects: Seq::empty() },
            Keystroke::Down => Outcome { state: self.newer_line(), effects: Seq::empty() },
            Keystroke::Enter => self.submitted(),
            Keystroke::SwitchMode => Outcome { state: self.switched(), effects: Seq::empty() },
            _ => Outcome { state: self, effects: Seq::empty() },
        }
    }

    /// What a key press does while the user talks to a pane: characters, and
    /// the line break that the enter key stands for, go to the program of
    /// the active pane; the line is not touched.
    pub open spec fn interact_key(self, key: Keystroke) -> Outcome {
        match key {
            Keystroke::Char(c) => self.forwarded(c),
            Keystroke::Enter => self.forwarded('\n'),
            Keystroke::PreviousPane => Outcome {
                state: self.previous_pane(),
                effects: Seq::empty(),
            },
            Keystroke::NextPane => Outcome { state: self.next_pane(), effects: Seq::empty() },
            Keystroke::SwitchMode => Outcome { state: self.switched(), effects: Seq::empty() },
            _ => Outcome { state: self, effects: Seq::empty() },
        }
    }

    /// What a key press does.
    pub open spec fn key(self, key: Keystroke) -> Outcome {
        match self.mode {
            InputMode::Command => self.command_key(key),
            InputMode::Interact => self.interact_key(key),
        }
    }

    /// The pane of a program that was started.
    pub open spec fn pane_for(request: SpawnView) -> PaneView {
        PaneView {
            id: request.id,
            command: CommandView::fresh(request.program).with_args(request.args).with_mode(
                request.mode,
            ).started(true),
            offset: 0,
        }
    }

    /// Whether the program known as `id` is the one being started.
    pub open spec fn awaits(self, id: u64) -> bool {
        self.pending matches Some(request) && request.id == id
    }

    /// What a report on a program that is not being started asks for: a
    /// program that runs without a pane is to be terminated.
    pub open spec fn stray(self, id: u64, started: Result<(), Seq<char>>) -> Seq<EffectView> {
        if started is Ok && !self.knows(id) {
            seq![EffectView::Kill(id)]
        } else {
            Seq::empty()
        }
    }

    /// The world reports how starting the program known as `id` went. If
    /// that program is the one being started: on success its pane comes in
    /// as the newest, and if there was no room the oldest pane leaves and
    /// its program is to be terminated; on failure the reason is left as the
    /// error to show. Any other report leaves the state as it is.
    pub open spec fn spawned(self, id: u64, started: Result<(), Seq<char>>) -> Outcome {
        if self.awaits(id) {
            let request = self.pending->0;
            let state = ShellView { pending: None, ..self };
            match started {
                Ok(_) => Outcome {
                    state: ShellView {
                        panes: pushed(self.panes, Self::pane_for(request), self.max_outputs),
                        ..state
                    },
                    effects: if self.panes.len() < self.max_outputs {
                        Seq::empty()
                    } else {
                        seq![EffectView::Kill(self.panes[0].id)]
                    },
                },
                Err(reason) => Outcome { state: state.failed(reason), effects: Seq::empty() },
            }
        } else {
            Outcome { state: self, effects: self.stray(id, started) }
        }
    }

    /// The world reports how changing the working directory went: the new
    /// directory, which is then shown, or the reason why it could not be
    /// entered, which is left as the error to show.
    pub open spec fn directory_changed(self, changed: Result<Seq<char>, Seq<char>>) -> ShellView {
        match changed {
            Ok(dir) => ShellView { current_dir: dir, ..self },
            Err(reason) => self.failed(reason),
        }
    }

    /// The world hands in the programs that can be run.
    pub open spec fn reloaded(self, commands: Map<Seq<char>, Seq<char>>) -> ShellView {
        ShellView { commands, ..self }
    }

    /// One read from the output of the program known as `id` has returned.
    pub open spec fn read(self, id: u64, read: ReadView) -> ShellView {
        if self.knows(id) {
            let i = self.place(id);
            self.with_pane(
                i,
                PaneView { command: self.panes[i].command.read(read), ..self.panes[i] },
            )
        } else {
            self
        }
    }

    /// Whether the reader of the program known as `id` goes on after
    /// `read`. The reader of a program without a pane stops.
    pub open spec fn reads_on(self, id: u64, read: ReadView) -> bool {
        self.knows(id) && self.panes[self.place(id)].command.reads_on(read)
    }

    /// The program known as `id` has ended.
    pub open spec fn exited(self, id: u64) -> ShellView {
        if self.knows(id) {
            let i = self.place(id);
            self.with_pane(i, self.panes[i].kill())
        } else {
            self
        }
    }

    /// The oldest input that waits for the program known as `id` is taken
    /// for delivery.
    pub open spec fn input_taken(self, id: u64) -> ShellView {
        if self.knows(id) {
            let i = self.place(id);
            self.with_pane(
                i,
                PaneView { command: self.panes[i].command.take_input(), ..self.panes[i] },
            )
        } else {
            self
        }
    }

    /// What is taken for delivery to the program known as `id`.
    pub open spec fn next_input(self, id: u64) -> Option<char> {
        if self.knows(id) && self.panes[self.place(id)].command.has_input() {
            Some(self.panes[self.place(id)].command.queue[0])
        } else {
            None
        }
    }

    /// Writing to the program known as `id` went well, or did not.
    pub open spec fn written(self, id: u64, ok: bool) -> ShellView {
        if self.knows(id) {
            let i = self.place(id);
            self.with_pane(
                i,
                PaneView { command: self.panes[i].command.written(ok), ..self.panes[i] },
            )
        } else {
            self
        }
    }

    /// The active pane after it was scrolled by one line, up or down.
    pub open spec fn scrolled(self, up: bool) -> ShellView {
        let i = self.active_pane as int;
        if i < self.panes.len() {
            self.with_pane(
                i,
                if up {
                    self.panes[i].scroll_up()
                } else {
                    self.panes[i].scroll_down()
                },
            )
        } else {
            self
        }
    }
}

/// Where no two programs are known by one name, the pane of a program is
/// found at one position only.
pub proof fn place_is_sure(state: ShellView, i: int)
    requires
        state.wf(),
        0 <= i < state.panes.len(),
    ensures
        state.knows(state.panes[i].id),
        state.place(state.panes[i].id) == i,
{
}

/// Carrying out a request keeps what holds of the state at all times.
pub proof fn request_keeps_wf(state: ShellView, request: RequestView)
    requires
        state.wf(),
    ensures
        state.carried_out(request).state.wf(),
{
    if let RequestView::Send { index, message } = request {
        if index < state.panes.len() {
            send_all_keeps_name(state.panes[index as int], message);
        }
    }
}

/// Handing input to the program of a pane leaves the name by which the
/// program is known.
pub proof fn send_all_keeps_name(pane: PaneView, items: Seq<char>)
    ensures
        pane.send_all(items).id == pane.id,
    decreases items.len(),
{
    if items.len() > 0 {
        send_all_keeps_name(pane, items.drop_last());
    }
}

/// A key press keeps what holds of the state at all times.
pub proof fn key_keeps_wf(state: ShellView, key: Keystroke)
    requires
        state.wf(),
    ensures
        state.key(key).state.wf(),
{
    if state.mode == InputMode::Command && key == Keystroke::Enter {
        if let Ok(request) = requested(words(state.input)) {
            request_keeps_wf(state.taken(), request);
        }
    }
}

/// A report on the start of a program keeps what holds of the state at all
/// times.
pub proof fn spawned_keeps_wf(state: ShellView, id: u64, started: Result<(), Seq<char>>)
    requires
        state.wf(),
    ensures
        state.spawned(id, started).state.wf(),
{
}

/// A report from a running program keeps what holds of the state at all
/// times.
pub proof fn reports_keep_wf(state: ShellView, id: u64)
    requires
        state.wf(),
    ensures
        forall|read: ReadView| (#[trigger] state.read(id, read)).wf(),
        state.exited(id).wf(),
        state.input_taken(id).wf(),
        forall|ok: bool| (#[trigger] state.written(id, ok)).wf(),
{
}

/// Scrolling keeps what holds of the state at all times.
pub proof fn scrolling_keeps_wf(state: ShellView, up: bool)
    requires
        state.wf(),
    ensures
        state.scrolled(up).wf(),
{
}

/// With one pane only, to clear all panes, to clear pane zero and to clear
/// pane one come to the same: the pane is gone and its program is to be
/// terminated.
pub proof fn clearing_the_only_pane(state: ShellView)
    requires
        state.wf(),
        state.panes.len() == 1,
    ensures
        state.carried_out(RequestView::ClearAll).state.panes.len() == 0,
        state.carried_out(RequestView::ClearAll).effects == seq![
            EffectView::Kill(state.panes[0].id),
        ],
        state.carried_out(RequestView::ClearPane { index: normalized(0) }) == state.carried_out(
            RequestView::ClearAll,
        ),
        state.carried_out(RequestView::ClearPane { index: normalized(1) }) == state.carried_out(
            RequestView::ClearAll,
        ),
{
    let all = state.carried_out(RequestView::ClearAll);
    let one = state.carried_out(RequestView::ClearPane { index: 0 });
    assert(one.effects =~= all.effects);
    assert(one.state.panes =~= all.state.panes);
}

/// To clear the pane that the user calls number `n` takes out the pane at
/// position `n - 1`, terminates its program and leaves the other panes in
/// their order.
pub proof fn clearing_a_numbered_pane(state: ShellView, n: nat)
    requires
        state.wf(),
        1 <= n <= state.panes.len(),
    ensures
        state.carried_out(RequestView::ClearPane { index: normalized(n) }).state.panes
            == state.panes.remove(n - 1),
        state.carried_out(RequestView::ClearPane { index: normalized(n) }).effects == seq![
            EffectView::Kill(state.panes[n - 1].id),
        ],
{
}

/// Whether each pane of `after` whose program has a pane in `before` holds
/// all output that it held there, unchanged, at the beginning of its output.
pub open spec fn keeps_output(before: ShellView, after: ShellView) -> bool {
    forall|i: int, j: int|
        #![trigger before.panes[i], after.panes[j]]
        0 <= i < before.panes.len() && 0 <= j < after.panes.len() && before.panes[i].id
            == after.panes[j].id ==> before.panes[i].command.output.is_prefix_of(
            after.panes[j].command.output,
        )
}

/// Handing input to the program of a pane leaves its output.
pub proof fn send_all_keeps_output(pane: PaneView, items: Seq<char>)
    ensures
        pane.send_all(items).command.output == pane.command.output,
    decreases items.len(),
{
    if items.len() > 0 {
        send_all_keeps_output(pane, items.drop_last());
    }
}

/// No request takes away or alters output of a pane that stays.
pub proof fn request_keeps_output(state: ShellView, request: RequestView)
    requires
        state.wf(),
    ensures
        keeps_output(state, state.carried_out(request).state),
{
    if let RequestView::Send { index, message } = request {
        if index < state.panes.len() {
            send_all_keeps_output(state.panes[index as int], message);
            send_all_keeps_name(state.panes[index as int], message);
        }
    }
}

/// No key press takes away or alters output that a pane holds: as long as
/// the program has a pane, what the pane held before is the beginning of
/// what it holds after.
pub proof fn key_keeps_output(state: ShellView, key: Keystroke)
    requires
        state.wf(),
    ensures
        keeps_output(state, state.key(key).state),
{
    if state.mode == InputMode::Command && key == Keystroke::Enter {
        if let Ok(request) = requested(words(state.input)) {
            request_keeps_output(state.taken(), request);
        }
    }
}

/// No report from the world takes away or alters output that a pane holds.
pub proof fn reports_keep_output(state: ShellView, id: u64)
    requires
        state.wf(),
    ensures
        forall|read: ReadView| keeps_output(state, #[trigger] state.read(id, read)),
        forall|ok: bool| keeps_output(state, #[trigger] state.written(id, ok)),
        keeps_output(state, state.exited(id)),
        keeps_output(state, state.input_taken(id)),
        forall|started: Result<(), Seq<char>>|
            keeps_output(state, (#[trigger] state.spawned(id, started)).state),
{
}

} // verus!

//! The shell: the line that the user edits, the panes, the history, and the
//! routing of key presses between them.
//!
//! The shell is driven from outside. Each key press and each report of the
//! world is handed to it as a call; the call changes the state and hands
//! back the effects to carry out.

use vstd::prelude::*;
use vstd::string::*;
use crate::cache::CommandCache;
use crate::command::{Command, Mode, Read, TerminalSize};
use crate::config::Config;
use crate::effect::{effects_view, Effect, EffectView, SpawnRequest};
use crate::error::{Error, Lookup};
use crate::event::Event;
use crate::history::HistoryLog;
use crate::inbuilt::Request;
use crate::input::InputMode;
use crate::key::{KeyPress, Keystroke};
use crate::pane::{Pane, PaneView};
use crate::pane_set::PaneSet;
use crate::state::{key_keeps_wf, kills, place_is_sure, request_keeps_wf, ShellView};
use crate::text::{chars_of, string_of, strings_view};

verus! {

/// What is known of the surroundings when the shell starts.
#[derive(Clone, Debug, PartialEq, Eq)]
pub struct Context {
    pub username: String,
    /// The working directory.
    pub current_dir: String,
    pub terminal_size: TerminalSize,
}

/// What each of `shown` holds.
pub open spec fn shown_view(shown: Seq<Vec<u8>>) -> Seq<Seq<u8>> {
    shown.map_values(|bytes: Vec<u8>| bytes@)
}

/// What each of `panes` shows.
pub open spec fn rendered(panes: Seq<PaneView>) -> Seq<Seq<u8>> {
    panes.map_values(|pane: PaneView| pane.render())
}

/// The shell.
#[derive(Debug)]
pub struct Shell {
    username: String,
    current_dir: String,
    error: String,
    input: Vec<char>,
    column: usize,
    input_mode: InputMode,
    active_pane: usize,
    panes: PaneSet,
    history: HistoryLog,
    commands: CommandCache,
    terminal_size: TerminalSize,
    next_id: u64,
    pending: Option<SpawnRequest>,
    running: bool,
}

impl View for Shell {
    type V = ShellView;

    closed spec fn view(&self) -> ShellView {
        ShellView {
            username: self.username@,
            current_dir: self.current_dir@,
            error: self.error@,
            input: self.input@,
            cursor: self.column as nat + 1,
            mode: self.input_mode,
            active_pane: self.active_pane as nat,
            panes: self.panes@,
            max_outputs: self.panes.limit(),
            history: self.history@,
            commands: self.commands@,
            terminal_size: self.terminal_size,
            next_id: self.next_id as nat,
            pending: match self.pending {
                Some(request) => Some(request@),
                None => None,
            },
            running: self.running,
        }
    }
}

impl Shell {
    /// A shell in its first state.
    pub fn new(
        context: Context,
        config: &Config,
        error: String,
        history: Vec<String>,
        commands: CommandCache,
    ) -> (shell: Self)
        requires
            config.usable(),
        ensures
            shell@.wf(),
            shell@ == ShellView::initial(
                context.username@,
                context.current_dir@,
                context.terminal_size,
                config.max_outputs as nat,
                config.history_size as nat,
                error@,
                strings_view(history@),
                commands@,
            ),
    {
        Self {
            username: context.username,
            current_dir: context.current_dir,
            error,
            input: Vec::new(),
            column: 0,
            input_mode: InputMode::Command,
            active_pane: 0,
            panes: PaneSet::new(config.max_outputs),
            history: HistoryLog::with_lines(config.history_size, history),
            commands,
            terminal_size: context.terminal_size,
            next_id: 0,
            pending: None,
            running: true,
        }
    }

    /// The name of the user, as shown.
    pub fn username(&self) -> (username: String)
        ensures
            username@ == self@.username,
    {
        self.username.clone()
    }

    /// The working directory, as shown.
    pub fn current_dir(&self) -> (dir: String)
        ensures
            dir@ == self@.current_dir,
    {
        self.current_dir.clone()
    }

    /// The last error, as shown; empty if there is none to show.
    pub fn error(&self) -> (error: String)
        ensures
            error@ == self@.error,
    {
        self.error.clone()
    }

    /// The line that the user edits.
    pub fn input(&self) -> (line: String)
        ensures
            line@ == self@.input,
    {
        string_of(&self.input)
    }

    /// How many characters of the line stand in front of the cursor: one
    /// less than the place of the cursor, which is counted from one.
    pub fn column(&self) -> (column: usize)
        ensures
            column + 1 == self@.cursor,
    {
        self.column
    }

    /// Where key presses go.
    pub fn input_mode(&self) -> (mode: InputMode)
        ensures
            mode == self@.mode,
    {
        self.input_mode
    }

    /// The position of the active pane.
    pub fn active_pane(&self) -> (active: usize)
        ensures
            active == self@.active_pane,
    {
        self.active_pane
    }

    /// How many panes there are.
    pub fn pane_count(&self) -> (count: usize)
        ensures
            count == self@.panes.len(),
    {
        self.panes.len()
    }

    /// The pane at `index`, if there is one.
    pub fn pane(&self, index: usize) -> (pane: Option<&Pane>)
        ensures
            index < self@.panes.len() ==> (pane matches Some(p) && p@ == self@.panes[index as int]),
            index >= self@.panes.len() ==> pane is None,
    {
        self.panes.get(index)
    }

    /// The lines of the history, oldest first.
    pub fn history(&self) -> (lines: Vec<String>)
        ensures
            strings_view(lines@) == self@.history.entries,
    {
        self.history.entries()
    }

    /// Whether the shell has not been left yet.
    pub fn is_running(&self) -> (running: bool)
        ensures
            running == self@.running,
    {
        self.running
    }

    /// What each pane shows, oldest pane first.
    pub fn render(&self) -> (shown: Vec<Vec<u8>>)
        ensures
            shown_view(shown@) == rendered(self@.panes),
    {
        let mut shown: Vec<Vec<u8>> = Vec::new();
        let mut i: usize = 0;
        while i < self.panes.len()
            invariant
                i <= self.panes@.len(),
                shown_view(shown@) == rendered(self@.panes.take(i as int)),
            decreases self.panes@.len() - i,
        {
            match self.panes.get(i) {
                Some(pane) => {
                    shown.push(pane.render());
                },
                None => {},
            }
            proof {
                let panes = self@.panes;
                assert(rendered(panes.take(i + 1)) =~= rendered(panes.take(i as int)).push(
                    panes[i as int].render(),
                ));
            }
            i += 1;
        }
        shown
    }

    /// The position of the pane of the program known as `id`.
    fn find(&self, id: u64) -> (found: Option<usize>)
        requires
            self@.wf(),
        ensures
            match found {
                Some(i) => self@.knows(id) && i == self@.place(id),
                None => !self@.knows(id),
            },
    {
        let mut i: usize = 0;
        while i < self.panes.len()
            invariant
                i <= self.panes@.len(),
                self@.wf(),
                forall|j: int| 0 <= j < i ==> (#[trigger] self@.panes[j]).id != id,
            decreases self.panes@.len() - i,
        {
            match self.panes.get(i) {
                Some(pane) => {
                    if pane.id() == id {
                        return Some(i);
                    }
                },
                None => {},
            }
            i += 1;
        }
        None
    }

    /// The name by which the program of the pane at `index` is known, if
    /// that program takes input.
    fn target(&self, index: usize) -> (id: Option<u64>)
        requires
            index < self@.panes.len(),
        ensures
            id == if self@.panes[index as int].command.accepts_input() {
                Some(self@.panes[index as int].id)
            } else {
                None
            },
    {
        match self.panes.get(index) {
            Some(pane) => if pane.accepts_input() {
                Some(pane.id())
            } else {
                None
            },
            None => None,
        }
    }

    /// Leaves `error` as the error to show.
    fn fail(&mut self, error: Error)
        ensures
            final(self)@ == old(self)@.failed(error.text()),
    {
        self.error = error.message();
    }

    /// Makes `line` the line that the user edits, with the cursor behind it.
    fn recall(&mut self, line: String)
        ensures
            final(self)@ == (ShellView {
                input: line@,
                cursor: line@.len() + 1,
                ..old(self)@
            }),
    {
        self.input = chars_of(line.as_str());
        self.column = self.input.len();
    }

    /// A copy of `request`.
    fn copy_of(request: &SpawnRequest) -> (copy: SpawnRequest)
        ensures
            copy@ == request@,
    {
        let args = request.args.clone();
        SpawnRequest { id: request.id, program: request.program.clone(), args, mode: request.mode }
    }

    /// The order to terminate the program of each of `panes`.
    fn kill_all(panes: &Vec<Pane>) -> (effects: Vec<Effect>)
        ensures
            effects_view(effects@) == kills(crate::pane_set::panes_view(panes@)),
    {
        let ghost all = crate::pane_set::panes_view(panes@);
        let mut effects: Vec<Effect> = Vec::new();
        let mut i: usize = 0;
        while i < panes.len()
            invariant
                i <= panes.len(),
                all == crate::pane_set::panes_view(panes@),
                effects_view(effects@) == kills(all.take(i as int)),
            decreases panes.len() - i,
        {
            effects.push(Effect::Kill(panes[i].id()));
            proof {
                assert(kills(all.take(i + 1)) =~= kills(all.take(i as int)).push(
                    EffectView::Kill(all[i as int].id),
                ));
            }
            i += 1;
        }
        effects
    }

    /// Carries out `request` and hands back the effects that it asks for.
    pub fn execute(&mut self, request: Request) -> (effects: Vec<Effect>)
        requires
            old(self)@.wf(),
        ensures
            final(self)@.wf(),
            final(self)@ == old(self)@.carried_out(request@).state,
            effects_view(effects@) == old(self)@.carried_out(request@).effects,
    {
        proof {
            request_keeps_wf(old(self)@, request@);
        }
        match request {
            Request::Nothing => Vec::new(),
            Request::ChangeDir { dir } => vec![Effect::ChangeDir(dir)],
            Request::ClearAll => {
                let removed = self.panes.clear();
                self.active_pane = 0;
                Self::kill_all(&removed)
            },
            Request::ClearPane { index } => {
                match self.panes.remove(index) {
                    Some(pane) => {
                        let left = self.panes.len();
                        if self.active_pane >= left {
                            self.active_pane = if left == 0 {
                                0
                            } else {
                                left - 1
                            };
                        }
                        vec![Effect::Kill(pane.id())]
                    },
                    None => {
                        self.fail(Error::LookupFailure(Lookup::OutOfRange));
                        Vec::new()
                    },
                }
            },
            Request::Send { index, message } => {
                if self.panes.is_empty() {
                    self.fail(Error::LookupFailure(Lookup::NoPanes));
                    Vec::new()
                } else if index >= self.panes.len() {
                    self.fail(Error::LookupFailure(Lookup::OutOfRange));
                    Vec::new()
                } else {
                    let items = chars_of(message.as_str());
                    match self.target(index) {
                        Some(id) => {
                            let _ = self.panes.pane_mut(index).send_all(&items);
                            vec![Effect::Deliver(id)]
                        },
                        None => {
                            self.fail(Error::ChannelClosed);
                            Vec::new()
                        },
                    }
                }
            },
            Request::Reload => vec![Effect::Reload],
            Request::Exit => {
                let removed = self.panes.clear();
                self.active_pane = 0;
                self.running = false;
                let mut effects = Self::kill_all(&removed);
                let ghost asked = effects_view(effects@);
                effects.push(Effect::Exit(self.history.entries()));
                assert(effects_view(effects@) =~= asked.push(
                    EffectView::Exit(old(self)@.history.entries),
                ));
                effects
            },
            Request::Run { name, args } => {
                match self.commands.resolve(&name) {
                    None => Vec::new(),
                    Some(program) => {
                        if self.next_id == u64::MAX {
                            self.error = String::from_str("no name is left for another program");
                            Vec::new()
                        } else {
                            let request = SpawnRequest {
                                id: self.next_id,
                                program,
                                args,
                                mode: Mode::Pty(self.terminal_size),
                            };
                            self.pending = Some(Self::copy_of(&request));
                            self.next_id += 1;
                            vec![Effect::Spawn(request)]
                        }
                    },
                }
            },
        }
    }

    /// Submits the line.
    fn submit(&mut self) -> (effects: Vec<Effect>)
        requires
            old(self)@.wf(),
            old(self)@.mode == InputMode::Command,
        ensures
            final(self)@ == old(self)@.key(Keystroke::Enter).state,
            effects_view(effects@) == old(self)@.key(Keystroke::Enter).effects,
    {
        let line = string_of(&self.input);
        let parsed = Request::parse(line.as_str());
        match parsed {
            Ok(Request::Nothing) => Vec::new(),
            _ => {
                self.history.push(line.clone());
                self.input = Vec::new();
                self.column = 0;
                self.error = String::new();
                let mut effects = vec![Effect::Remember(line)];
                match parsed {
                    Ok(request) => {
                        let mut more = self.execute(request);
                        effects.append(&mut more);
                    },
                    Err(error) => {
                        self.fail(error);
                    },
                }
                effects
            },
        }
    }

    /// Takes a key press while the user edits the line.
    fn command_key(&mut self, key: Keystroke) -> (effects: Vec<Effect>)
        requires
            old(self)@.wf(),
            old(self)@.mode == InputMode::Command,
        ensures
            final(self)@ == old(self)@.key(key).state,
            effects_view(effects@) == old(self)@.key(key).effects,
    {
        match key {
            Keystroke::Char(c) => {
                self.input.insert(self.column, c);
                proof {
                    vstd::std_specs::vec::axiom_spec_len(&self.input);
                }
                self.column += 1;
                Vec::new()
            },
            Keystroke::Backspace => {
                if self.column > 0 {
                    self.input.remove(self.column - 1);
                    self.column -= 1;
                }
                Vec::new()
            },
            Keystroke::Left => {
                if self.column > 0 {
                    self.column -= 1;
                }
                Vec::new()
            },
            Keystroke::Right => {
                if self.column < self.input.len() {
                    self.column += 1;
                }
                Vec::new()
            },
            Keystroke::Up => {
                match self.history.previous() {
                    Some(line) => self.recall(line),
                    None => {},
                }
                Vec::new()
            },
            Keystroke::Down => {
                match self.history.next() {
                    Some(line) => self.recall(line),
                    None => {},
                }
                Vec::new()
            },
            Keystroke::Enter => self.submit(),
            Keystroke::SwitchMode => {
                if self.panes.len() >= 1 {
                    self.input_mode = InputMode::Interact;
                }
                Vec::new()
            },
            _ => Vec::new(),
        }
    }

    /// Hands a character to the program of the active pane.
    fn forward(&mut self, c: char) -> (effects: Vec<Effect>)
        requires
            old(self)@.wf(),
        ensures
            final(self)@ == old(self)@.forwarded(c).state,
            effects_view(effects@) == old(self)@.forwarded(c).effects,
    {
        if self.active_pane >= self.panes.len() {
            Vec::new()
        } else {
            match self.target(self.active_pane) {
                Some(id) => {
                    let _ = self.panes.pane_mut(self.active_pane).send(c);
                    let effects = vec![Effect::Deliver(id)];
                    effects
                },
                None => {
                    self.fail(Error::ChannelClosed);
                    Vec::new()
                },
            }
        }
    }

    /// Takes a key press while the user talks to a pane.
    fn interact_key(&mut self, key: Keystroke) -> (effects: Vec<Effect>)
        requires
            old(self)@.wf(),
            old(self)@.mode == InputMode::Interact,
        ensures
            final(self)@ == old(self)@.key(key).state,
            effects_view(effects@) == old(self)@.key(key).effects,
    {
        match key {
            Keystroke::Char(c) => self.forward(c),
            Keystroke::Enter => self.forward('\n'),
            Keystroke::PreviousPane => {
                if self.active_pane > 0 {
                    self.active_pane -= 1;
                }
                Vec::new()
            },
            Keystroke::NextPane => {
                if self.active_pane < self.panes.len() && self.active_pane + 1 < self.panes.len() {
                    self.active_pane += 1;
                }
                Vec::new()
            },
            Keystroke::SwitchMode => {
                self.input_mode = InputMode::Command;
                Vec::new()
            },
            _ => Vec::new(),
        }
    }

    /// Takes a key press and hands back the effects that it asks for.
    pub fn handle_key(&mut self, key: Keystroke) -> (effects: Vec<Effect>)
        requires
            old(self)@.wf(),
        ensures
            final(self)@.wf(),
            final(self)@ == old(self)@.key(key).state,
            effects_view(effects@) == old(self)@.key(key).effects,
    {
        proof {
            key_keeps_wf(old(self)@, key);
        }
        match self.input_mode {
            InputMode::Command => self.command_key(key),
            InputMode::Interact => self.interact_key(key),
        }
    }

    /// Takes one turn of the loop. A tick asks for a redraw and changes
    /// nothing; an input is taken as the key press that it stands for.
    pub fn handle(&mut self, event: Event<KeyPress>) -> (effects: Vec<Effect>)
        requires
            old(self)@.wf(),
        ensures
            final(self)@.wf(),
            match event {
                Event::Input(press) => final(self)@ == old(self)@.key(Keystroke::of(press)).state
                    && effects_view(effects@) == old(self)@.key(Keystroke::of(press)).effects,
                Event::Tick => final(self)@ == old(self)@ && effects_view(effects@) == seq![
                    EffectView::Redraw,
                ],
            },
    {
        match event {
            Event::Input(press) => self.handle_key(Keystroke::from_press(press)),
            Event::Tick => {
                let effects = vec![Effect::Redraw];
                effects
            },
        }
    }

    /// Takes the report on the start of the program known as `id`: that it
    /// runs, or why it could not be started. If that program is the one
    /// being started, its pane comes in on success, and the oldest pane
    /// leaves if there was no room; on failure the reason is left as the
    /// error to show. Any other report changes nothing; if it tells of a
    /// program that runs without a pane, that program is to be terminated.
    pub fn spawned(&mut self, id: u64, started: Result<(), String>) -> (effects: Vec<Effect>)
        requires
            old(self)@.wf(),
        ensures
            final(self)@.wf(),
            final(self)@ == old(self)@.spawned(id, Self::report_view(started)).state,
            effects_view(effects@) == old(self)@.spawned(id, Self::report_view(started)).effects,
    {
        let awaited = match &self.pending {
            Some(request) => request.id == id,
            None => false,
        };
        if !awaited {
            return match (started, self.find(id)) {
                (Ok(()), None) => vec![Effect::Kill(id)],
                _ => Vec::new(),
            };
        }
        let request = self.pending.take().unwrap();
        match started {
            Ok(()) => {
                let mut command = Command::new(request.program.as_str());
                command.args(&request.args);
                command.mode(request.mode);
                let _ = command.spawn(Ok(()));
                match self.panes.push(Pane::new(id, command)) {
                    Some(oldest) => vec![Effect::Kill(oldest.id())],
                    None => Vec::new(),
                }
            },
            Err(reason) => {
                self.error = reason;
                Vec::new()
            },
        }
    }

    /// What a report on the start of a program holds.
    pub open spec fn report_view(started: Result<(), String>) -> Result<(), Seq<char>> {
        match started {
            Ok(_) => Ok(()),
            Err(reason) => Err(reason@),
        }
    }

    /// What a report on a change of the working directory holds.
    pub open spec fn change_view(changed: Result<String, String>) -> Result<Seq<char>, Seq<char>> {
        match changed {
            Ok(dir) => Ok(dir@),
            Err(reason) => Err(reason@),
        }
    }

    /// Takes the report on a change of the working directory: the new
    /// directory, which is then shown, or the reason why it could not be
    /// entered, which is left as the error to show.
    pub fn directory_changed(&mut self, changed: Result<String, String>)
        requires
            old(self)@.wf(),
        ensures
            final(self)@.wf(),
            final(self)@ == old(self)@.directory_changed(Self::change_view(changed)),
    {
        match changed {
            Ok(dir) => {
                self.current_dir = dir;
            },
            Err(reason) => {
                self.error = reason;
            },
        }
    }

    /// Takes in the programs that can be run.
    pub fn reloaded(&mut self, commands: CommandCache)
        requires
            old(self)@.wf(),
        ensures
            final(self)@.wf(),
            final(self)@ == old(self)@.reloaded(commands@),
    {
        self.commands = commands;
    }

    /// Takes in what one read from the output of the program known as `id`
    /// gave, and tells whether the reader goes on. The reader of a program
    /// whose pane is gone stops.
    pub fn read(&mut self, id: u64, read: Read) -> (goes_on: bool)
        requires
            old(self)@.wf(),
        ensures
            final(self)@.wf(),
            final(self)@ == old(self)@.read(id, read@),
            goes_on == old(self)@.reads_on(id, read@),
    {
        match self.find(id) {
            Some(i) => self.panes.pane_mut(i).read(read),
            None => false,
        }
    }

    /// Takes note that the program known as `id` has ended. Its pane stays.
    pub fn exited(&mut self, id: u64)
        requires
            old(self)@.wf(),
        ensures
            final(self)@.wf(),
            final(self)@ == old(self)@.exited(id),
    {
        match self.find(id) {
            Some(i) => {
                self.panes.pane_mut(i).kill();
            },
            None => {},
        }
    }

    /// Takes the oldest input that waits for the program known as `id` for
    /// delivery, if there is any to deliver.
    pub fn next_input(&mut self, id: u64) -> (item: Option<char>)
        requires
            old(self)@.wf(),
        ensures
            final(self)@.wf(),
            final(self)@ == old(self)@.input_taken(id),
            item == old(self)@.next_input(id),
    {
        match self.find(id) {
            Some(i) => self.panes.pane_mut(i).next_input(),
            None => None,
        }
    }

    /// Takes note of how writing to the program known as `id` went, and
    /// tells whether delivery goes on. Delivery to a program whose pane is
    /// gone stops.
    pub fn written(&mut self, id: u64, ok: bool) -> (goes_on: bool)
        requires
            old(self)@.wf(),
        ensures
            final(self)@.wf(),
            final(self)@ == old(self)@.written(id, ok),
            goes_on == (final(self)@.knows(id) && final(self)@.panes[final(self)@.place(
                id,
            )].command.writing),
    {
        match self.find(id) {
            Some(i) => {
                let goes_on = self.panes.pane_mut(i).written(ok);
                proof {
                    place_is_sure(self@, i as int);
                }
                goes_on
            },
            None => false,
        }
    }

    /// Brings one more line of the active pane back into sight.
    pub fn scroll_up(&mut self)
        requires
            old(self)@.wf(),
        ensures
            final(self)@.wf(),
            final(self)@ == old(self)@.scrolled(true),
    {
        if self.active_pane < self.panes.len() {
            self.panes.pane_mut(self.active_pane).scroll_up();
        }
    }

    /// Scrolls one more line of the active pane out of sight.
    pub fn scroll_down(&mut self)
        requires
            old(self)@.wf(),
        ensures
            final(self)@.wf(),
            final(self)@ == old(self)@.scrolled(false),
    {
        if self.active_pane < self.panes.len() {
            self.panes.pane_mut(self.active_pane).scroll_down();
        }
    }
}

} // verus!

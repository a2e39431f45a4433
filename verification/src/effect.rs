//! What the shell asks of the world around it. The shell itself starts no
//! program and touches no file: each step hands back the effects to carry
//! out, in order.

use vstd::prelude::*;
use crate::command::Mode;
use crate::text::strings_view;

verus! {

/// A program to start.
#[derive(Clone, Debug, PartialEq, Eq)]
pub struct SpawnRequest {
    /// The name by which the program is known from now on.
    pub id: u64,
    /// The path of the program.
    pub program: String,
    pub args: Vec<String>,
    pub mode: Mode,
}

/// What a `SpawnRequest` holds.
pub struct SpawnView {
    pub id: u64,
    pub program: Seq<char>,
    pub args: Seq<Seq<char>>,
    pub mode: Mode,
}

impl View for SpawnRequest {
    type V = SpawnView;

    open spec fn view(&self) -> SpawnView {
        SpawnView {
            id: self.id,
            program: self.program@,
            args: strings_view(self.args@),
            mode: self.mode,
        }
    }
}

/// One thing to carry out.
#[derive(Clone, Debug, PartialEq, Eq)]
pub enum Effect {
    /// Start the program, then tell the shell how that went.
    Spawn(SpawnRequest),
    /// Terminate the program known as `id`: its pane is gone.
    Kill(u64),
    /// Deliver the input that waits for the program known as `id`.
    Deliver(u64),
    /// Make the directory the working directory, then tell the shell how
    /// that went.
    ChangeDir(String),
    /// Look again for the programs that can be run, then hand the shell
    /// what was found.
    Reload,
    /// Add the line to the kept history.
    Remember(String),
    /// Write down the history, then leave the loop. The programs of all
    /// panes are terminated before.
    Exit(Vec<String>),
    /// Draw all panes and the line anew.
    Redraw,
}

/// What an `Effect` holds.
pub enum EffectView {
    Spawn(SpawnView),
    Kill(u64),
    Deliver(u64),
    ChangeDir(Seq<char>),
    Reload,
    Remember(Seq<char>),
    Exit(Seq<Seq<char>>),
    Redraw,
}

impl View for Effect {
    type V = EffectView;

    open spec fn view(&self) -> EffectView {
        match self {
            Effect::Spawn(request) => EffectView::Spawn(request@),
            Effect::Kill(id) => EffectView::Kill(*id),
            Effect::Deliver(id) => EffectView::Deliver(*id),
            Effect::ChangeDir(dir) => EffectView::ChangeDir(dir@),
            Effect::Reload => EffectView::Reload,
            Effect::Remember(line) => EffectView::Remember(line@),
            Effect::Exit(history) => EffectView::Exit(strings_view(history@)),
            Effect::Redraw => EffectView::Redraw,
        }
    }
}

/// What a list of effects holds.
pub open spec fn effects_view(effects: Seq<Effect>) -> Seq<EffectView> {
    effects.map_values(|effect: Effect| effect@)
}

} // verus!

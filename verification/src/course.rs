//! What holds of the shell over any course of events: whatever happens, and
//! in whatever order, the state stays sound and no pane loses output.

use vstd::prelude::*;
use crate::command::ReadView;
use crate::inbuilt::{requested, RequestView};
use crate::input::InputMode;
use crate::key::Keystroke;
use crate::state::{
    key_keeps_output,
    key_keeps_wf,
    keeps_output,
    reports_keep_output,
    reports_keep_wf,
    request_keeps_output,
    request_keeps_wf,
    scrolling_keeps_wf,
    send_all_keeps_name,
    spawned_keeps_wf,
    ShellView,
};
use crate::text::words;

verus! {

/// One thing that happens to the shell: a call of one of its operations.
pub enum Happening {
    Key(Keystroke),
    Request(RequestView),
    Spawned(u64, Result<(), Seq<char>>),
    DirectoryChanged(Result<Seq<char>, Seq<char>>),
    Reloaded(Map<Seq<char>, Seq<char>>),
    Read(u64, ReadView),
    Exited(u64),
    InputTaken(u64),
    Written(u64, bool),
    Scrolled(bool),
}

impl ShellView {
    /// The state after one thing happened.
    pub open spec fn after(self, happening: Happening) -> ShellView {
        match happening {
            Happening::Key(key) => self.key(key).state,
            Happening::Request(request) => self.carried_out(request).state,
            Happening::Spawned(id, started) => self.spawned(id, started).state,
            Happening::DirectoryChanged(changed) => self.directory_changed(changed),
            Happening::Reloaded(commands) => self.reloaded(commands),
            Happening::Read(id, read) => self.read(id, read),
            Happening::Exited(id) => self.exited(id),
            Happening::InputTaken(id) => self.input_taken(id),
            Happening::Written(id, ok) => self.written(id, ok),
            Happening::Scrolled(up) => self.scrolled(up),
        }
    }

    /// The state after each of `course` happened, in order.
    pub open spec fn after_all(self, course: Seq<Happening>) -> ShellView
        decreases course.len(),
    {
        if course.len() == 0 {
            self
        } else {
            self.after_all(course.drop_last()).after(course.last())
        }
    }

    /// Whether a program known as `id` can have come to a pane only after
    /// this state: the name was not given out yet, or it is the name of the
    /// program that is being started.
    pub open spec fn yet_to_come(self, id: u64) -> bool {
        id >= self.next_id || self.awaits(id)
    }
}

/// Whether `later` can have come out of `first`: names were given out in
/// rising order, each pane of `later` is one of `first` or came after it,
/// and so did the program that is being started.
pub open spec fn descends(first: ShellView, later: ShellView) -> bool {
    &&& first.next_id <= later.next_id
    &&& forall|j: int|
        0 <= j < later.panes.len() ==> first.knows((#[trigger] later.panes[j]).id)
            || first.yet_to_come(later.panes[j].id)
    &&& later.pending matches Some(request) ==> first.yet_to_come(request.id)
}

/// Whatever happens, the state stays sound.
pub proof fn happening_keeps_wf(state: ShellView, happening: Happening)
    requires
        state.wf(),
    ensures
        state.after(happening).wf(),
{
    match happening {
        Happening::Key(key) => key_keeps_wf(state, key),
        Happening::Request(request) => request_keeps_wf(state, request),
        Happening::Spawned(id, started) => spawned_keeps_wf(state, id, started),
        Happening::Read(id, _) => reports_keep_wf(state, id),
        Happening::Exited(id) => reports_keep_wf(state, id),
        Happening::InputTaken(id) => reports_keep_wf(state, id),
        Happening::Written(id, _) => reports_keep_wf(state, id),
        Happening::Scrolled(up) => scrolling_keeps_wf(state, up),
        _ => {},
    }
}

/// Whatever happens, no pane that stays loses output.
pub proof fn happening_keeps_output(state: ShellView, happening: Happening)
    requires
        state.wf(),
    ensures
        keeps_output(state, state.after(happening)),
{
    match happening {
        Happening::Key(key) => key_keeps_output(state, key),
        Happening::Request(request) => request_keeps_output(state, request),
        Happening::Spawned(id, _) => reports_keep_output(state, id),
        Happening::Read(id, _) => reports_keep_output(state, id),
        Happening::Exited(id) => reports_keep_output(state, id),
        Happening::InputTaken(id) => reports_keep_output(state, id),
        Happening::Written(id, _) => reports_keep_output(state, id),
        _ => {},
    }
}

/// Whatever happens, the state that comes out descends from the state
/// before.
pub proof fn happening_descends(state: ShellView, happening: Happening)
    requires
        state.wf(),
    ensures
        descends(state, state.after(happening)),
{
    match happening {
        Happening::Key(key) => {
            if state.mode == InputMode::Command && key == Keystroke::Enter {
                if let Ok(request) = requested(words(state.input)) {
                    request_descends(state.taken(), request);
                }
            }
        },
        Happening::Request(request) => request_descends(state, request),
        _ => {},
    }
}

/// The state after a request descends from the state before.
proof fn request_descends(state: ShellView, request: RequestView)
    requires
        state.wf(),
    ensures
        descends(state, state.carried_out(request).state),
{
    if let RequestView::Send { index, message } = request {
        if index < state.panes.len() {
            send_all_keeps_name(state.panes[index as int], message);
        }
    }
}

/// Over any course of events the state stays sound, and what comes out
/// descends from the first state.
pub proof fn course_keeps_wf(state: ShellView, course: Seq<Happening>)
    requires
        state.wf(),
    ensures
        state.after_all(course).wf(),
        descends(state, state.after_all(course)),
    decreases course.len(),
{
    if course.len() > 0 {
        let before = state.after_all(course.drop_last());
        course_keeps_wf(state, course.drop_last());
        happening_keeps_wf(before, course.last());
        happening_descends(before, course.last());
    }
}

/// Over any course of events, a pane that is there at the beginning and at
/// the end holds at the end all output that it held at the beginning,
/// unchanged, and behind it what came since.
pub proof fn course_keeps_output(state: ShellView, course: Seq<Happening>)
    requires
        state.wf(),
    ensures
        keeps_output(state, state.after_all(course)),
    decreases course.len(),
{
    if course.len() > 0 {
        let before = state.after_all(course.drop_last());
        course_keeps_output(state, course.drop_last());
        course_keeps_wf(state, course.drop_last());
        happening_keeps_output(before, course.last());
        happening_descends(before, course.last());
    }
}

} // verus!

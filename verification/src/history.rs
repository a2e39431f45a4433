//! The lines that were submitted to the shell, newest last, up to a bound,
//! and the place at which the user is looking while walking through them.

use vstd::prelude::*;
use crate::bounded::{newest, pushed, pushed_all, pushes_keep_the_newest};
use crate::text::strings_view;

verus! {

/// The state of a history.
pub struct HistoryView {
    /// The lines, oldest first.
    pub entries: Seq<Seq<char>>,
    /// How many lines are kept at most.
    pub capacity: nat,
    /// The position of the line that the user looks at, or the number of
    /// lines while the user looks at none.
    pub cursor: nat,
}

impl HistoryView {
    /// At least one line is kept, no more lines are held than are kept,
    /// and the user looks at one of the lines or at none.
    pub open spec fn wf(self) -> bool {
        &&& 1 <= self.capacity
        &&& self.entries.len() <= self.capacity
        &&& self.cursor <= self.entries.len()
    }

    /// An empty history.
    pub open spec fn empty(capacity: nat) -> HistoryView {
        HistoryView { entries: Seq::empty(), capacity, cursor: 0 }
    }

    /// The history after `line` was submitted: it is the newest line, the
    /// oldest has left if there was no room, and the user looks at no line.
    pub open spec fn push(self, line: Seq<char>) -> HistoryView {
        let entries = pushed(self.entries, line, self.capacity);
        HistoryView { entries, capacity: self.capacity, cursor: entries.len() }
    }

    /// The history after each of `lines` was submitted, in order.
    pub open spec fn push_all(self, lines: Seq<Seq<char>>) -> HistoryView
        decreases lines.len(),
    {
        if lines.len() == 0 {
            self
        } else {
            self.push_all(lines.drop_last()).push(lines.last())
        }
    }

    /// Whether there is a line older than the one looked at.
    pub open spec fn has_older(self) -> bool {
        self.cursor > 0
    }

    /// Whether there is a line newer than the one looked at.
    pub open spec fn has_newer(self) -> bool {
        self.cursor + 1 < self.entries.len()
    }

    /// The user looks at the next older line, if there is one.
    pub open spec fn older(self) -> HistoryView {
        if self.has_older() {
            HistoryView { cursor: (self.cursor - 1) as nat, ..self }
        } else {
            self
        }
    }

    /// The user looks at the next newer line, if there is one.
    pub open spec fn newer(self) -> HistoryView {
        if self.has_newer() {
            HistoryView { cursor: self.cursor + 1, ..self }
        } else {
            self
        }
    }

    /// The user looks at no line.
    pub open spec fn reset(self) -> HistoryView {
        HistoryView { cursor: self.entries.len(), ..self }
    }
}

/// A history never holds more lines than its bound, whatever is submitted.
pub proof fn history_stays_bounded(history: HistoryView, lines: Seq<Seq<char>>)
    requires
        history.wf(),
    ensures
        history.push_all(lines).wf(),
        history.push_all(lines).capacity == history.capacity,
        history.push_all(lines).entries == pushed_all(history.entries, lines, history.capacity),
    decreases lines.len(),
{
    if lines.len() > 0 {
        history_stays_bounded(history, lines.drop_last());
    }
}

/// A history holds the newest of all lines that were ever in it, as many as
/// fit, in the order in which they were submitted.
pub proof fn history_keeps_the_newest(history: HistoryView, lines: Seq<Seq<char>>)
    requires
        history.wf(),
    ensures
        history.push_all(lines).entries == newest(history.entries + lines, history.capacity),
{
    history_stays_bounded(history, lines);
    pushes_keep_the_newest(history.entries, lines, history.capacity);
}

/// A line submitted to a full history drives out the oldest line: the
/// history stays full, the other lines move up by one and the new line is
/// the last.
pub proof fn full_history_drops_the_oldest(history: HistoryView, line: Seq<char>)
    requires
        history.wf(),
        history.entries.len() == history.capacity,
    ensures
        history.push(line).entries.len() == history.capacity,
        history.push(line).entries == history.entries.drop_first().push(line),
{
}

/// The submitted lines and the place of the user in them.
#[derive(Debug)]
pub struct HistoryLog {
    entries: Vec<String>,
    capacity: usize,
    cursor: usize,
}

impl View for HistoryLog {
    type V = HistoryView;

    closed spec fn view(&self) -> HistoryView {
        HistoryView {
            entries: strings_view(self.entries@),
            capacity: self.capacity as nat,
            cursor: self.cursor as nat,
        }
    }
}

impl HistoryLog {
    /// An empty history that keeps up to `capacity` lines.
    pub fn new(capacity: usize) -> (history: Self)
        requires
            capacity >= 1,
        ensures
            history@ == HistoryView::empty(capacity as nat),
            history@.wf(),
    {
        let history = Self { entries: Vec::new(), capacity, cursor: 0 };
        assert(history@.entries =~= Seq::<Seq<char>>::empty());
        history
    }

    /// A history that keeps up to `capacity` lines and starts with the
    /// newest of `lines`, which are given oldest first.
    pub fn with_lines(capacity: usize, lines: Vec<String>) -> (history: Self)
        requires
            capacity >= 1,
        ensures
            history@.wf(),
            history@.capacity == capacity,
            history@.entries == newest(strings_view(lines@), capacity as nat),
            history@.cursor == history@.entries.len(),
    {
        let mut history = Self::new(capacity);
        let ghost all = strings_view(lines@);
        let mut i: usize = 0;
        while i < lines.len()
            invariant
                i <= lines.len(),
                strings_view(lines@) == all,
                history@.wf(),
                history@ == HistoryView::empty(capacity as nat).push_all(all.take(i as int)),
            decreases lines.len() - i,
        {
            history.push(lines[i].clone());
            proof {
                assert(all.take(i + 1).drop_last() =~= all.take(i as int));
            }
            i += 1;
        }
        proof {
            assert(all.take(i as int) =~= all);
            history_keeps_the_newest(HistoryView::empty(capacity as nat), all);
            history_stays_bounded(HistoryView::empty(capacity as nat), all);
        }
        history
    }

    /// How many lines are held.
    pub fn len(&self) -> (len: usize)
        ensures
            len == self@.entries.len(),
    {
        self.entries.len()
    }

    /// How many lines are kept at most.
    pub fn capacity(&self) -> (capacity: usize)
        ensures
            capacity == self@.capacity,
    {
        self.capacity
    }

    /// A copy of the lines, oldest first.
    pub fn entries(&self) -> (entries: Vec<String>)
        ensures
            strings_view(entries@) == self@.entries,
    {
        let entries = self.entries.clone();
        entries
    }

    /// Takes in a submitted line as the newest. If the history is full the
    /// oldest line leaves. The user then looks at no line.
    pub fn push(&mut self, line: String)
        requires
            old(self)@.wf(),
        ensures
            final(self)@ == old(self)@.push(line@),
            final(self)@.wf(),
    {
        if self.entries.len() == self.capacity {
            self.entries.remove(0);
        }
        self.entries.push(line);
        self.cursor = self.entries.len();
        assert(self@.entries =~= pushed(old(self)@.entries, line@, old(self)@.capacity));
    }

    /// Moves to the next older line and hands it out. Without an older line
    /// nothing moves and nothing is handed out.
    pub fn previous(&mut self) -> (line: Option<String>)
        requires
            old(self)@.wf(),
        ensures
            final(self)@ == old(self)@.older(),
            final(self)@.wf(),
            old(self)@.has_older() ==> (line matches Some(l) && l@ == old(self)@.entries[old(
                self)@.cursor as int - 1]),
            !old(self)@.has_older() ==> line is None,
    {
        if self.cursor > 0 {
            self.cursor -= 1;
            Some(self.entries[self.cursor].clone())
        } else {
            None
        }
    }

    /// Moves to the next newer line and hands it out. Without a newer line
    /// nothing moves and nothing is handed out.
    pub fn next(&mut self) -> (line: Option<String>)
        requires
            old(self)@.wf(),
        ensures
            final(self)@ == old(self)@.newer(),
            final(self)@.wf(),
            old(self)@.has_newer() ==> (line matches Some(l) && l@ == old(self)@.entries[old(
                self)@.cursor as int + 1]),
            !old(self)@.has_newer() ==> line is None,
    {
        if self.cursor < self.entries.len() && self.cursor + 1 < self.entries.len() {
            self.cursor += 1;
            Some(self.entries[self.cursor].clone())
        } else {
            None
        }
    }

    /// Ends the walk through the lines: the user looks at no line.
    pub fn reset(&mut self)
        requires
            old(self)@.wf(),
        ensures
            final(self)@ == old(self)@.reset(),
            final(self)@.wf(),
    {
        self.cursor = self.entries.len();
    }
}

} // verus!

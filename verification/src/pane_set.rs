//! The panes of a shell: an ordered collection of bounded size. A pane that
//! comes into a full collection drives out the oldest one.

use vstd::prelude::*;
use crate::bounded::pushed;
use crate::pane::{Pane, PaneView};

verus! {

/// What a list of panes holds.
pub open spec fn panes_view(panes: Seq<Pane>) -> Seq<PaneView> {
    panes.map_values(|pane: Pane| pane@)
}

/// Each of `panes` with its program asked to stop.
pub open spec fn all_killed(panes: Seq<PaneView>) -> Seq<PaneView> {
    panes.map_values(|pane: PaneView| pane.kill())
}

/// The position in the collection that a pane number given by the user
/// stands for. Users count from one; zero stands for the first pane too.
pub open spec fn normalized(external: nat) -> nat {
    if external <= 1 {
        0
    } else {
        (external - 1) as nat
    }
}

/// The panes, oldest first, and how many there may be.
#[derive(Debug)]
pub struct PaneSet {
    panes: Vec<Pane>,
    capacity: usize,
}

impl View for PaneSet {
    type V = Seq<PaneView>;

    closed spec fn view(&self) -> Seq<PaneView> {
        panes_view(self.panes@)
    }
}

impl PaneSet {
    /// How many panes there may be.
    pub closed spec fn limit(&self) -> nat {
        self.capacity as nat
    }

    /// There may be at least one pane, and there are no more than there may be.
    pub open spec fn wf(&self) -> bool {
        1 <= self.limit() && self@.len() <= self.limit()
    }

    /// An empty collection that holds up to `capacity` panes.
    pub fn new(capacity: usize) -> (set: Self)
        requires
            capacity >= 1,
        ensures
            set.wf(),
            set.limit() == capacity,
            set@ == Seq::<PaneView>::empty(),
    {
        let set = Self { panes: Vec::new(), capacity };
        set
    }

    /// How many panes there are.
    pub fn len(&self) -> (len: usize)
        ensures
            len == self@.len(),
    {
        self.panes.len()
    }

    /// Whether there is no pane.
    pub fn is_empty(&self) -> (empty: bool)
        ensures
            empty == (self@.len() == 0),
    {
        self.panes.len() == 0
    }

    /// How many panes there may be.
    pub fn capacity(&self) -> (capacity: usize)
        ensures
            capacity == self.limit(),
    {
        self.capacity
    }

    /// The position that a pane number given by the user stands for.
    pub fn normalize_index(external: usize) -> (index: usize)
        ensures
            index == normalized(external as nat),
    {
        if external <= 1 {
            0
        } else {
            external - 1
        }
    }

    /// Adds `pane` at the back. If the collection is full the oldest pane
    /// leaves first: its program is asked to stop, and it is handed back.
    pub fn push(&mut self, pane: Pane) -> (evicted: Option<Pane>)
        requires
            old(self).wf(),
        ensures
            final(self).wf(),
            final(self).limit() == old(self).limit(),
            final(self)@ == pushed(old(self)@, pane@, old(self).limit()),
            old(self)@.len() < old(self).limit() ==> evicted is None,
            old(self)@.len() == old(self).limit() ==> (evicted matches Some(oldest) && oldest@
                == old(self)@[0].kill()),
    {
        let evicted = if self.panes.len() == self.capacity {
            let mut oldest = self.panes.remove(0);
            oldest.kill();
            Some(oldest)
        } else {
            None
        };
        self.panes.push(pane);
        evicted
    }

    /// Takes out the pane at `index`, if there is one: its program is asked
    /// to stop, the panes behind it move up, and it is handed back.
    pub fn remove(&mut self, index: usize) -> (removed: Option<Pane>)
        requires
            old(self).wf(),
        ensures
            final(self).wf(),
            final(self).limit() == old(self).limit(),
            index < old(self)@.len() ==> final(self)@ == old(self)@.remove(index as int) && (
            removed matches Some(pane) && pane@ == old(self)@[index as int].kill()),
            index >= old(self)@.len() ==> final(self)@ == old(self)@ && removed is None,
    {
        if index < self.panes.len() {
            let mut pane = self.panes.remove(index);
            pane.kill();
            Some(pane)
        } else {
            None
        }
    }

    /// Takes out all panes: the program of each is asked to stop, and they
    /// are handed back, oldest first.
    pub fn clear(&mut self) -> (removed: Vec<Pane>)
        requires
            old(self).wf(),
        ensures
            final(self).wf(),
            final(self).limit() == old(self).limit(),
            final(self)@ == Seq::<PaneView>::empty(),
            panes_view(removed@) == all_killed(old(self)@),
    {
        let mut removed: Vec<Pane> = Vec::new();
        while self.panes.len() > 0
            invariant
                self.capacity == old(self).capacity,
                self.panes@.len() <= old(self).panes@.len(),
                removed@.len() + self.panes@.len() == old(self).panes@.len(),
                panes_view(removed@) == all_killed(old(self)@.take(removed@.len() as int)),
                self@ == old(self)@.skip(removed@.len() as int),
            decreases self.panes.len(),
        {
            let ghost held = self@;
            let ghost done = panes_view(removed@);
            let mut pane = self.panes.remove(0);
            pane.kill();
            removed.push(pane);
            proof {
                assert(self@ =~= held.drop_first());
                assert(panes_view(removed@) =~= done.push(held[0].kill()));
            }
        }
        removed
    }

    /// The pane at `index`, if there is one.
    pub fn get(&self, index: usize) -> (pane: Option<&Pane>)
        ensures
            index < self@.len() ==> (pane matches Some(p) && p@ == self@[index as int]),
            index >= self@.len() ==> pane is None,
    {
        if index < self.panes.len() {
            Some(&self.panes[index])
        } else {
            None
        }
    }

    /// The pane at `index`, to be worked on in place.
    pub fn pane_mut(&mut self, index: usize) -> (pane: &mut Pane)
        requires
            old(self).wf(),
            index < old(self)@.len(),
        ensures
            pane@ == old(self)@[index as int],
            final(self).wf(),
            final(self).limit() == old(self).limit(),
            final(self)@ == old(self)@.update(index as int, final(pane)@),
    {
        &mut self.panes[index]
    }
}

} // verus!

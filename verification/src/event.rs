//! What the terminal hands to the shell's loop.

use vstd::prelude::*;

verus! {

/// One turn of the loop: an input arrived, or the time to redraw has come.
#[derive(Clone, Copy, Debug, PartialEq, Eq)]
pub enum Event<I> {
    Input(I),
    Tick,
}

} // verus!

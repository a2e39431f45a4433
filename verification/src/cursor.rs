//! A position on the terminal screen.

use vstd::prelude::*;

verus! {

/// A screen position: column `x`, row `y`.
pub struct Cursor {
    x: u16,
    y: u16,
}

impl Cursor {
    /// The column.
    pub closed spec fn x(&self) -> u16 {
        self.x
    }

    /// The row.
    pub closed spec fn y(&self) -> u16 {
        self.y
    }

    /// A cursor at column `x` of row `y`.
    pub fn new(x: u16, y: u16) -> (cursor: Self)
        ensures
            cursor.x() == x,
            cursor.y() == y,
    {
        Self { x, y }
    }

    /// Moves one column to the left. There is no column left of column 0.
    pub fn move_left(&mut self)
        requires
            old(self).x() > 0,
        ensures
            final(self).x() == old(self).x() - 1,
            final(self).y() == old(self).y(),
    {
        self.x -= 1;
    }

    /// Moves one column to the right. The last column is `u16::MAX`.
    pub fn move_right(&mut self)
        requires
            old(self).x() < u16::MAX,
        ensures
            final(self).x() == old(self).x() + 1,
            final(self).y() == old(self).y(),
    {
        self.x += 1;
    }

    /// The column.
    pub fn get_x(&self) -> (x: u16)
        ensures
            x == self.x(),
    {
        self.x
    }

    /// The row.
    pub fn get_y(&self) -> (y: u16)
        ensures
            y == self.y(),
    {
        self.y
    }

    /// Puts the cursor at column `x` of row `y`.
    pub fn move_cursor(&mut self, x: u16, y: u16)
        ensures
            final(self).x() == x,
            final(self).y() == y,
    {
        self.x = x;
        self.y = y;
    }
}

} // verus!

//! Display-sort configuration of a table: the column sorted by, and the direction.

use vstd::prelude::*;

verus! {

/// The column a table is sorted by and whether the order is reversed.
#[derive(Debug, Clone, Copy, PartialEq, Eq, Structural)]
pub struct Sorting {
    sort_field: usize,
    sort_reverse: bool,
}

impl Sorting {
    /// The sort column.
    pub closed spec fn field(self) -> usize {
        self.sort_field
    }

    /// Whether the order is descending.
    pub closed spec fn reversed(self) -> bool {
        self.sort_reverse
    }

    /// The configuration after a click on column `index`: a second click on the
    /// current column flips the direction, any other column is taken ascending.
    pub open spec fn clicked(self, index: usize) -> (usize, bool) {
        if self.field() != index {
            (index, false)
        } else {
            (index, !self.reversed())
        }
    }

    /// Selects the sort column. Selecting the current column again toggles the
    /// direction; selecting another one switches to it, ascending.
    pub fn set_field(&mut self, index: usize)
        ensures
            (final(self).field(), final(self).reversed()) == old(self).clicked(index),
    {
        if self.sort_field != index {
            self.sort_field = index;
            self.sort_reverse = false;
        } else {
            self.sort_reverse = !self.sort_reverse;
        }
    }

    /// The current sort column.
    pub fn sort_field(&self) -> (r: usize)
        ensures
            r == self.field(),
    {
        self.sort_field
    }

    /// Whether the current order is reversed (descending).
    pub fn sort_reversed(&self) -> (r: bool)
        ensures
            r == self.reversed(),
    {
        self.sort_reverse
    }
}

impl Default for Sorting {
    /// Column 0, ascending.
    fn default() -> (r: Self)
        ensures
            r.field() == 0,
            !r.reversed(),
    {
        Sorting { sort_field: 0, sort_reverse: false }
    }
}

} // verus!

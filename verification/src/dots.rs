//! A rating of zero to five dots.

use vstd::prelude::*;
use vstd::std_specs::convert::FromSpecImpl;

verus! {

/// A rating from no dot to five dots.
#[derive(Debug, Copy, Clone, PartialEq, Eq, Structural, PartialOrd, Ord, Hash)]
pub enum Dots {
    Zero,
    One,
    Two,
    Three,
    Four,
    Five,
}

/// The labels of the six ratings, in order.
pub const DOT_STRINGS: [&'static str; 6] = ["○", "●", "●●", "●●●", "●●●●", "●●●●●"];

impl Dots {
    /// The number of dots.
    pub open spec fn count(self) -> int {
        match self {
            Dots::Zero => 0,
            Dots::One => 1,
            Dots::Two => 2,
            Dots::Three => 3,
            Dots::Four => 4,
            Dots::Five => 5,
        }
    }

    /// The rating of a number: itself up to five, no dot for anything larger.
    pub open spec fn of(value: int) -> Dots {
        if value == 1 {
            Dots::One
        } else if value == 2 {
            Dots::Two
        } else if value == 3 {
            Dots::Three
        } else if value == 4 {
            Dots::Four
        } else if value == 5 {
            Dots::Five
        } else {
            Dots::Zero
        }
    }

    /// A rating is the rating of its number of dots.
    pub proof fn law_of_count(self)
        ensures
            Dots::of(self.count()) == self,
            0 <= self.count() <= 5,
    {
    }

    /// The labels of the six ratings, in order: the label of a rating stands
    /// at the place of its number of dots.
    pub fn combo_list() -> (r: &'static [&'static str])
        ensures
            r@ == DOT_STRINGS@,
    {
        &DOT_STRINGS
    }

    /// The number of dots.
    pub fn number(self) -> (r: usize)
        ensures
            r == self.count(),
    {
        match self {
            Dots::Zero => 0,
            Dots::One => 1,
            Dots::Two => 2,
            Dots::Three => 3,
            Dots::Four => 4,
            Dots::Five => 5,
        }
    }

    /// The label of the rating.
    pub fn label(self) -> (r: &'static str)
        ensures
            r == DOT_STRINGS@[self.count()],
    {
        DOT_STRINGS[self.number()]
    }

    /// The label of the rating as a string of its own.
    pub fn to_string(&self) -> (r: String)
        ensures
            r@ == DOT_STRINGS@[self.count()]@,
    {
        self.label().to_owned()
    }
}

impl Default for Dots {
    fn default() -> (r: Self)
        ensures
            r == Dots::Zero,
    {
        Dots::Zero
    }
}

impl From<Dots> for usize {
    fn from(value: Dots) -> (r: usize) {
        value.number()
    }
}

impl FromSpecImpl<Dots> for usize {
    open spec fn obeys_from_spec() -> bool {
        true
    }

    open spec fn from_spec(value: Dots) -> usize {
        value.count() as usize
    }
}

impl From<usize> for Dots {
    fn from(value: usize) -> (r: Dots) {
        match value {
            0 => Dots::Zero,
            1 => Dots::One,
            2 => Dots::Two,
            3 => Dots::Three,
            4 => Dots::Four,
            5 => Dots::Five,
            _ => Dots::Zero,
        }
    }
}

impl FromSpecImpl<usize> for Dots {
    open spec fn obeys_from_spec() -> bool {
        true
    }

    open spec fn from_spec(value: usize) -> Dots {
        Dots::of(value as int)
    }
}

} // verus!

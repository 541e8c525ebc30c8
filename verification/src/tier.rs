//! The tier of a faction, zero to five.

use vstd::prelude::*;
use vstd::std_specs::convert::FromSpecImpl;

verus! {

/// A tier from 0 to V.
#[derive(Debug, Copy, Clone, PartialEq, Eq, Structural, PartialOrd, Ord, Hash)]
pub enum Tier {
    Tier0,
    Tier1,
    Tier2,
    Tier3,
    Tier4,
    Tier5,
}

/// The labels of the six tiers, in order.
pub const TIER_STRINGS: [&'static str; 6] = ["0", "I", "II", "III", "IV", "V"];

impl Tier {
    /// The number of the tier.
    pub open spec fn count(self) -> int {
        match self {
            Tier::Tier0 => 0,
            Tier::Tier1 => 1,
            Tier::Tier2 => 2,
            Tier::Tier3 => 3,
            Tier::Tier4 => 4,
            Tier::Tier5 => 5,
        }
    }

    /// The tier of a number: itself up to five, tier 0 for anything larger.
    pub open spec fn of(value: int) -> Tier {
        if value == 1 {
            Tier::Tier1
        } else if value == 2 {
            Tier::Tier2
        } else if value == 3 {
            Tier::Tier3
        } else if value == 4 {
            Tier::Tier4
        } else if value == 5 {
            Tier::Tier5
        } else {
            Tier::Tier0
        }
    }

    /// A tier is the tier of its number.
    pub proof fn law_of_count(self)
        ensures
            Tier::of(self.count()) == self,
            0 <= self.count() <= 5,
    {
    }

    /// The number of the tier.
    pub fn number(self) -> (r: usize)
        ensures
            r == self.count(),
    {
        match self {
            Tier::Tier0 => 0,
            Tier::Tier1 => 1,
            Tier::Tier2 => 2,
            Tier::Tier3 => 3,
            Tier::Tier4 => 4,
            Tier::Tier5 => 5,
        }
    }

    /// The label of the tier.
    pub fn label(self) -> (r: &'static str)
        ensures
            r == TIER_STRINGS@[self.count()],
    {
        TIER_STRINGS[self.number()]
    }

    /// The label of the tier as a string of its own.
    pub fn to_string(&self) -> (r: String)
        ensures
            r@ == TIER_STRINGS@[self.count()]@,
    {
        self.label().to_owned()
    }
}

impl Default for Tier {
    fn default() -> (r: Self)
        ensures
            r == Tier::Tier0,
    {
        Tier::Tier0
    }
}

impl From<Tier> for usize {
    fn from(value: Tier) -> (r: usize) {
        value.number()
    }
}

impl FromSpecImpl<Tier> for usize {
    open spec fn obeys_from_spec() -> bool {
        true
    }

    open spec fn from_spec(value: Tier) -> usize {
        value.count() as usize
    }
}

impl From<usize> for Tier {
    fn from(value: usize) -> (r: Tier) {
        match value {
            0 => Tier::Tier0,
            1 => Tier::Tier1,
            2 => Tier::Tier2,
            3 => Tier::Tier3,
            4 => Tier::Tier4,
            5 => Tier::Tier5,
            _ => Tier::Tier0,
        }
    }
}

impl FromSpecImpl<usize> for Tier {
    open spec fn obeys_from_spec() -> bool {
        true
    }

    open spec fn from_spec(value: usize) -> Tier {
        Tier::of(value as int)
    }
}

} // verus!

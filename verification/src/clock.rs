//! A progress clock: a number of parts, some of them ticked.

use crate::names::str_same;
use vstd::prelude::*;

verus! {

/// A progress clock of a faction.
#[derive(Debug)]
pub struct Clock {
    name: String,
    description: String,
    parts: u8,
    ticked: u8,
}

/// A clock as a mathematical value.
pub struct ClockView {
    pub name: Seq<char>,
    pub description: Seq<char>,
    pub parts: u8,
    pub ticked: u8,
}

impl ClockView {
    /// The clock after one more tick: the count rises by one but never above
    /// the number of parts.
    pub open spec fn ticked_once(self) -> ClockView {
        ClockView {
            ticked: if self.ticked < self.parts {
                (self.ticked + 1) as u8
            } else {
                self.parts
            },
            ..self
        }
    }

    /// Whether every part is ticked.
    pub open spec fn finished(self) -> bool {
        self.ticked >= self.parts
    }
}

impl View for Clock {
    type V = ClockView;

    closed spec fn view(&self) -> ClockView {
        ClockView {
            name: self.name@,
            description: self.description@,
            parts: self.parts,
            ticked: self.ticked,
        }
    }
}

impl Clone for Clock {
    fn clone(&self) -> (r: Self)
        ensures
            r@ == self@,
    {
        Clock {
            name: self.name.clone(),
            description: self.description.clone(),
            parts: self.parts,
            ticked: self.ticked,
        }
    }
}

impl Default for Clock {
    /// A clock without name or parts.
    fn default() -> (r: Self)
        ensures
            r@ == (ClockView { name: Seq::empty(), description: Seq::empty(), parts: 0, ticked: 0 }),
    {
        Clock { name: String::new(), description: String::new(), parts: 0, ticked: 0 }
    }
}

impl Clock {
    /// A clock of four parts, none ticked.
    pub fn new_clock_4(name: &str, description: &str) -> (r: Self)
        ensures
            r@ == (ClockView { name: name@, description: description@, parts: 4, ticked: 0 }),
    {
        Self::new(4, name, description)
    }

    /// A clock of six parts, none ticked.
    pub fn new_clock_6(name: &str, description: &str) -> (r: Self)
        ensures
            r@ == (ClockView { name: name@, description: description@, parts: 6, ticked: 0 }),
    {
        Self::new(6, name, description)
    }

    /// A clock of eight parts, none ticked.
    pub fn new_clock_8(name: &str, description: &str) -> (r: Self)
        ensures
            r@ == (ClockView { name: name@, description: description@, parts: 8, ticked: 0 }),
    {
        Self::new(8, name, description)
    }

    /// A clock of twelve parts, none ticked.
    pub fn new_clock_12(name: &str, description: &str) -> (r: Self)
        ensures
            r@ == (ClockView { name: name@, description: description@, parts: 12, ticked: 0 }),
    {
        Self::new(12, name, description)
    }

    fn new(size: u8, name: &str, description: &str) -> (r: Self)
        ensures
            r@ == (ClockView { name: name@, description: description@, parts: size, ticked: 0 }),
    {
        Clock { name: name.to_owned(), description: description.to_owned(), parts: size, ticked: 0 }
    }

    /// A clock with the given state, as read back from a saved file.
    pub fn from_parts(name: String, description: String, parts: u8, ticked: u8) -> (r: Self)
        ensures
            r@ == (ClockView { name: name@, description: description@, parts, ticked }),
    {
        Clock { name, description, parts, ticked }
    }

    /// Whether two clocks are the same in name, description and state.
    pub fn same_as(&self, other: &Clock) -> (r: bool)
        ensures
            r == (self@ == other@),
    {
        str_same(self.name.as_str(), other.name.as_str()) && str_same(
            self.description.as_str(),
            other.description.as_str(),
        ) && self.parts == other.parts && self.ticked == other.ticked
    }

    /// The clock's name.
    pub fn name(&self) -> (r: &str)
        ensures
            r@ == self@.name,
    {
        self.name.as_str()
    }

    /// What the clock counts down to.
    pub fn description(&self) -> (r: &str)
        ensures
            r@ == self@.description,
    {
        self.description.as_str()
    }

    /// The number of ticks and the total number of parts.
    pub fn status(&self) -> (r: (u8, u8))
        ensures
            r == (self@.ticked, self@.parts),
    {
        (self.ticked, self.parts)
    }

    /// Ticks one more part, never beyond the last, and says whether the clock
    /// is finished now.
    pub fn tick(&mut self) -> (r: bool)
        ensures
            final(self)@ == old(self)@.ticked_once(),
            r == final(self)@.finished(),
    {
        if self.ticked < self.parts {
            self.ticked = self.ticked + 1;
        } else {
            self.ticked = self.parts;
        }
        self.ticked >= self.parts
    }
}

} // verus!

//! The commands that change the application's data.

use crate::district::{District, DistrictView};
use crate::faction::{Faction, FactionView};
use crate::managed_list::{DistrictRef, FactionRef, PersonRef, Step};
use crate::person::{Person, PersonView};
use std::collections::VecDeque;
use vstd::prelude::*;
use vstd::std_specs::convert::FromSpecImpl;

verus! {

/// A sequence of commands that are carried out together, first to last.
pub type ActionNode = VecDeque<Action>;

/// A command: to add a record, to remove the record of a handle, or to replace
/// the record of a handle, for each of the three kinds of record.
pub enum Action {
    /// Add district
    DistrictAdd(District),
    /// Remove district
    DistrictRemove(DistrictRef),
    /// Replace district
    DistrictReplace(DistrictRef, District),
    /// Add person
    PersonAdd(Person),
    /// Remove person
    PersonRemove(PersonRef),
    /// Replace person
    PersonReplace(PersonRef, Person),
    /// Add faction
    FactionAdd(Faction),
    /// Remove faction
    FactionRemove(FactionRef),
    /// Replace faction
    FactionReplace(FactionRef, Faction),
}

/// A command as a mathematical value: the arena it goes to, and what it asks
/// of that arena.
pub enum ActionView {
    District(Step<DistrictView>),
    Person(Step<PersonView>),
    Faction(Step<FactionView>),
}

impl View for Action {
    type V = ActionView;

    open spec fn view(&self) -> ActionView {
        match self {
            Action::DistrictAdd(d) => ActionView::District(Step::Add(d@)),
            Action::DistrictRemove(h) => ActionView::District(Step::Remove(h.slot())),
            Action::DistrictReplace(h, d) => ActionView::District(Step::Replace(h.slot(), d@)),
            Action::PersonAdd(p) => ActionView::Person(Step::Add(p@)),
            Action::PersonRemove(h) => ActionView::Person(Step::Remove(h.slot())),
            Action::PersonReplace(h, p) => ActionView::Person(Step::Replace(h.slot(), p@)),
            Action::FactionAdd(f) => ActionView::Faction(Step::Add(f@)),
            Action::FactionRemove(h) => ActionView::Faction(Step::Remove(h.slot())),
            Action::FactionReplace(h, f) => ActionView::Faction(Step::Replace(h.slot(), f@)),
        }
    }
}

/// The commands of a sequence as mathematical values.
pub open spec fn actions_view(actions: Seq<Action>) -> Seq<ActionView> {
    Seq::new(actions.len(), |i: int| actions[i]@)
}

impl Clone for Action {
    fn clone(&self) -> (r: Self)
        ensures
            r@ == self@,
    {
        match self {
            Action::DistrictAdd(d) => Action::DistrictAdd(d.clone()),
            Action::DistrictRemove(h) => Action::DistrictRemove(*h),
            Action::DistrictReplace(h, d) => Action::DistrictReplace(*h, d.clone()),
            Action::PersonAdd(p) => Action::PersonAdd(p.clone()),
            Action::PersonRemove(h) => Action::PersonRemove(*h),
            Action::PersonReplace(h, p) => Action::PersonReplace(*h, p.clone()),
            Action::FactionAdd(f) => Action::FactionAdd(f.clone()),
            Action::FactionRemove(h) => Action::FactionRemove(*h),
            Action::FactionReplace(h, f) => Action::FactionReplace(*h, f.clone()),
        }
    }
}

impl From<Action> for ActionNode {
    /// The sequence of the one command.
    fn from(value: Action) -> (r: Self)
        ensures
            r@ == seq![value],
    {
        let mut me = ActionNode::new();
        me.push_back(value);
        assert(me@ =~= seq![value]);
        me
    }
}

impl FromSpecImpl<Action> for ActionNode {
    open spec fn obeys_from_spec() -> bool {
        false
    }

    open spec fn from_spec(value: Action) -> Self {
        arbitrary()
    }
}

} // verus!

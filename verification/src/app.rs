//! The views of the main window and the outcome of an edit form.

use crate::action::Action;
use crate::app_data::AppData;
use crate::district::{District, DistrictView};
use crate::faction::{Faction, FactionView};
use crate::managed_list::{
    has_name, live_at, name_at, DistrictRef, FactionRef, GenericRef, Named, PersonRef, Slots, Step,
};
use crate::names::str_same;
use crate::person::{Person, PersonView};
use vstd::prelude::*;

verus! {

/// Which of the three tables the main window shows.
#[derive(Debug, Clone, Copy, PartialEq, Eq, Structural, Hash)]
pub enum MainView {
    Factions,
    Persons,
    Districts,
}

impl Default for MainView {
    /// The table of factions.
    fn default() -> (r: Self)
        ensures
            r == MainView::Factions,
    {
        MainView::Factions
    }
}

impl MainView {
    /// The message key of the kind of record that the view lists.
    pub open spec fn item_key(self) -> Seq<char> {
        match self {
            MainView::Factions => "main_item_faction"@,
            MainView::Persons => "main_item_person"@,
            MainView::Districts => "main_item_district"@,
        }
    }

    /// The message key of the view's own title.
    pub open spec fn title_key(self) -> Seq<char> {
        match self {
            MainView::Factions => "main_factions"@,
            MainView::Persons => "main_persons"@,
            MainView::Districts => "main_districts"@,
        }
    }

    /// The message key of the kind of record that the view lists.
    pub fn item_name(&self) -> (r: String)
        ensures
            r@ == self.item_key(),
    {
        match self {
            MainView::Factions => "main_item_faction".to_owned(),
            MainView::Persons => "main_item_person".to_owned(),
            MainView::Districts => "main_item_district".to_owned(),
        }
    }

    /// The message key of the view's own title.
    pub fn to_string(&self) -> (r: String)
        ensures
            r@ == self.title_key(),
    {
        match self {
            MainView::Factions => "main_factions".to_owned(),
            MainView::Persons => "main_persons".to_owned(),
            MainView::Districts => "main_districts".to_owned(),
        }
    }
}

/// How an edit form was left.
#[derive(Debug, Clone, Copy, PartialEq, Eq, Structural)]
pub enum EditResult {
    /// The edited record is to be saved.
    Submit,
    /// The edit is dropped.
    Ignore,
}

/// What an edit form shows of the record it edits, beside the record: whether
/// the name collides with another record's, and whether anything was changed.
///
/// For a new record (`slot` is `None`) the name collides where a live record
/// bears it, and the record counts as changed where it differs from the blank
/// one. For a record taken from a live slot the name collides where it was
/// changed to the name of a live record, and the record counts as changed
/// where the name or anything else differs from the record in the slot. For a
/// record whose slot is dead nothing collides and the record counts as
/// changed.
pub open spec fn edit_flags_of<T: Named>(
    s: Slots<T::V>,
    slot: Option<int>,
    item: T::V,
    same_as_taken: bool,
    same_as_blank: bool,
) -> (bool, bool) {
    match slot {
        Some(i) => if live_at::<T>(s, i) {
            if name_at::<T>(s, i) != T::name_of(item) {
                (has_name::<T>(s, T::name_of(item)), true)
            } else {
                (false, !same_as_taken)
            }
        } else {
            (false, true)
        },
        None => (has_name::<T>(s, T::name_of(item)), !same_as_blank),
    }
}

/// What is to be done with the record of a form that was submitted: a new
/// record is added; a record taken from a live slot is replaced where it was
/// changed; else nothing is done.
pub open spec fn submit_of<T: Named>(
    s: Slots<T::V>,
    slot: Option<int>,
    item: T::V,
    same_as_taken: bool,
) -> Option<Step<T::V>> {
    match slot {
        Some(i) => if live_at::<T>(s, i) && !same_as_taken {
            Some(Step::Replace(i, item))
        } else {
            None
        },
        None => Some(Step::Add(item)),
    }
}

/// The slot of a handle that may be absent.
pub open spec fn slot_of_ref<T>(h: Option<&GenericRef<T>>) -> Option<int> {
    match h {
        Some(h) => Some(h.slot()),
        None => None,
    }
}

impl AppData {
    /// Whether the name of the edited district collides and whether the district
    /// was changed, for the form that edits a district; `index_ref` is the handle
    /// the district was taken from, none for a new one.
    pub fn district_edit_flags(&self, index_ref: Option<&DistrictRef>, district: &District) -> (r: (bool, bool))
        requires
            self.wf(),
        ensures
            r == edit_flags_of::<District>(
                self@.districts,
                slot_of_ref(index_ref),
                district@,
                slot_of_ref(index_ref) is Some && live_at::<District>(
                    self@.districts,
                    slot_of_ref(index_ref).unwrap(),
                ) && self@.districts[slot_of_ref(index_ref).unwrap()].unwrap() == district@,
                DistrictView::named(Seq::empty()) == district@,
            ),
    {
        let list = self.district_list();
        match index_ref {
            Some(index_ref) => {
                match list.fetch(index_ref) {
                    Some(old_item) => {
                        if !str_same(old_item.name(), district.name()) {
                            (list.find(district.name()).is_some(), true)
                        } else {
                            (false, *old_item != *district)
                        }
                    },
                    None => (false, true),
                }
            },
            None => (list.find(district.name()).is_some(), District::default() != *district),
        }
    }

    /// The command for a district form that was submitted, if anything is to be
    /// done: to add a new district, or to replace the one that was edited where
    /// it was changed.
    pub fn district_submit(&self, index_ref: Option<&DistrictRef>, district: &District) -> (r: Option<Action>)
        requires
            self.wf(),
        ensures
            (match r {
                Some(a) => a@ is District && Some(a@->District_0) == submit_of::<District>(
                    self@.districts,
                    slot_of_ref(index_ref),
                    district@,
                    slot_of_ref(index_ref) is Some && live_at::<District>(
                        self@.districts,
                        slot_of_ref(index_ref).unwrap(),
                    ) && self@.districts[slot_of_ref(index_ref).unwrap()].unwrap() == district@,
                ),
                None => submit_of::<District>(
                    self@.districts,
                    slot_of_ref(index_ref),
                    district@,
                    slot_of_ref(index_ref) is Some && live_at::<District>(
                        self@.districts,
                        slot_of_ref(index_ref).unwrap(),
                    ) && self@.districts[slot_of_ref(index_ref).unwrap()].unwrap() == district@,
                ) is None,
            }),
    {
        match index_ref {
            Some(index_ref) => {
                match self.district_list().fetch(index_ref) {
                    Some(old_item) => {
                        if *old_item != *district {
                            Some(Action::DistrictReplace(*index_ref, district.clone()))
                        } else {
                            None
                        }
                    },
                    None => None,
                }
            },
            None => Some(Action::DistrictAdd(district.clone())),
        }
    }

    /// Whether the name of the edited person collides and whether the person
    /// was changed, for the form that edits a person; `index_ref` is the handle
    /// the person was taken from, none for a new one.
    pub fn person_edit_flags(&self, index_ref: Option<&PersonRef>, person: &Person) -> (r: (bool, bool))
        requires
            self.wf(),
        ensures
            r == edit_flags_of::<Person>(
                self@.persons,
                slot_of_ref(index_ref),
                person@,
                slot_of_ref(index_ref) is Some && live_at::<Person>(
                    self@.persons,
                    slot_of_ref(index_ref).unwrap(),
                ) && self@.persons[slot_of_ref(index_ref).unwrap()].unwrap().same_content(person@),
                PersonView::named(Seq::empty()).same_content(person@),
            ),
    {
        let list = self.person_list();
        match index_ref {
            Some(index_ref) => {
                match list.fetch(index_ref) {
                    Some(old_item) => {
                        if !str_same(old_item.name(), person.name()) {
                            (list.find(person.name()).is_some(), true)
                        } else {
                            (false, *old_item != *person)
                        }
                    },
                    None => (false, true),
                }
            },
            None => (list.find(person.name()).is_some(), Person::default() != *person),
        }
    }

    /// The command for a person form that was submitted, if anything is to be
    /// done: to add a new person, or to replace the one that was edited where
    /// it was changed.
    pub fn person_submit(&self, index_ref: Option<&PersonRef>, person: &Person) -> (r: Option<Action>)
        requires
            self.wf(),
        ensures
            (match r {
                Some(a) => a@ is Person && Some(a@->Person_0) == submit_of::<Person>(
                    self@.persons,
                    slot_of_ref(index_ref),
                    person@,
                    slot_of_ref(index_ref) is Some && live_at::<Person>(
                        self@.persons,
                        slot_of_ref(index_ref).unwrap(),
                    ) && self@.persons[slot_of_ref(index_ref).unwrap()].unwrap().same_content(person@),
                ),
                None => submit_of::<Person>(
                    self@.persons,
                    slot_of_ref(index_ref),
                    person@,
                    slot_of_ref(index_ref) is Some && live_at::<Person>(
                        self@.persons,
                        slot_of_ref(index_ref).unwrap(),
                    ) && self@.persons[slot_of_ref(index_ref).unwrap()].unwrap().same_content(person@),
                ) is None,
            }),
    {
        match index_ref {
            Some(index_ref) => {
                match self.person_list().fetch(index_ref) {
                    Some(old_item) => {
                        if *old_item != *person {
                            Some(Action::PersonReplace(*index_ref, person.clone()))
                        } else {
                            None
                        }
                    },
                    None => None,
                }
            },
            None => Some(Action::PersonAdd(person.clone())),
        }
    }

    /// Whether the name of the edited faction collides and whether the faction
    /// was changed, for the form that edits a faction; `index_ref` is the handle
    /// the faction was taken from, none for a new one.
    pub fn faction_edit_flags(&self, index_ref: Option<&FactionRef>, faction: &Faction) -> (r: (bool, bool))
        requires
            self.wf(),
        ensures
            r == edit_flags_of::<Faction>(
                self@.factions,
                slot_of_ref(index_ref),
                faction@,
                slot_of_ref(index_ref) is Some && live_at::<Faction>(
                    self@.factions,
                    slot_of_ref(index_ref).unwrap(),
                ) && self@.factions[slot_of_ref(index_ref).unwrap()].unwrap() == faction@,
                FactionView::named(Seq::empty()) == faction@,
            ),
    {
        let list = self.faction_list();
        match index_ref {
            Some(index_ref) => {
                match list.fetch(index_ref) {
                    Some(old_item) => {
                        if !str_same(old_item.name(), faction.name()) {
                            (list.find(faction.name()).is_some(), true)
                        } else {
                            (false, *old_item != *faction)
                        }
                    },
                    None => (false, true),
                }
            },
            None => (list.find(faction.name()).is_some(), Faction::default() != *faction),
        }
    }

    /// The command for a faction form that was submitted, if anything is to be
    /// done: to add a new faction, or to replace the one that was edited where
    /// it was changed.
    pub fn faction_submit(&self, index_ref: Option<&FactionRef>, faction: &Faction) -> (r: Option<Action>)
        requires
            self.wf(),
        ensures
            (match r {
                Some(a) => a@ is Faction && Some(a@->Faction_0) == submit_of::<Faction>(
                    self@.factions,
                    slot_of_ref(index_ref),
                    faction@,
                    slot_of_ref(index_ref) is Some && live_at::<Faction>(
                        self@.factions,
                        slot_of_ref(index_ref).unwrap(),
                    ) && self@.factions[slot_of_ref(index_ref).unwrap()].unwrap() == faction@,
                ),
                None => submit_of::<Faction>(
                    self@.factions,
                    slot_of_ref(index_ref),
                    faction@,
                    slot_of_ref(index_ref) is Some && live_at::<Faction>(
                        self@.factions,
                        slot_of_ref(index_ref).unwrap(),
                    ) && self@.factions[slot_of_ref(index_ref).unwrap()].unwrap() == faction@,
                ) is None,
            }),
    {
        match index_ref {
            Some(index_ref) => {
                match self.faction_list().fetch(index_ref) {
                    Some(old_item) => {
                        if *old_item != *faction {
                            Some(Action::FactionReplace(*index_ref, faction.clone()))
                        } else {
                            None
                        }
                    },
                    None => None,
                }
            },
            None => Some(Action::FactionAdd(faction.clone())),
        }
    }
}

} // verus!

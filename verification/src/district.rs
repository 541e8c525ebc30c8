//! Districts: the places of the city.

use crate::app_data::DataIndex;
use crate::dots::Dots;
use crate::links::{live_names, ref_names};
use crate::managed_list::{ManagedList, Named, PersonRef, Slots};
use crate::names::{clone_strings, str_same, strings_view};
use crate::person::{Person, PersonView};
use crate::ref_list::{clone_refs, same_refs};
use vstd::prelude::*;
use vstd::std_specs::cmp::PartialEqSpecImpl;
use vstd::std_specs::convert::FromSpecImpl;

verus! {

/// A district of the city, with its ratings and the persons of note in it.
pub struct District {
    name: String,
    description: String,
    wealth: Dots,
    safety: Dots,
    crime: Dots,
    occult: Dots,
    notable: Vec<PersonRef>,
    notes: String,
}

/// A district as a mathematical value.
pub struct DistrictView {
    pub name: Seq<char>,
    pub description: Seq<char>,
    pub wealth: Dots,
    pub safety: Dots,
    pub crime: Dots,
    pub occult: Dots,
    pub notable: Seq<PersonRef>,
    pub notes: Seq<char>,
}

impl DistrictView {
    /// The district of that name with nothing else filled in.
    pub open spec fn named(name: Seq<char>) -> DistrictView {
        DistrictView {
            name,
            description: Seq::empty(),
            wealth: Dots::Zero,
            safety: Dots::Zero,
            crime: Dots::Zero,
            occult: Dots::Zero,
            notable: Seq::empty(),
            notes: Seq::empty(),
        }
    }
}

impl View for District {
    type V = DistrictView;

    closed spec fn view(&self) -> DistrictView {
        DistrictView {
            name: self.name@,
            description: self.description@,
            wealth: self.wealth,
            safety: self.safety,
            crime: self.crime,
            occult: self.occult,
            notable: self.notable@,
            notes: self.notes@,
        }
    }
}

impl Clone for District {
    fn clone(&self) -> (r: Self)
        ensures
            r@ == self@,
    {
        District {
            name: self.name.clone(),
            description: self.description.clone(),
            wealth: self.wealth,
            safety: self.safety,
            crime: self.crime,
            occult: self.occult,
            notable: clone_refs(&self.notable),
            notes: self.notes.clone(),
        }
    }
}

impl Default for District {
    /// The district without a name.
    fn default() -> (r: Self)
        ensures
            r@ == DistrictView::named(Seq::empty()),
    {
        District {
            name: String::new(),
            description: String::new(),
            wealth: Dots::Zero,
            safety: Dots::Zero,
            crime: Dots::Zero,
            occult: Dots::Zero,
            notable: Vec::new(),
            notes: String::new(),
        }
    }
}

impl District {
    /// The district of that name with nothing else filled in.
    pub fn new(name: &str) -> (r: Self)
        ensures
            r@ == DistrictView::named(name@),
    {
        District {
            name: name.to_owned(),
            description: String::new(),
            wealth: Dots::Zero,
            safety: Dots::Zero,
            crime: Dots::Zero,
            occult: Dots::Zero,
            notable: Vec::new(),
            notes: String::new(),
        }
    }

    /// Sets the persons of note, in place of those there were.
    pub fn set_notable(&mut self, notable: Vec<PersonRef>)
        ensures
            final(self)@ == (DistrictView { notable: notable@, ..old(self)@ }),
    {
        self.notable = notable;
    }

    /// Sets the name.
    pub fn set_name(&mut self, name: String)
        ensures
            final(self)@ == (DistrictView { name: name@, ..old(self)@ }),
    {
        self.name = name;
    }

    /// The description.
    pub fn description(&self) -> (r: &str)
        ensures
            r@ == self@.description,
    {
        self.description.as_str()
    }

    /// Sets the description.
    pub fn set_description(&mut self, description: String)
        ensures
            final(self)@ == (DistrictView { description: description@, ..old(self)@ }),
    {
        self.description = description;
    }

    /// The rating of wealth.
    pub fn wealth(&self) -> (r: Dots)
        ensures
            r == self@.wealth,
    {
        self.wealth
    }

    /// Sets the rating of wealth.
    pub fn set_wealth(&mut self, wealth: Dots)
        ensures
            final(self)@ == (DistrictView { wealth, ..old(self)@ }),
    {
        self.wealth = wealth;
    }

    /// The rating of safety.
    pub fn safety(&self) -> (r: Dots)
        ensures
            r == self@.safety,
    {
        self.safety
    }

    /// Sets the rating of safety.
    pub fn set_safety(&mut self, safety: Dots)
        ensures
            final(self)@ == (DistrictView { safety, ..old(self)@ }),
    {
        self.safety = safety;
    }

    /// The rating of crime.
    pub fn crime(&self) -> (r: Dots)
        ensures
            r == self@.crime,
    {
        self.crime
    }

    /// Sets the rating of crime.
    pub fn set_crime(&mut self, crime: Dots)
        ensures
            final(self)@ == (DistrictView { crime, ..old(self)@ }),
    {
        self.crime = crime;
    }

    /// The rating of the occult.
    pub fn occult(&self) -> (r: Dots)
        ensures
            r == self@.occult,
    {
        self.occult
    }

    /// Sets the rating of the occult.
    pub fn set_occult(&mut self, occult: Dots)
        ensures
            final(self)@ == (DistrictView { occult, ..old(self)@ }),
    {
        self.occult = occult;
    }

    /// The persons of note.
    pub fn notable(&self) -> (r: &Vec<PersonRef>)
        ensures
            r@ == self@.notable,
    {
        &self.notable
    }

    /// The notes.
    pub fn notes(&self) -> (r: &str)
        ensures
            r@ == self@.notes,
    {
        self.notes.as_str()
    }

    /// Sets the notes.
    pub fn set_notes(&mut self, notes: String)
        ensures
            final(self)@ == (DistrictView { notes: notes@, ..old(self)@ }),
    {
        self.notes = notes;
    }

    /// What a table shows of the district: its name.
    pub fn display_fields(&self) -> (r: Vec<String>)
        ensures
            strings_view(r@) == seq![self@.name],
    {
        let mut r: Vec<String> = Vec::new();
        r.push(self.name.clone());
        assert(strings_view(r@) =~= seq![self@.name]);
        r
    }
}

impl PartialEq for District {
    /// Whether two districts are the same in every field.
    fn eq(&self, other: &Self) -> (r: bool) {
        str_same(self.name.as_str(), other.name.as_str()) && str_same(
            self.description.as_str(),
            other.description.as_str(),
        ) && self.wealth == other.wealth && self.safety == other.safety && self.crime
            == other.crime && self.occult == other.occult && same_refs(
            &self.notable,
            &other.notable,
        ) && str_same(self.notes.as_str(), other.notes.as_str())
    }
}

impl PartialEqSpecImpl for District {
    open spec fn obeys_eq_spec() -> bool {
        true
    }

    open spec fn eq_spec(&self, other: &Self) -> bool {
        self@ == other@
    }
}

impl Named for District {
    open spec fn name_of(v: DistrictView) -> Seq<char> {
        v.name
    }

    open spec fn display_name_of(v: DistrictView) -> Seq<char> {
        v.name
    }

    open spec fn data_index_of(slot: usize) -> DataIndex {
        DataIndex::DistrictIndex(slot)
    }

    open spec fn slot_of(index: DataIndex) -> Option<usize> {
        match index {
            DataIndex::DistrictIndex(i) => Some(i),
            _ => None,
        }
    }

    open spec fn headings() -> Seq<Seq<char>> {
        seq!["name_heading"@]
    }

    fn name(&self) -> (r: &str) {
        self.name.as_str()
    }

    fn display_name(&self) -> (r: String) {
        self.name.clone()
    }

    fn make_data_index(index: usize) -> (r: DataIndex) {
        DataIndex::DistrictIndex(index)
    }

    fn fetch_data_index(index: DataIndex) -> (r: Option<usize>) {
        match index {
            DataIndex::DistrictIndex(ind) => Some(ind),
            _ => None,
        }
    }

    fn display_headings() -> (r: Vec<String>) {
        let mut r: Vec<String> = Vec::new();
        r.push("name_heading".to_owned());
        r
    }

    proof fn lemma_clone_keeps_view(a: &Self, b: &Self) {
        if *a != *b {
            assert(call_ensures(District::clone, (a,), *b));
        }
    }
}

/// A district as a saved file keeps it, its persons of note by name.
pub struct DistrictStore {
    name: String,
    description: String,
    wealth: Dots,
    safety: Dots,
    crime: Dots,
    occult: Dots,
    pub notable: Vec<String>,
    notes: String,
}

/// A district as a saved file keeps it, its persons of note by name, as a mathematical value.
pub struct DistrictStoreView {
    pub name: Seq<char>,
    pub description: Seq<char>,
    pub wealth: Dots,
    pub safety: Dots,
    pub crime: Dots,
    pub occult: Dots,
    pub notable: Seq<Seq<char>>,
    pub notes: Seq<char>,
}

impl View for DistrictStore {
    type V = DistrictStoreView;

    closed spec fn view(&self) -> DistrictStoreView {
        DistrictStoreView {
            name: self.name@,
            description: self.description@,
            wealth: self.wealth,
            safety: self.safety,
            crime: self.crime,
            occult: self.occult,
            notable: strings_view(self.notable@),
            notes: self.notes@,
        }
    }
}

impl Clone for DistrictStore {
    fn clone(&self) -> (r: Self)
        ensures
            r@ == self@,
    {
        DistrictStore {
            name: self.name.clone(),
            description: self.description.clone(),
            wealth: self.wealth,
            safety: self.safety,
            crime: self.crime,
            occult: self.occult,
            notable: clone_strings(&self.notable),
            notes: self.notes.clone(),
        }
    }
}

impl DistrictStore {
    /// A record with the given fields.
    pub fn from_parts(
        name: String,
        description: String,
        wealth: Dots,
        safety: Dots,
        crime: Dots,
        occult: Dots,
        notable: Vec<String>,
        notes: String,
    ) -> (r: Self)
        ensures
            r@ == (DistrictStoreView {
                name: name@,
                description: description@,
                wealth: wealth,
                safety: safety,
                crime: crime,
                occult: occult,
                notable: strings_view(notable@),
                notes: notes@,
            }),
    {
        DistrictStore { name, description, wealth, safety, crime, occult, notable, notes }
    }

    /// The name.
    pub fn name(&self) -> (r: &str)
        ensures
            r@ == self@.name,
    {
        self.name.as_str()
    }

    /// The description.
    pub fn description(&self) -> (r: &str)
        ensures
            r@ == self@.description,
    {
        self.description.as_str()
    }

    /// The rating of wealth.
    pub fn wealth(&self) -> (r: Dots)
        ensures
            r == self@.wealth,
    {
        self.wealth
    }

    /// The rating of safety.
    pub fn safety(&self) -> (r: Dots)
        ensures
            r == self@.safety,
    {
        self.safety
    }

    /// The rating of crime.
    pub fn crime(&self) -> (r: Dots)
        ensures
            r == self@.crime,
    {
        self.crime
    }

    /// The rating of the occult.
    pub fn occult(&self) -> (r: Dots)
        ensures
            r == self@.occult,
    {
        self.occult
    }

    /// The names of the persons of note.
    pub fn notable(&self) -> (r: &Vec<String>)
        ensures
            strings_view(r@) == self@.notable,
    {
        &self.notable
    }

    /// The notes.
    pub fn notes(&self) -> (r: &str)
        ensures
            r@ == self@.notes,
    {
        self.notes.as_str()
    }
}

impl DistrictStoreView {
    /// What is saved of a district: its fields, and the names of those of its
    /// persons of note that are live.
    pub open spec fn of(v: DistrictView, persons: Slots<PersonView>) -> DistrictStoreView {
        DistrictStoreView {
            name: v.name,
            description: v.description,
            wealth: v.wealth,
            safety: v.safety,
            crime: v.crime,
            occult: v.occult,
            notable: live_names::<Person>(persons, v.notable),
            notes: v.notes,
        }
    }

    /// The district that loading makes of a saved one: name, description and
    /// notes are taken over, the ratings start at no dot, and the persons of
    /// note are linked later.
    pub open spec fn district(self) -> DistrictView {
        DistrictView { description: self.description, notes: self.notes, ..DistrictView::named(
            self.name,
        ) }
    }
}

impl Default for DistrictStore {
    /// The saved district without a name.
    fn default() -> (r: Self)
        ensures
            r@ == DistrictStoreView::of(DistrictView::named(Seq::empty()), Seq::empty()),
    {
        let r = DistrictStore {
            name: String::new(),
            description: String::new(),
            wealth: Dots::Zero,
            safety: Dots::Zero,
            crime: Dots::Zero,
            occult: Dots::Zero,
            notable: Vec::new(),
            notes: String::new(),
        };
        assert(r@.notable =~= Seq::empty());
        r
    }
}

impl DistrictStore {
    /// What is saved of `from_district`; `persons` gives the names of its
    /// persons of note.
    pub fn from_district(from_district: &District, persons: &ManagedList<Person>) -> (r: DistrictStore)
        requires
            persons.wf(),
        ensures
            r@ == DistrictStoreView::of(from_district@, persons@),
    {
        DistrictStore {
            name: from_district.name.clone(),
            description: from_district.description.clone(),
            notable: ref_names(persons, &from_district.notable),
            notes: from_district.notes.clone(),
            wealth: from_district.wealth,
            safety: from_district.safety,
            crime: from_district.crime,
            occult: from_district.occult,
        }
    }
}

impl From<&DistrictStore> for District {
    /// The district that loading makes of a saved one.
    fn from(from_store: &DistrictStore) -> (r: District)
        ensures
            r@ == from_store@.district(),
    {
        District {
            name: from_store.name.clone(),
            description: from_store.description.clone(),
            notable: Vec::new(),
            notes: from_store.notes.clone(),
            wealth: Dots::Zero,
            safety: Dots::Zero,
            crime: Dots::Zero,
            occult: Dots::Zero,
        }
    }
}

impl FromSpecImpl<&DistrictStore> for District {
    open spec fn obeys_from_spec() -> bool {
        false
    }

    open spec fn from_spec(from_store: &DistrictStore) -> District {
        arbitrary()
    }
}

} // verus!

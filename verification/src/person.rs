//! Persons: the people of the city.

use crate::app_data::DataIndex;
use crate::app_display::NewStringStatusView;
use crate::district::{District, DistrictView};
use crate::links::{live_name, ref_name};
use crate::managed_list::{DistrictRef, ManagedList, Named, Slots};
use crate::names::{chars_opt, clone_opt_string, clone_strings, str_same, strings_view};
use crate::ref_list::same_opt_ref;
use crate::string_list::{StringList, StringListView};
use vstd::prelude::*;
use vstd::std_specs::cmp::PartialEqSpecImpl;
use vstd::std_specs::convert::FromSpecImpl;
use vstd::string::StringExecFns;

verus! {

/// A person, with a short summary and the district they are found in.
pub struct Person {
    name: String,
    summary: String,
    found_in: Option<DistrictRef>,
    description: String,
    personality: StringList,
    notes: String,
}

/// A person as a mathematical value.
pub struct PersonView {
    pub name: Seq<char>,
    pub summary: Seq<char>,
    pub found_in: Option<DistrictRef>,
    pub description: Seq<char>,
    pub personality: StringListView,
    pub notes: Seq<char>,
}

impl PersonView {
    /// The person of that name with nothing else filled in.
    pub open spec fn named(name: Seq<char>) -> PersonView {
        PersonView {
            name,
            summary: Seq::empty(),
            found_in: None,
            description: Seq::empty(),
            personality: StringListView {
                list: Seq::empty(),
                new: NewStringStatusView::NoItem,
                hovered: None,
            },
            notes: Seq::empty(),
        }
    }

    /// Whether two persons are the same but for what a form keeps between two
    /// frames beside the list of traits.
    pub open spec fn same_content(self, other: PersonView) -> bool {
        &&& self.name == other.name
        &&& self.summary == other.summary
        &&& self.found_in == other.found_in
        &&& self.description == other.description
        &&& self.personality.list == other.personality.list
        &&& self.notes == other.notes
    }

    /// The name a person is shown under: the name, followed by the summary in
    /// brackets where there is one.
    pub open spec fn display_name(self) -> Seq<char> {
        if self.summary.len() > 0 {
            self.name + " ("@ + self.summary + ")"@
        } else {
            self.name
        }
    }
}

impl View for Person {
    type V = PersonView;

    closed spec fn view(&self) -> PersonView {
        PersonView {
            name: self.name@,
            summary: self.summary@,
            found_in: self.found_in,
            description: self.description@,
            personality: self.personality@,
            notes: self.notes@,
        }
    }
}

impl Clone for Person {
    fn clone(&self) -> (r: Self)
        ensures
            r@ == self@,
    {
        Person {
            name: self.name.clone(),
            summary: self.summary.clone(),
            found_in: self.found_in,
            description: self.description.clone(),
            personality: self.personality.clone(),
            notes: self.notes.clone(),
        }
    }
}

impl Person {
    /// The person of that name with nothing else filled in.
    pub fn new(name: &str) -> (r: Self)
        ensures
            r@ == PersonView::named(name@),
    {
        Person {
            name: name.to_owned(),
            summary: String::new(),
            found_in: None,
            description: String::new(),
            personality: StringList::default(),
            notes: String::new(),
        }
    }

    /// Sets the district the person is found in, in place of the one there was.
    pub fn set_found_in(&mut self, found_in: Option<DistrictRef>)
        ensures
            final(self)@ == (PersonView { found_in, ..old(self)@ }),
    {
        self.found_in = found_in;
    }

    /// Sets the name.
    pub fn set_name(&mut self, name: String)
        ensures
            final(self)@ == (PersonView { name: name@, ..old(self)@ }),
    {
        self.name = name;
    }

    /// The summary.
    pub fn summary(&self) -> (r: &str)
        ensures
            r@ == self@.summary,
    {
        self.summary.as_str()
    }

    /// Sets the summary.
    pub fn set_summary(&mut self, summary: String)
        ensures
            final(self)@ == (PersonView { summary: summary@, ..old(self)@ }),
    {
        self.summary = summary;
    }

    /// The district the person is found in.
    pub fn found_in(&self) -> (r: Option<DistrictRef>)
        ensures
            r == self@.found_in,
    {
        self.found_in
    }

    /// The description.
    pub fn description(&self) -> (r: &str)
        ensures
            r@ == self@.description,
    {
        self.description.as_str()
    }

    /// Sets the description.
    pub fn set_description(&mut self, description: String)
        ensures
            final(self)@ == (PersonView { description: description@, ..old(self)@ }),
    {
        self.description = description;
    }

    /// The notes.
    pub fn notes(&self) -> (r: &str)
        ensures
            r@ == self@.notes,
    {
        self.notes.as_str()
    }

    /// Sets the notes.
    pub fn set_notes(&mut self, notes: String)
        ensures
            final(self)@ == (PersonView { notes: notes@, ..old(self)@ }),
    {
        self.notes = notes;
    }

    /// The traits of personality.
    pub fn personality(&self) -> (r: &StringList)
        ensures
            r@ == self@.personality,
    {
        &self.personality
    }

    /// Sets the traits of personality.
    pub fn set_personality(&mut self, personality: StringList)
        ensures
            final(self)@ == (PersonView { personality: personality@, ..old(self)@ }),
    {
        self.personality = personality;
    }

    /// What a table shows of the person: the name.
    pub fn display_fields(&self) -> (r: Vec<String>)
        ensures
            strings_view(r@) == seq![self@.name],
    {
        let mut r: Vec<String> = Vec::new();
        r.push(self.name.clone());
        assert(strings_view(r@) =~= seq![self@.name]);
        r
    }
}

impl Default for Person {
    /// The person without a name.
    fn default() -> (r: Self)
        ensures
            r@ == PersonView::named(Seq::empty()),
    {
        Person {
            name: String::new(),
            summary: String::new(),
            found_in: None,
            description: String::new(),
            personality: StringList::default(),
            notes: String::new(),
        }
    }
}

impl PartialEq for Person {
    /// Whether two persons are the same in every field; of the traits of
    /// personality the list counts, not what its form keeps.
    fn eq(&self, other: &Self) -> (r: bool) {
        str_same(self.name.as_str(), other.name.as_str()) && str_same(
            self.summary.as_str(),
            other.summary.as_str(),
        ) && same_opt_ref(&self.found_in, &other.found_in) && str_same(
            self.description.as_str(),
            other.description.as_str(),
        ) && self.personality == other.personality && str_same(
            self.notes.as_str(),
            other.notes.as_str(),
        )
    }
}

impl PartialEqSpecImpl for Person {
    open spec fn obeys_eq_spec() -> bool {
        true
    }

    open spec fn eq_spec(&self, other: &Self) -> bool {
        self@.same_content(other@)
    }
}

impl Named for Person {
    open spec fn name_of(v: PersonView) -> Seq<char> {
        v.name
    }

    open spec fn display_name_of(v: PersonView) -> Seq<char> {
        v.display_name()
    }

    open spec fn data_index_of(slot: usize) -> DataIndex {
        DataIndex::PersonIndex(slot)
    }

    open spec fn slot_of(index: DataIndex) -> Option<usize> {
        match index {
            DataIndex::PersonIndex(i) => Some(i),
            _ => None,
        }
    }

    open spec fn headings() -> Seq<Seq<char>> {
        seq!["name_heading"@]
    }

    fn name(&self) -> (r: &str) {
        self.name.as_str()
    }

    fn display_name(&self) -> (r: String) {
        let mut shown = self.name.clone();
        if !self.summary.as_str().is_empty() {
            shown.append(" (");
            shown.append(self.summary.as_str());
            shown.append(")");
        }
        shown
    }

    fn make_data_index(index: usize) -> (r: DataIndex) {
        DataIndex::PersonIndex(index)
    }

    fn fetch_data_index(index: DataIndex) -> (r: Option<usize>) {
        match index {
            DataIndex::PersonIndex(ind) => Some(ind),
            _ => None,
        }
    }

    fn display_headings() -> (r: Vec<String>) {
        let mut r: Vec<String> = Vec::new();
        r.push("name_heading".to_owned());
        r
    }

    proof fn lemma_clone_keeps_view(a: &Self, b: &Self) {
        if *a != *b {
            assert(call_ensures(Person::clone, (a,), *b));
        }
    }
}

/// A person as a saved file of the second version keeps it, the district by name.
pub struct PersonStore2 {
    name: String,
    summary: String,
    pub found_in: Option<String>,
    description: String,
    personality: Vec<String>,
    notes: String,
}

/// A person as a saved file of the second version keeps it, the district by name, as a mathematical value.
pub struct PersonStore2View {
    pub name: Seq<char>,
    pub summary: Seq<char>,
    pub found_in: Option<Seq<char>>,
    pub description: Seq<char>,
    pub personality: Seq<Seq<char>>,
    pub notes: Seq<char>,
}

impl View for PersonStore2 {
    type V = PersonStore2View;

    closed spec fn view(&self) -> PersonStore2View {
        PersonStore2View {
            name: self.name@,
            summary: self.summary@,
            found_in: chars_opt(self.found_in),
            description: self.description@,
            personality: strings_view(self.personality@),
            notes: self.notes@,
        }
    }
}

impl Clone for PersonStore2 {
    fn clone(&self) -> (r: Self)
        ensures
            r@ == self@,
    {
        PersonStore2 {
            name: self.name.clone(),
            summary: self.summary.clone(),
            found_in: clone_opt_string(&self.found_in),
            description: self.description.clone(),
            personality: clone_strings(&self.personality),
            notes: self.notes.clone(),
        }
    }
}

impl PersonStore2 {
    /// A record with the given fields.
    pub fn from_parts(
        name: String,
        summary: String,
        found_in: Option<String>,
        description: String,
        personality: Vec<String>,
        notes: String,
    ) -> (r: Self)
        ensures
            r@ == (PersonStore2View {
                name: name@,
                summary: summary@,
                found_in: chars_opt(found_in),
                description: description@,
                personality: strings_view(personality@),
                notes: notes@,
            }),
    {
        PersonStore2 { name, summary, found_in, description, personality, notes }
    }

    /// The name.
    pub fn name(&self) -> (r: &str)
        ensures
            r@ == self@.name,
    {
        self.name.as_str()
    }

    /// The summary.
    pub fn summary(&self) -> (r: &str)
        ensures
            r@ == self@.summary,
    {
        self.summary.as_str()
    }

    /// The name of the district the person is found in.
    pub fn found_in(&self) -> (r: &Option<String>)
        ensures
            chars_opt(*r) == self@.found_in,
    {
        &self.found_in
    }

    /// The description.
    pub fn description(&self) -> (r: &str)
        ensures
            r@ == self@.description,
    {
        self.description.as_str()
    }

    /// The traits of personality.
    pub fn personality(&self) -> (r: &Vec<String>)
        ensures
            strings_view(r@) == self@.personality,
    {
        &self.personality
    }

    /// The notes.
    pub fn notes(&self) -> (r: &str)
        ensures
            r@ == self@.notes,
    {
        self.notes.as_str()
    }
}

/// A person as a saved file of the first version keeps it.
pub struct PersonStore1 {
    name: String,
    summary: String,
    description: String,
    personality: Vec<String>,
    notes: String,
}

/// A person as a saved file of the first version keeps it, as a mathematical value.
pub struct PersonStore1View {
    pub name: Seq<char>,
    pub summary: Seq<char>,
    pub description: Seq<char>,
    pub personality: Seq<Seq<char>>,
    pub notes: Seq<char>,
}

impl View for PersonStore1 {
    type V = PersonStore1View;

    closed spec fn view(&self) -> PersonStore1View {
        PersonStore1View {
            name: self.name@,
            summary: self.summary@,
            description: self.description@,
            personality: strings_view(self.personality@),
            notes: self.notes@,
        }
    }
}

impl Clone for PersonStore1 {
    fn clone(&self) -> (r: Self)
        ensures
            r@ == self@,
    {
        PersonStore1 {
            name: self.name.clone(),
            summary: self.summary.clone(),
            description: self.description.clone(),
            personality: clone_strings(&self.personality),
            notes: self.notes.clone(),
        }
    }
}

impl PersonStore1 {
    /// A record with the given fields.
    pub fn from_parts(
        name: String,
        summary: String,
        description: String,
        personality: Vec<String>,
        notes: String,
    ) -> (r: Self)
        ensures
            r@ == (PersonStore1View {
                name: name@,
                summary: summary@,
                description: description@,
                personality: strings_view(personality@),
                notes: notes@,
            }),
    {
        PersonStore1 { name, summary, description, personality, notes }
    }

    /// The name.
    pub fn name(&self) -> (r: &str)
        ensures
            r@ == self@.name,
    {
        self.name.as_str()
    }

    /// The summary.
    pub fn summary(&self) -> (r: &str)
        ensures
            r@ == self@.summary,
    {
        self.summary.as_str()
    }

    /// The description.
    pub fn description(&self) -> (r: &str)
        ensures
            r@ == self@.description,
    {
        self.description.as_str()
    }

    /// The traits of personality.
    pub fn personality(&self) -> (r: &Vec<String>)
        ensures
            strings_view(r@) == self@.personality,
    {
        &self.personality
    }

    /// The notes.
    pub fn notes(&self) -> (r: &str)
        ensures
            r@ == self@.notes,
    {
        self.notes.as_str()
    }
}

impl PersonStore2View {
    /// What is saved of a person: its fields, and the name of its district
    /// where that is live.
    pub open spec fn of(v: PersonView, districts: Slots<DistrictView>) -> PersonStore2View {
        PersonStore2View {
            name: v.name,
            summary: v.summary,
            found_in: live_name::<District>(districts, v.found_in),
            description: v.description,
            personality: v.personality.list,
            notes: v.notes,
        }
    }

    /// The person that loading makes of a saved one; the district is linked
    /// later.
    pub open spec fn person(self) -> PersonView {
        PersonView {
            summary: self.summary,
            description: self.description,
            personality: StringListView {
                list: self.personality,
                new: NewStringStatusView::NoItem,
                hovered: None,
            },
            notes: self.notes,
            ..PersonView::named(self.name)
        }
    }
}

impl PersonStore1View {
    /// What a file of the first version keeps of a person.
    pub open spec fn of(v: PersonView) -> PersonStore1View {
        PersonStore1View {
            name: v.name,
            summary: v.summary,
            description: v.description,
            personality: v.personality.list,
            notes: v.notes,
        }
    }

    /// The same person as a file of the second version keeps it, found in no
    /// district.
    pub open spec fn upgraded(self) -> PersonStore2View {
        PersonStore2View {
            name: self.name,
            summary: self.summary,
            found_in: None,
            description: self.description,
            personality: self.personality,
            notes: self.notes,
        }
    }
}

impl Default for PersonStore2 {
    /// The saved person without a name.
    fn default() -> (r: Self)
        ensures
            r@ == PersonStore1View::of(PersonView::named(Seq::empty())).upgraded(),
    {
        let r = PersonStore2 {
            name: String::new(),
            summary: String::new(),
            found_in: None,
            description: String::new(),
            personality: Vec::new(),
            notes: String::new(),
        };
        assert(r@.personality =~= Seq::empty());
        r
    }
}

impl Default for PersonStore1 {
    /// The saved person without a name.
    fn default() -> (r: Self)
        ensures
            r@ == PersonStore1View::of(PersonView::named(Seq::empty())),
    {
        let r = PersonStore1 {
            name: String::new(),
            summary: String::new(),
            description: String::new(),
            personality: Vec::new(),
            notes: String::new(),
        };
        assert(r@.personality =~= Seq::empty());
        r
    }
}

impl PersonStore2 {
    /// What is saved of `from_person`; `districts` gives the name of its
    /// district.
    pub fn from_person(from_person: &Person, districts: &ManagedList<District>) -> (r: PersonStore2)
        requires
            districts.wf(),
        ensures
            r@ == PersonStore2View::of(from_person@, districts@),
    {
        PersonStore2 {
            name: from_person.name.clone(),
            summary: from_person.summary.clone(),
            found_in: ref_name(districts, &from_person.found_in),
            description: from_person.description.clone(),
            personality: clone_strings(from_person.personality.list()),
            notes: from_person.notes.clone(),
        }
    }
}

impl From<PersonStore1> for PersonStore2 {
    /// The same person in the second version, found in no district.
    fn from(from_store: PersonStore1) -> (r: PersonStore2)
        ensures
            r@ == from_store@.upgraded(),
    {
        PersonStore2 {
            name: from_store.name,
            summary: from_store.summary,
            found_in: None,
            description: from_store.description,
            personality: from_store.personality,
            notes: from_store.notes,
        }
    }
}

impl FromSpecImpl<PersonStore1> for PersonStore2 {
    open spec fn obeys_from_spec() -> bool {
        false
    }

    open spec fn from_spec(from_store: PersonStore1) -> PersonStore2 {
        arbitrary()
    }
}

impl From<&PersonStore2> for Person {
    /// The person that loading makes of a saved one.
    fn from(from_store: &PersonStore2) -> (r: Person)
        ensures
            r@ == from_store@.person(),
    {
        Person {
            name: from_store.name.clone(),
            summary: from_store.summary.clone(),
            found_in: None,
            description: from_store.description.clone(),
            personality: StringList::from_list(clone_strings(&from_store.personality)),
            notes: from_store.notes.clone(),
        }
    }
}

impl FromSpecImpl<&PersonStore2> for Person {
    open spec fn obeys_from_spec() -> bool {
        false
    }

    open spec fn from_spec(from_store: &PersonStore2) -> Person {
        arbitrary()
    }
}

impl From<&Person> for PersonStore1 {
    /// What a file of the first version keeps of a person.
    fn from(from_person: &Person) -> (r: PersonStore1)
        ensures
            r@ == PersonStore1View::of(from_person@),
    {
        PersonStore1 {
            name: from_person.name.clone(),
            summary: from_person.summary.clone(),
            description: from_person.description.clone(),
            personality: clone_strings(from_person.personality.list()),
            notes: from_person.notes.clone(),
        }
    }
}

impl FromSpecImpl<&Person> for PersonStore1 {
    open spec fn obeys_from_spec() -> bool {
        false
    }

    open spec fn from_spec(from_person: &Person) -> PersonStore1 {
        arbitrary()
    }
}

impl From<&PersonStore1> for Person {
    /// The person that loading makes of a saved one.
    fn from(from_store: &PersonStore1) -> (r: Person)
        ensures
            r@ == from_store@.upgraded().person(),
    {
        Person {
            name: from_store.name.clone(),
            summary: from_store.summary.clone(),
            found_in: None,
            description: from_store.description.clone(),
            personality: StringList::from_list(clone_strings(&from_store.personality)),
            notes: from_store.notes.clone(),
        }
    }
}

impl FromSpecImpl<&PersonStore1> for Person {
    open spec fn obeys_from_spec() -> bool {
        false
    }

    open spec fn from_spec(from_store: &PersonStore1) -> Person {
        arbitrary()
    }
}

} // verus!

//! The application's data: the three arenas, the commands applied to them, and
//! the identifier that addresses a record in any of them.

use crate::action::{actions_view, Action, ActionNode, ActionView};
use crate::app::MainView;
use crate::district::{District, DistrictView};
use crate::faction::{Faction, FactionView};
use crate::managed_list::{
    arena_fetch, arena_find, arena_step, has_name, live_at, slot_opt, view_opt, DistrictRef,
    FactionRef, ManagedList, PersonRef, Slots,
};
use crate::names::{increasing, strings_view};
use crate::person::{Person, PersonView};
use crate::sorting::Sorting;
use core::cmp::Ordering;
use std::path::PathBuf;
use vstd::prelude::*;
use vstd::std_specs::cmp::PartialOrdSpecImpl;

verus! {

/// A coordinate of a record: nothing, or a slot of the arena of one kind.
///
/// Identifiers are ordered by kind first (nothing, district, person, faction),
/// then by slot. A slot says nothing about whether its record is still live.
#[derive(Debug, Clone, Copy, PartialEq, Eq, Structural, Ord, Hash)]
pub enum DataIndex {
    Nothing,
    DistrictIndex(usize),
    PersonIndex(usize),
    FactionIndex(usize),
}

impl DataIndex {
    /// The slot addressed, if any.
    pub open spec fn slot(self) -> Option<usize> {
        match self {
            DataIndex::Nothing => None,
            DataIndex::DistrictIndex(i) => Some(i),
            DataIndex::PersonIndex(i) => Some(i),
            DataIndex::FactionIndex(i) => Some(i),
        }
    }

    /// The place of the identifier's kind in the order of kinds.
    pub open spec fn kind_rank(self) -> int {
        match self {
            DataIndex::Nothing => 0,
            DataIndex::DistrictIndex(_) => 1,
            DataIndex::PersonIndex(_) => 2,
            DataIndex::FactionIndex(_) => 3,
        }
    }

    /// The slot as a number, zero where there is none.
    pub open spec fn slot_rank(self) -> int {
        match self.slot() {
            Some(i) => i as int,
            None => 0,
        }
    }

    /// Whether `self` comes strictly before `other`: by kind, then by slot.
    pub open spec fn precedes(self, other: DataIndex) -> bool {
        self.kind_rank() < other.kind_rank() || (self.kind_rank() == other.kind_rank()
            && self.slot_rank() < other.slot_rank())
    }

    /// The slot addressed, or `None` for `Nothing`.
    pub fn index(&self) -> (r: Option<usize>)
        ensures
            r == self.slot(),
    {
        match self {
            DataIndex::DistrictIndex(i) | DataIndex::FactionIndex(i) | DataIndex::PersonIndex(i) => {
                Some(*i)
            },
            _ => None,
        }
    }

    /// The numbers by which two identifiers are ordered.
    fn ranks(&self) -> (r: (u8, usize))
        ensures
            r.0 == self.kind_rank(),
            r.1 == self.slot_rank(),
    {
        match self {
            DataIndex::Nothing => (0, 0),
            DataIndex::DistrictIndex(i) => (1, *i),
            DataIndex::PersonIndex(i) => (2, *i),
            DataIndex::FactionIndex(i) => (3, *i),
        }
    }
}

/// The order of identifiers is a strict order: no identifier precedes
/// itself, two identifiers are ordered one way at most, and the order is
/// transitive.
pub proof fn law_identifier_order(a: DataIndex, b: DataIndex, c: DataIndex)
    ensures
        !a.precedes(a),
        a.precedes(b) ==> !b.precedes(a),
        a.precedes(b) && b.precedes(c) ==> a.precedes(c),
{
}

/// The order of identifiers is total: two different identifiers are ordered
/// one way or the other.
pub proof fn law_identifier_order_connected(a: DataIndex, b: DataIndex)
    requires
        a != b,
    ensures
        a.precedes(b) || b.precedes(a),
{
}

impl PartialOrd for DataIndex {
    fn partial_cmp(&self, other: &Self) -> (r: Option<Ordering>) {
        let a = self.ranks();
        let b = other.ranks();
        if a.0 < b.0 || (a.0 == b.0 && a.1 < b.1) {
            Some(Ordering::Less)
        } else if a.0 == b.0 && a.1 == b.1 {
            Some(Ordering::Equal)
        } else {
            Some(Ordering::Greater)
        }
    }
}

impl PartialOrdSpecImpl for DataIndex {
    open spec fn obeys_partial_cmp_spec() -> bool {
        true
    }

    open spec fn partial_cmp_spec(&self, other: &Self) -> Option<Ordering> {
        if self.precedes(*other) {
            Some(Ordering::Less)
        } else if self.kind_rank() == other.kind_rank() && self.slot_rank() == other.slot_rank() {
            Some(Ordering::Equal)
        } else {
            Some(Ordering::Greater)
        }
    }
}

/// A path in the file system, as the standard library holds it. Nothing is
/// known of what it holds; it is kept and handed back.
#[verifier::external_type_specification]
#[verifier::external_body]
pub struct ExPathBuf(PathBuf);

/// A copy of a path, made with `clone` of `PathBuf`. The copy is taken to be
/// the same path.
#[verifier::external_body]
fn clone_path(path: &PathBuf) -> (r: PathBuf)
    ensures
        r == *path,
{
    path.clone()
}

/// The three arenas as a mathematical value.
pub struct StoreView {
    pub districts: Slots<DistrictView>,
    pub persons: Slots<PersonView>,
    pub factions: Slots<FactionView>,
}

/// What one command does to the arenas, and the command that undoes it, if
/// the command changed anything: the command goes to the arena of its kind and
/// leaves the other two alone.
pub open spec fn apply_action(s: StoreView, a: ActionView) -> (StoreView, Option<ActionView>) {
    match a {
        ActionView::District(step) => {
            let (after, inverse) = arena_step::<District>(s.districts, step);
            (
                StoreView { districts: after, ..s },
                match inverse {
                    Some(b) => Some(ActionView::District(b)),
                    None => None,
                },
            )
        },
        ActionView::Person(step) => {
            let (after, inverse) = arena_step::<Person>(s.persons, step);
            (
                StoreView { persons: after, ..s },
                match inverse {
                    Some(b) => Some(ActionView::Person(b)),
                    None => None,
                },
            )
        },
        ActionView::Faction(step) => {
            let (after, inverse) = arena_step::<Faction>(s.factions, step);
            (
                StoreView { factions: after, ..s },
                match inverse {
                    Some(b) => Some(ActionView::Faction(b)),
                    None => None,
                },
            )
        },
    }
}

/// A sequence of commands carried out in order, each on what the one before
/// left, and the inverses of those that changed something, in the same order.
/// A command that cannot be carried out is passed over.
pub open spec fn apply_node(s: StoreView, actions: Seq<ActionView>) -> (StoreView, Seq<ActionView>)
    decreases actions.len(),
{
    if actions.len() == 0 {
        (s, Seq::empty())
    } else {
        let (before, undo) = apply_node(s, actions.drop_last());
        let (after, inverse) = apply_action(before, actions.last());
        (
            after,
            match inverse {
                Some(b) => undo.push(b),
                None => undo,
            },
        )
    }
}

/// The application's data: the arenas of persons, districts and factions, and
/// the file the data was loaded from.
pub struct AppData {
    loaded_from: Option<PathBuf>,
    persons: ManagedList<Person>,
    districts: ManagedList<District>,
    factions: ManagedList<Faction>,
}

impl View for AppData {
    type V = StoreView;

    closed spec fn view(&self) -> StoreView {
        StoreView { districts: self.districts@, persons: self.persons@, factions: self.factions@ }
    }
}

impl Default for AppData {
    /// Empty arenas, each sorted by its first column, loaded from no file.
    fn default() -> (r: Self)
        ensures
            r.wf(),
            r@.districts.len() == 0,
            r@.persons.len() == 0,
            r@.factions.len() == 0,
            r.loaded_from() is None,
            r.sortings().0.field() == 0 && !r.sortings().0.reversed(),
            r.sortings().1.field() == 0 && !r.sortings().1.reversed(),
            r.sortings().2.field() == 0 && !r.sortings().2.reversed(),
    {
        AppData {
            loaded_from: None,
            persons: ManagedList::default(),
            districts: ManagedList::default(),
            factions: ManagedList::default(),
        }
    }
}

impl AppData {
    /// The invariant: the three arenas are well formed.
    pub closed spec fn wf(&self) -> bool {
        self.persons.wf() && self.districts.wf() && self.factions.wf()
    }

    /// The file the data was loaded from.
    pub closed spec fn loaded_from(&self) -> Option<PathBuf> {
        self.loaded_from
    }

    /// The sort configurations of the tables of districts, persons and factions.
    pub closed spec fn sortings(&self) -> (Sorting, Sorting, Sorting) {
        (self.districts.sorting(), self.persons.sorting(), self.factions.sorting())
    }

    /// No two live records of one arena bear one name.
    pub proof fn lemma_names_unique(&self)
        requires
            self.wf(),
        ensures
            crate::undo_proofs::store_names_unique(self@),
    {
        self.districts.lemma_unique_names();
        self.persons.lemma_unique_names();
        self.factions.lemma_unique_names();
    }

    /// Carries out the commands of `actions` in order and returns the commands
    /// that undo them, in the same order. A command that cannot be carried out
    /// (a name that is taken, a dead handle) is passed over and leaves no
    /// inverse, so the result may be shorter than `actions`. Nothing else of
    /// the data changes.
    pub fn do_action(&mut self, actions: &ActionNode) -> (r: ActionNode)
        requires
            old(self).wf(),
        ensures
            final(self).wf(),
            (final(self)@, actions_view(r@)) == apply_node(old(self)@, actions_view(actions@)),
            final(self).loaded_from() == old(self).loaded_from(),
            final(self).sortings() == old(self).sortings(),
    {
        let mut return_node = ActionNode::new();
        let n = actions.len();
        let mut i: usize = 0;
        assert(actions_view(actions@).take(0) =~= Seq::<ActionView>::empty());
        assert(actions_view(return_node@) =~= Seq::<ActionView>::empty());
        while i < n
            invariant
                n == actions@.len(),
                0 <= i <= n,
                self.wf(),
                self.loaded_from() == old(self).loaded_from(),
                self.sortings() == old(self).sortings(),
                (self@, actions_view(return_node@)) == apply_node(
                    old(self)@,
                    actions_view(actions@).take(i as int),
                ),
            decreases n - i,
        {
            let ghost before = self@;
            let ghost undo = actions_view(return_node@);
            let ghost done = actions_view(actions@).take(i + 1);
            assert(done.drop_last() =~= actions_view(actions@).take(i as int));
            assert(done.last() == actions@[i as int]@);
            let ghost undone = return_node@;
            match &actions[i] {
                Action::DistrictAdd(district) => {
                    if let Some(district_ref) = self.districts.add(district) {
                        return_node.push_back(Action::DistrictRemove(district_ref));
                    }
                },
                Action::DistrictRemove(district_ref) => {
                    let mut handle = *district_ref;
                    if let Some(district) = self.districts.remove(&mut handle) {
                        return_node.push_back(Action::DistrictAdd(district));
                    }
                },
                Action::DistrictReplace(district_ref, district) => {
                    if let Some(old_district) = self.districts.replace(
                        district_ref,
                        district.clone(),
                    ) {
                        return_node.push_back(Action::DistrictReplace(*district_ref, old_district));
                    }
                },
                Action::PersonAdd(person) => {
                    if let Some(person_ref) = self.persons.add(person) {
                        return_node.push_back(Action::PersonRemove(person_ref));
                    }
                },
                Action::PersonRemove(person_ref) => {
                    let mut handle = *person_ref;
                    if let Some(person) = self.persons.remove(&mut handle) {
                        return_node.push_back(Action::PersonAdd(person));
                    }
                },
                Action::PersonReplace(person_ref, person) => {
                    if let Some(old_person) = self.persons.replace(person_ref, person.clone()) {
                        return_node.push_back(Action::PersonReplace(*person_ref, old_person));
                    }
                },
                Action::FactionAdd(faction) => {
                    if let Some(faction_ref) = self.factions.add(faction) {
                        return_node.push_back(Action::FactionRemove(faction_ref));
                    }
                },
                Action::FactionRemove(faction_ref) => {
                    let mut handle = *faction_ref;
                    if let Some(faction) = self.factions.remove(&mut handle) {
                        return_node.push_back(Action::FactionAdd(faction));
                    }
                },
                Action::FactionReplace(faction_ref, faction) => {
                    if let Some(old_faction) = self.factions.replace(faction_ref, faction.clone()) {
                        return_node.push_back(Action::FactionReplace(*faction_ref, old_faction));
                    }
                },
            }
            proof {
                let (after, inverse) = apply_action(before, actions@[i as int]@);
                assert(self@ == after);
                match inverse {
                    Some(b) => {
                        assert(return_node@ == undone.push(return_node@.last()));
                        assert(return_node@.last()@ == b);
                        assert(actions_view(return_node@) =~= undo.push(b));
                    },
                    None => {
                        assert(return_node@ == undone);
                    },
                }
            }
            i = i + 1;
        }
        assert(actions_view(actions@).take(n as int) =~= actions_view(actions@));
        return_node
    }

    /// Whether no arena has a slot; removed records count as slots.
    pub fn is_empty(&self) -> (r: bool)
        ensures
            r == (self@.districts.len() == 0 && self@.persons.len() == 0 && self@.factions.len()
                == 0),
    {
        self.districts.is_empty() && self.persons.is_empty() && self.factions.is_empty()
    }

    /// Notes the file the data was loaded from.
    pub fn set_loaded_from(&mut self, maybe_file: Option<PathBuf>)
        requires
            old(self).wf(),
        ensures
            final(self).wf(),
            final(self)@ == old(self)@,
            final(self).sortings() == old(self).sortings(),
            final(self).loaded_from() == maybe_file,
    {
        self.loaded_from = maybe_file;
    }

    /// The file the data was loaded from, if any.
    pub fn get_loaded_from(&self) -> (r: Option<PathBuf>)
        ensures
            r == self.loaded_from(),
    {
        match &self.loaded_from {
            Some(path) => Some(clone_path(path)),
            None => None,
        }
    }

    /// The arena of persons.
    pub fn person_list(&self) -> (r: &ManagedList<Person>)
        ensures
            r@ == self@.persons,
            self.wf() ==> r.wf(),
            r.sorting() == self.sortings().1,
    {
        &self.persons
    }

    /// The arena of districts.
    pub fn district_list(&self) -> (r: &ManagedList<District>)
        ensures
            r@ == self@.districts,
            self.wf() ==> r.wf(),
            r.sorting() == self.sortings().0,
    {
        &self.districts
    }

    /// The arena of factions.
    pub fn faction_list(&self) -> (r: &ManagedList<Faction>)
        ensures
            r@ == self@.factions,
            self.wf() ==> r.wf(),
            r.sorting() == self.sortings().2,
    {
        &self.factions
    }

    /// The names of the live persons, in increasing order.
    pub fn persons_names(&self) -> (r: Vec<String>)
        requires
            self.wf(),
        ensures
            increasing(strings_view(r@)),
            forall|n: Seq<char>| #[trigger]
                has_name::<Person>(self@.persons, n) <==> strings_view(r@).contains(n),
    {
        self.persons.names_sorted()
    }

    /// The names of the live districts, in increasing order.
    pub fn districts_names(&self) -> (r: Vec<String>)
        requires
            self.wf(),
        ensures
            increasing(strings_view(r@)),
            forall|n: Seq<char>| #[trigger]
                has_name::<District>(self@.districts, n) <==> strings_view(r@).contains(n),
    {
        self.districts.names_sorted()
    }

    /// The names of the live factions, in increasing order.
    pub fn factions_names(&self) -> (r: Vec<String>)
        requires
            self.wf(),
        ensures
            increasing(strings_view(r@)),
            forall|n: Seq<char>| #[trigger]
                has_name::<Faction>(self@.factions, n) <==> strings_view(r@).contains(n),
    {
        self.factions.names_sorted()
    }

    /// Selects the sort column of the table of persons: a second selection
    /// of the current column toggles the direction.
    pub fn set_persons_sort(&mut self, index: usize)
        requires
            old(self).wf(),
        ensures
            final(self).wf(),
            final(self)@ == old(self)@,
            final(self).loaded_from() == old(self).loaded_from(),
            final(self).sortings().0 == old(self).sortings().0,
            final(self).sortings().2 == old(self).sortings().2,
            (final(self).sortings().1.field(), final(self).sortings().1.reversed()) == old(
                self,
            ).sortings().1.clicked(index),
    {
        self.persons.set_sorting(index);
    }

    /// Selects the sort column of the table of districts: a second selection
    /// of the current column toggles the direction.
    pub fn set_districts_sort(&mut self, index: usize)
        requires
            old(self).wf(),
        ensures
            final(self).wf(),
            final(self)@ == old(self)@,
            final(self).loaded_from() == old(self).loaded_from(),
            final(self).sortings().1 == old(self).sortings().1,
            final(self).sortings().2 == old(self).sortings().2,
            (final(self).sortings().0.field(), final(self).sortings().0.reversed()) == old(
                self,
            ).sortings().0.clicked(index),
    {
        self.districts.set_sorting(index);
    }

    /// Selects the sort column of the table of factions: a second selection
    /// of the current column toggles the direction.
    pub fn set_factions_sort(&mut self, index: usize)
        requires
            old(self).wf(),
        ensures
            final(self).wf(),
            final(self)@ == old(self)@,
            final(self).loaded_from() == old(self).loaded_from(),
            final(self).sortings().0 == old(self).sortings().0,
            final(self).sortings().1 == old(self).sortings().1,
            (final(self).sortings().2.field(), final(self).sortings().2.reversed()) == old(
                self,
            ).sortings().2.clicked(index),
    {
        self.factions.set_sorting(index);
    }

    /// The handle of the live district of that name.
    pub fn find_district(&self, name: &str) -> (r: Option<DistrictRef>)
        requires
            self.wf(),
        ensures
            slot_opt(r) == arena_find::<District>(self@.districts, name@),
    {
        self.districts.find(name)
    }

    /// A copy of the district that the handle addresses, none where it is dead.
    pub fn clone_district(&self, index: &DistrictRef) -> (r: Option<District>)
        requires
            self.wf(),
        ensures
            view_opt(r) == arena_fetch::<District>(self@.districts, index.slot()),
    {
        match self.districts.fetch(index) {
            Some(district) => Some(district.clone()),
            None => None,
        }
    }

    /// The handle of the live person of that name.
    pub fn find_person(&self, name: &str) -> (r: Option<PersonRef>)
        requires
            self.wf(),
        ensures
            slot_opt(r) == arena_find::<Person>(self@.persons, name@),
    {
        self.persons.find(name)
    }

    /// A copy of the person that the handle addresses, none where it is dead.
    pub fn clone_person(&self, index: &PersonRef) -> (r: Option<Person>)
        requires
            self.wf(),
        ensures
            view_opt(r) == arena_fetch::<Person>(self@.persons, index.slot()),
    {
        match self.persons.fetch(index) {
            Some(person) => Some(person.clone()),
            None => None,
        }
    }

    /// The handle of the live faction of that name.
    pub fn find_faction(&self, name: &str) -> (r: Option<FactionRef>)
        requires
            self.wf(),
        ensures
            slot_opt(r) == arena_find::<Faction>(self@.factions, name@),
    {
        self.factions.find(name)
    }

    /// A copy of the faction that the handle addresses, none where it is dead.
    pub fn clone_faction(&self, index: &FactionRef) -> (r: Option<Faction>)
        requires
            self.wf(),
        ensures
            view_opt(r) == arena_fetch::<Faction>(self@.factions, index.slot()),
    {
        match self.factions.fetch(index) {
            Some(faction) => Some(faction.clone()),
            None => None,
        }
    }

    /// The number of slots of the arena that a view lists, removed records
    /// included.
    pub fn view_size(&self, view: MainView) -> (r: usize)
        ensures
            r == (match view {
                MainView::Factions => self@.factions.len(),
                MainView::Persons => self@.persons.len(),
                MainView::Districts => self@.districts.len(),
            }),
    {
        match view {
            MainView::Factions => self.factions.len(),
            MainView::Persons => self.persons.len(),
            MainView::Districts => self.districts.len(),
        }
    }

    /// Whether an identifier has a slot in the arena of its kind.
    pub open spec fn in_range(self, index: DataIndex) -> bool {
        match index {
            DataIndex::Nothing => true,
            DataIndex::DistrictIndex(i) => i < self@.districts.len(),
            DataIndex::PersonIndex(i) => i < self@.persons.len(),
            DataIndex::FactionIndex(i) => i < self@.factions.len(),
        }
    }

    /// Whether an identifier addresses a live record.
    pub open spec fn addresses_record(self, index: DataIndex) -> bool {
        match index {
            DataIndex::Nothing => false,
            DataIndex::DistrictIndex(i) => live_at::<District>(self@.districts, i as int),
            DataIndex::PersonIndex(i) => live_at::<Person>(self@.persons, i as int),
            DataIndex::FactionIndex(i) => live_at::<Faction>(self@.factions, i as int),
        }
    }

    /// Whether an identifier addresses a live record. The identifier's slot
    /// must exist in the arena of its kind.
    pub fn data_index_valid(&self, index: DataIndex) -> (r: bool)
        requires
            self.wf(),
            self.in_range(index),
        ensures
            r == self.addresses_record(index),
    {
        match index {
            DataIndex::Nothing => false,
            DataIndex::DistrictIndex(i) => self.districts.fetch_with_index(i).is_some(),
            DataIndex::PersonIndex(i) => self.persons.fetch_with_index(i).is_some(),
            DataIndex::FactionIndex(i) => self.factions.fetch_with_index(i).is_some(),
        }
    }
}

} // verus!

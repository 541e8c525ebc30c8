//! The tables that the main window shows of the three arenas.

use crate::app_data::{AppData, DataIndex};
use crate::app_display::{
    all_have_field, lines_view, DisplayLine, DisplayLineView, DisplayTable, DisplayTableView,
};
use crate::district::{District, DistrictView};
use crate::faction::{Faction, FactionView};
use crate::managed_list::{arena_fetch, listed_slots, name_ordered, Named, Slots};
use crate::names::strings_view;
use crate::person::{Person, PersonView};
use vstd::prelude::*;

verus! {

/// The line of the district in a slot: its name.
pub open spec fn district_line(districts: Slots<DistrictView>, slot: int) -> DisplayLineView {
    DisplayLineView {
        fields: seq![districts[slot].unwrap().name],
        id: DataIndex::DistrictIndex(slot as usize),
    }
}

/// The line of the person in a slot: its name.
pub open spec fn person_line(persons: Slots<PersonView>, slot: int) -> DisplayLineView {
    DisplayLineView {
        fields: seq![persons[slot].unwrap().name],
        id: DataIndex::PersonIndex(slot as usize),
    }
}

/// The line of the faction in a slot: name, tier, seat and turf.
pub open spec fn faction_line(
    factions: Slots<FactionView>,
    districts: Slots<DistrictView>,
    slot: int,
) -> DisplayLineView {
    DisplayLineView {
        fields: factions[slot].unwrap().fields(districts),
        id: DataIndex::FactionIndex(slot as usize),
    }
}

/// The lines of the districts in the given slots.
pub open spec fn district_lines(districts: Slots<DistrictView>, slots: Seq<int>) -> Seq<
    DisplayLineView,
> {
    Seq::new(slots.len(), |k: int| district_line(districts, slots[k]))
}

/// The lines of the persons in the given slots.
pub open spec fn person_lines(persons: Slots<PersonView>, slots: Seq<int>) -> Seq<DisplayLineView> {
    Seq::new(slots.len(), |k: int| person_line(persons, slots[k]))
}

/// The lines of the factions in the given slots.
pub open spec fn faction_lines(
    factions: Slots<FactionView>,
    districts: Slots<DistrictView>,
    slots: Seq<int>,
) -> Seq<DisplayLineView> {
    Seq::new(slots.len(), |k: int| faction_line(factions, districts, slots[k]))
}

/// Whether a table shows the given lines under the given headings: sorted as
/// `sorting` asks where there is more than one line.
pub open spec fn table_of(
    table: DisplayTableView,
    lines: Seq<DisplayLineView>,
    headings: Seq<Seq<char>>,
    sorting: crate::sorting::Sorting,
) -> bool {
    &&& table.columns == crate::app_display::columns_of(headings)
    &&& table.sorting == sorting
    &&& lines.len() >= 2 ==> table.shows(lines, sorting)
    &&& lines.len() < 2 ==> table.lines == lines
}

impl AppData {
    /// The table of the live districts. The lines are taken in the order of
    /// the names and then sorted by the sort column of the districts. Where
    /// there is more than one district, the sort column must be the one
    /// column that the table has.
    pub fn districts_display_table(&self) -> (r: DisplayTable)
        requires
            self.wf(),
            forall|slots: Seq<int>|
                name_ordered::<District>(self@.districts, slots) && slots.len() >= 2
                    ==> self.sortings().0.field() < 1,
        ensures
            exists|slots: Seq<int>|
                name_ordered::<District>(self@.districts, slots) && table_of(
                    r@,
                    district_lines(self@.districts, slots),
                    District::headings(),
                    self.sortings().0,
                ),
    {
        let list = self.district_list();
        let items = list.item_ref_list();
        let ghost slots = listed_slots::<District>(items@);
        let mut lines: Vec<DisplayLine> = Vec::new();
        let mut i: usize = 0;
        while i < items.len()
            invariant
                list.wf(),
                list@ == self@.districts,
                slots == listed_slots::<District>(items@),
                name_ordered::<District>(list@, slots),
                forall|k: int|
                    0 <= k < items@.len() ==> arena_fetch::<District>(
                        list@,
                        (#[trigger] items@[k]).0.slot(),
                    ) == Some(items@[k].1@),
                0 <= i <= items@.len(),
                lines@.len() == i,
                forall|k: int|
                    0 <= k < i ==> (#[trigger] lines@[k])@ == district_line(list@, slots[k]),
            decreases items@.len() - i,
        {
            let (handle, item) = items[i];
            assert(slots[i as int] == handle.slot());
            let line = DisplayLine::new(item.display_fields(), handle.data_index(list));
            lines.push(line);
            i = i + 1;
        }
        proof {
            assert(lines_view(lines@) =~= district_lines(list@, slots));
            assert(all_have_field(lines_view(lines@), 0));
        }
        let headings = District::display_headings();
        assert(strings_view(headings@) =~= District::headings());
        DisplayTable::from_lines(lines, headings, list.get_sorting())
    }

    /// The table of the live persons. The lines are taken in the order of
    /// the names and then sorted by the sort column of the persons. Where
    /// there is more than one person, the sort column must be the one
    /// column that the table has.
    pub fn persons_display_table(&self) -> (r: DisplayTable)
        requires
            self.wf(),
            forall|slots: Seq<int>|
                name_ordered::<Person>(self@.persons, slots) && slots.len() >= 2
                    ==> self.sortings().1.field() < 1,
        ensures
            exists|slots: Seq<int>|
                name_ordered::<Person>(self@.persons, slots) && table_of(
                    r@,
                    person_lines(self@.persons, slots),
                    Person::headings(),
                    self.sortings().1,
                ),
    {
        let list = self.person_list();
        let items = list.item_ref_list();
        let ghost slots = listed_slots::<Person>(items@);
        let mut lines: Vec<DisplayLine> = Vec::new();
        let mut i: usize = 0;
        while i < items.len()
            invariant
                list.wf(),
                list@ == self@.persons,
                slots == listed_slots::<Person>(items@),
                name_ordered::<Person>(list@, slots),
                forall|k: int|
                    0 <= k < items@.len() ==> arena_fetch::<Person>(
                        list@,
                        (#[trigger] items@[k]).0.slot(),
                    ) == Some(items@[k].1@),
                0 <= i <= items@.len(),
                lines@.len() == i,
                forall|k: int|
                    0 <= k < i ==> (#[trigger] lines@[k])@ == person_line(list@, slots[k]),
            decreases items@.len() - i,
        {
            let (handle, item) = items[i];
            assert(slots[i as int] == handle.slot());
            let line = DisplayLine::new(item.display_fields(), handle.data_index(list));
            lines.push(line);
            i = i + 1;
        }
        proof {
            assert(lines_view(lines@) =~= person_lines(list@, slots));
            assert(all_have_field(lines_view(lines@), 0));
        }
        let headings = Person::display_headings();
        assert(strings_view(headings@) =~= Person::headings());
        DisplayTable::from_lines(lines, headings, list.get_sorting())
    }

    /// The table of the live factions. The lines are taken in the order of
    /// the names and then sorted by the sort column of the factions. Where
    /// there is more than one faction, the sort column must be one of the
    /// four columns that the table has.
    pub fn factions_display_table(&self) -> (r: DisplayTable)
        requires
            self.wf(),
            forall|slots: Seq<int>|
                name_ordered::<Faction>(self@.factions, slots) && slots.len() >= 2
                    ==> self.sortings().2.field() < 4,
        ensures
            exists|slots: Seq<int>|
                name_ordered::<Faction>(self@.factions, slots) && table_of(
                    r@,
                    faction_lines(self@.factions, self@.districts, slots),
                    Faction::headings(),
                    self.sortings().2,
                ),
    {
        let list = self.faction_list();
        let districts = self.district_list();
        let items = list.item_ref_list();
        let ghost slots = listed_slots::<Faction>(items@);
        let mut lines: Vec<DisplayLine> = Vec::new();
        let mut i: usize = 0;
        while i < items.len()
            invariant
                list.wf(),
                list@ == self@.factions,
                districts.wf(),
                districts@ == self@.districts,
                slots == listed_slots::<Faction>(items@),
                name_ordered::<Faction>(list@, slots),
                forall|k: int|
                    0 <= k < items@.len() ==> arena_fetch::<Faction>(
                        list@,
                        (#[trigger] items@[k]).0.slot(),
                    ) == Some(items@[k].1@),
                0 <= i <= items@.len(),
                lines@.len() == i,
                forall|k: int|
                    0 <= k < i ==> (#[trigger] lines@[k])@ == faction_line(list@, self@.districts, slots[k]),
            decreases items@.len() - i,
        {
            let (handle, item) = items[i];
            assert(slots[i as int] == handle.slot());
            let line = DisplayLine::new(item.display_fields(districts), handle.data_index(list));
            lines.push(line);
            i = i + 1;
        }
        proof {
            assert(lines_view(lines@) =~= faction_lines(list@, self@.districts, slots));
            assert(all_have_field(lines_view(lines@), list.sorting().field() as int) || lines@.len() < 2) by {
                if lines@.len() >= 2 {
                    assert(slots.len() >= 2);
                }
            }
        }
        let headings = Faction::display_headings();
        assert(strings_view(headings@) =~= Faction::headings());
        DisplayTable::from_lines(lines, headings, list.get_sorting())
    }
}

} // verus!

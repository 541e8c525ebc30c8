//! The application's data as a saved file keeps it: the live records of the
//! three arenas, with every cross-reference written as a name.

use crate::app_data::AppData;
use crate::district::{District, DistrictStore, DistrictStoreView, DistrictView};
use crate::faction::{Faction, FactionStore, FactionStoreView, FactionView};
use crate::managed_list::{ManagedList, Slots};
use crate::names::str_same;
use crate::person::{
    Person, PersonStore1, PersonStore1View, PersonStore2, PersonStore2View, PersonView,
};
use vstd::prelude::*;

verus! {

/// The schema name that every saved file bears.
pub const SAVE_SCHEMA: &'static str = "BladesFactionsData";

/// The version of the current layout of saved data.
pub const SAVE2_VERSION: u16 = 2;

/// The version of the first layout of saved data.
pub const SAVE1_VERSION: u16 = 1;

/// The views of the items of a sequence.
pub open spec fn views<T: View>(s: Seq<T>) -> Seq<T::V> {
    Seq::new(s.len(), |i: int| s[i]@)
}

/// What is saved of the districts: the live ones, in the order of their slots.
pub open spec fn district_stores_of(districts: Slots<DistrictView>, persons: Slots<PersonView>) -> Seq<
    DistrictStoreView,
>
    decreases districts.len(),
{
    if districts.len() == 0 {
        Seq::empty()
    } else {
        let rest = district_stores_of(districts.drop_last(), persons);
        match districts.last() {
            Some(v) => rest.push(DistrictStoreView::of(v, persons)),
            None => rest,
        }
    }
}

/// What is saved of the persons: the live ones, in the order of their slots.
pub open spec fn person_stores2_of(persons: Slots<PersonView>, districts: Slots<DistrictView>) -> Seq<
    PersonStore2View,
>
    decreases persons.len(),
{
    if persons.len() == 0 {
        Seq::empty()
    } else {
        let rest = person_stores2_of(persons.drop_last(), districts);
        match persons.last() {
            Some(v) => rest.push(PersonStore2View::of(v, districts)),
            None => rest,
        }
    }
}

/// What a file of the first version keeps of the persons: the live ones, in
/// the order of their slots.
pub open spec fn person_stores1_of(persons: Slots<PersonView>) -> Seq<PersonStore1View>
    decreases persons.len(),
{
    if persons.len() == 0 {
        Seq::empty()
    } else {
        let rest = person_stores1_of(persons.drop_last());
        match persons.last() {
            Some(v) => rest.push(PersonStore1View::of(v)),
            None => rest,
        }
    }
}

/// What is saved of the first slots of the arena of factions: the live
/// factions among them, in the order of their slots. Names of allies and
/// enemies are looked up in the whole arena `all`.
pub open spec fn faction_stores_of(
    factions: Slots<FactionView>,
    districts: Slots<DistrictView>,
    persons: Slots<PersonView>,
    all: Slots<FactionView>,
) -> Seq<FactionStoreView>
    decreases factions.len(),
{
    if factions.len() == 0 {
        Seq::empty()
    } else {
        let rest = faction_stores_of(factions.drop_last(), districts, persons, all);
        match factions.last() {
            Some(v) => rest.push(FactionStoreView::of(v, districts, persons, all)),
            None => rest,
        }
    }
}

/// What is saved of the districts of an arena.
pub fn district_stores(list: &ManagedList<District>, persons: &ManagedList<Person>) -> (r: Vec<
    DistrictStore,
>)
    requires
        list.wf(),
        persons.wf(),
    ensures
        views(r@) == district_stores_of(list@, persons@),
{
    let mut out: Vec<DistrictStore> = Vec::new();
    let mut i: usize = 0;
    assert(list@.take(0) =~= Seq::empty());
    assert(views(out@) =~= Seq::empty());
    while i < list.len()
        invariant
            list.wf(),
            persons.wf(),
            0 <= i <= list@.len(),
            views(out@) == district_stores_of(list@.take(i as int), persons@),
        decreases list@.len() - i,
    {
        assert(list@.take(i + 1).drop_last() =~= list@.take(i as int));
        assert(list@.take(i + 1).last() == list@[i as int]);
        let ghost before = views(out@);
        if let Some(item) = list.fetch_with_index(i) {
            let store = DistrictStore::from_district(item, persons);
            out.push(store);
            assert(views(out@) =~= before.push(store@));
        }
        i = i + 1;
    }
    assert(list@.take(list@.len() as int) =~= list@);
    out
}

/// What is saved of the persons of an arena.
pub fn person_stores2(list: &ManagedList<Person>, districts: &ManagedList<District>) -> (r: Vec<
    PersonStore2,
>)
    requires
        list.wf(),
        districts.wf(),
    ensures
        views(r@) == person_stores2_of(list@, districts@),
{
    let mut out: Vec<PersonStore2> = Vec::new();
    let mut i: usize = 0;
    assert(list@.take(0) =~= Seq::empty());
    assert(views(out@) =~= Seq::empty());
    while i < list.len()
        invariant
            list.wf(),
            districts.wf(),
            0 <= i <= list@.len(),
            views(out@) == person_stores2_of(list@.take(i as int), districts@),
        decreases list@.len() - i,
    {
        assert(list@.take(i + 1).drop_last() =~= list@.take(i as int));
        assert(list@.take(i + 1).last() == list@[i as int]);
        let ghost before = views(out@);
        if let Some(item) = list.fetch_with_index(i) {
            let store = PersonStore2::from_person(item, districts);
            out.push(store);
            assert(views(out@) =~= before.push(store@));
        }
        i = i + 1;
    }
    assert(list@.take(list@.len() as int) =~= list@);
    out
}

/// What a file of the first version keeps of the persons of an arena.
pub fn person_stores1(list: &ManagedList<Person>) -> (r: Vec<PersonStore1>)
    requires
        list.wf(),
    ensures
        views(r@) == person_stores1_of(list@),
{
    let mut out: Vec<PersonStore1> = Vec::new();
    let mut i: usize = 0;
    assert(list@.take(0) =~= Seq::empty());
    assert(views(out@) =~= Seq::empty());
    while i < list.len()
        invariant
            list.wf(),
            0 <= i <= list@.len(),
            views(out@) == person_stores1_of(list@.take(i as int)),
        decreases list@.len() - i,
    {
        assert(list@.take(i + 1).drop_last() =~= list@.take(i as int));
        assert(list@.take(i + 1).last() == list@[i as int]);
        let ghost before = views(out@);
        if let Some(item) = list.fetch_with_index(i) {
            let store = PersonStore1::from(item);
            out.push(store);
            assert(views(out@) =~= before.push(store@));
        }
        i = i + 1;
    }
    assert(list@.take(list@.len() as int) =~= list@);
    out
}

/// What is saved of the factions of an arena.
pub fn faction_stores(
    list: &ManagedList<Faction>,
    districts: &ManagedList<District>,
    persons: &ManagedList<Person>,
) -> (r: Vec<FactionStore>)
    requires
        list.wf(),
        districts.wf(),
        persons.wf(),
    ensures
        views(r@) == faction_stores_of(list@, districts@, persons@, list@),
{
    let mut out: Vec<FactionStore> = Vec::new();
    let mut i: usize = 0;
    assert(list@.take(0) =~= Seq::empty());
    assert(views(out@) =~= Seq::empty());
    while i < list.len()
        invariant
            list.wf(),
            districts.wf(),
            persons.wf(),
            0 <= i <= list@.len(),
            views(out@) == faction_stores_of(list@.take(i as int), districts@, persons@, list@),
        decreases list@.len() - i,
    {
        assert(list@.take(i + 1).drop_last() =~= list@.take(i as int));
        assert(list@.take(i + 1).last() == list@[i as int]);
        let ghost before = views(out@);
        if let Some(item) = list.fetch_with_index(i) {
            let store = FactionStore::from_faction(item, districts, persons, list);
            out.push(store);
            assert(views(out@) =~= before.push(store@));
        }
        i = i + 1;
    }
    assert(list@.take(list@.len() as int) =~= list@);
    out
}

/// Saved data in the current layout.
pub struct SaveData2 {
    save_schema: String,
    save_version: u16,
    persons: Vec<PersonStore2>,
    districts: Vec<DistrictStore>,
    factions: Vec<FactionStore>,
}

/// Saved data in the current layout, as a mathematical value.
pub struct SaveData2View {
    pub save_schema: Seq<char>,
    pub save_version: u16,
    pub persons: Seq<PersonStore2View>,
    pub districts: Seq<DistrictStoreView>,
    pub factions: Seq<FactionStoreView>,
}

/// Saved data in the first layout, whose persons have no district.
pub struct SaveData1 {
    save_schema: String,
    save_version: u16,
    persons: Vec<PersonStore1>,
    districts: Vec<DistrictStore>,
    factions: Vec<FactionStore>,
}

/// Saved data in the first layout, as a mathematical value.
pub struct SaveData1View {
    pub save_schema: Seq<char>,
    pub save_version: u16,
    pub persons: Seq<PersonStore1View>,
    pub districts: Seq<DistrictStoreView>,
    pub factions: Seq<FactionStoreView>,
}

impl View for SaveData2 {
    type V = SaveData2View;

    closed spec fn view(&self) -> SaveData2View {
        SaveData2View {
            save_schema: self.save_schema@,
            save_version: self.save_version,
            persons: views(self.persons@),
            districts: views(self.districts@),
            factions: views(self.factions@),
        }
    }
}

impl View for SaveData1 {
    type V = SaveData1View;

    closed spec fn view(&self) -> SaveData1View {
        SaveData1View {
            save_schema: self.save_schema@,
            save_version: self.save_version,
            persons: views(self.persons@),
            districts: views(self.districts@),
            factions: views(self.factions@),
        }
    }
}

impl SaveData2View {
    /// Whether the data bears the schema name and the current version.
    pub open spec fn valid(self) -> bool {
        self.save_schema == SAVE_SCHEMA@ && self.save_version == SAVE2_VERSION
    }

    /// What is saved of the application's data.
    pub open spec fn of(
        districts: Slots<DistrictView>,
        persons: Slots<PersonView>,
        factions: Slots<FactionView>,
    ) -> SaveData2View {
        SaveData2View {
            save_schema: SAVE_SCHEMA@,
            save_version: SAVE2_VERSION,
            persons: person_stores2_of(persons, districts),
            districts: district_stores_of(districts, persons),
            factions: faction_stores_of(factions, districts, persons, factions),
        }
    }
}

impl SaveData1View {
    /// Whether the data bears the schema name and the first version.
    pub open spec fn valid(self) -> bool {
        self.save_schema == SAVE_SCHEMA@ && self.save_version == SAVE1_VERSION
    }

    /// What a file of the first version keeps of the application's data.
    pub open spec fn of(
        districts: Slots<DistrictView>,
        persons: Slots<PersonView>,
        factions: Slots<FactionView>,
    ) -> SaveData1View {
        SaveData1View {
            save_schema: SAVE_SCHEMA@,
            save_version: SAVE1_VERSION,
            persons: person_stores1_of(persons),
            districts: district_stores_of(districts, persons),
            factions: faction_stores_of(factions, districts, persons, factions),
        }
    }

    /// The same data in the current layout: every person upgraded, schema name
    /// and version number kept as they are.
    pub open spec fn upgraded(self) -> SaveData2View {
        SaveData2View {
            save_schema: self.save_schema,
            save_version: self.save_version,
            persons: Seq::new(self.persons.len(), |i: int| self.persons[i].upgraded()),
            districts: self.districts,
            factions: self.factions,
        }
    }
}

impl SaveData2 {
    /// Saved data with the given fields, as read back from a file.
    pub fn from_parts(
        save_schema: String,
        save_version: u16,
        persons: Vec<PersonStore2>,
        districts: Vec<DistrictStore>,
        factions: Vec<FactionStore>,
    ) -> (r: Self)
        ensures
            r@ == (SaveData2View {
                save_schema: save_schema@,
                save_version,
                persons: views(persons@),
                districts: views(districts@),
                factions: views(factions@),
            }),
    {
        SaveData2 { save_schema, save_version, persons, districts, factions }
    }

    /// Whether the data bears the schema name and the current version.
    pub fn validate(&self) -> (r: bool)
        ensures
            r == self@.valid(),
    {
        str_same(self.save_schema.as_str(), SAVE_SCHEMA) && self.save_version == SAVE2_VERSION
    }

    /// What is saved of the application's data.
    pub fn from_app_data(input_data: &AppData) -> (r: Self)
        requires
            input_data.wf(),
        ensures
            r@ == SaveData2View::of(input_data@.districts, input_data@.persons, input_data@.factions),
    {
        let persons = input_data.person_list();
        let districts = input_data.district_list();
        let factions = input_data.faction_list();
        SaveData2 {
            save_schema: SAVE_SCHEMA.to_owned(),
            save_version: SAVE2_VERSION,
            persons: person_stores2(persons, districts),
            districts: district_stores(districts, persons),
            factions: faction_stores(factions, districts, persons),
        }
    }

    /// Data of the first layout in the current layout. The data must be valid
    /// as data of the first layout. Schema name and version number are kept,
    /// so the result still bears the first version.
    pub fn from_save_data1(save_data1: SaveData1) -> (r: Self)
        requires
            save_data1@.valid(),
        ensures
            r@ == save_data1@.upgraded(),
    {
        let mut persons: Vec<PersonStore2> = Vec::new();
        let ghost old_persons = views(save_data1.persons@);
        let SaveData1 { save_schema, save_version, persons: persons1, districts, factions } =
            save_data1;
        let mut persons1 = persons1;
        let n = persons1.len();
        let mut i: usize = 0;
        while i < n
            invariant
                0 <= i <= n,
                n == old_persons.len(),
                persons1@.len() == n,
                persons@.len() == i,
                forall|j: int| i <= j < n ==> (#[trigger] persons1@[j])@ == old_persons[j],
                forall|j: int| 0 <= j < i ==> (#[trigger] persons@[j])@ == old_persons[j].upgraded(),
            decreases n - i,
        {
            let mut taken = PersonStore1::default();
            persons1.set_and_swap(i, &mut taken);
            persons.push(PersonStore2::from(taken));
            i = i + 1;
        }
        let r = SaveData2 { save_schema, save_version, persons, districts, factions };
        assert(r@.persons =~= save_data1@.upgraded().persons);
        r
    }

    /// The schema name.
    pub fn save_schema(&self) -> (r: &str)
        ensures
            r@ == self@.save_schema,
    {
        self.save_schema.as_str()
    }

    /// The version number.
    pub fn save_version(&self) -> (r: u16)
        ensures
            r == self@.save_version,
    {
        self.save_version
    }

    /// The saved persons.
    pub fn persons(&self) -> (r: &Vec<PersonStore2>)
        ensures
            views(r@) == self@.persons,
    {
        &self.persons
    }

    /// The saved districts.
    pub fn districts(&self) -> (r: &Vec<DistrictStore>)
        ensures
            views(r@) == self@.districts,
    {
        &self.districts
    }

    /// The saved factions.
    pub fn factions(&self) -> (r: &Vec<FactionStore>)
        ensures
            views(r@) == self@.factions,
    {
        &self.factions
    }
}

impl SaveData1 {
    /// Saved data with the given fields, as read back from a file.
    pub fn from_parts(
        save_schema: String,
        save_version: u16,
        persons: Vec<PersonStore1>,
        districts: Vec<DistrictStore>,
        factions: Vec<FactionStore>,
    ) -> (r: Self)
        ensures
            r@ == (SaveData1View {
                save_schema: save_schema@,
                save_version,
                persons: views(persons@),
                districts: views(districts@),
                factions: views(factions@),
            }),
    {
        SaveData1 { save_schema, save_version, persons, districts, factions }
    }

    /// Whether the data bears the schema name and the first version.
    pub fn validate(&self) -> (r: bool)
        ensures
            r == self@.valid(),
    {
        str_same(self.save_schema.as_str(), SAVE_SCHEMA) && self.save_version == SAVE1_VERSION
    }

    /// What a file of the first version keeps of the application's data.
    pub fn from_app_data(input_data: &AppData) -> (r: Self)
        requires
            input_data.wf(),
        ensures
            r@ == SaveData1View::of(input_data@.districts, input_data@.persons, input_data@.factions),
    {
        let persons = input_data.person_list();
        let districts = input_data.district_list();
        let factions = input_data.faction_list();
        SaveData1 {
            save_schema: SAVE_SCHEMA.to_owned(),
            save_version: SAVE1_VERSION,
            persons: person_stores1(persons),
            districts: district_stores(districts, persons),
            factions: faction_stores(factions, districts, persons),
        }
    }

    /// The schema name.
    pub fn save_schema(&self) -> (r: &str)
        ensures
            r@ == self@.save_schema,
    {
        self.save_schema.as_str()
    }

    /// The version number.
    pub fn save_version(&self) -> (r: u16)
        ensures
            r == self@.save_version,
    {
        self.save_version
    }

    /// The saved persons.
    pub fn persons(&self) -> (r: &Vec<PersonStore1>)
        ensures
            views(r@) == self@.persons,
    {
        &self.persons
    }

    /// The saved districts.
    pub fn districts(&self) -> (r: &Vec<DistrictStore>)
        ensures
            views(r@) == self@.districts,
    {
        &self.districts
    }

    /// The saved factions.
    pub fn factions(&self) -> (r: &Vec<FactionStore>)
        ensures
            views(r@) == self@.factions,
    {
        &self.factions
    }
}

} // verus!

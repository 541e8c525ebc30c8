//! Loading saved data into the application's data.
//!
//! Saved records name the records they point at. Loading first adds the
//! records without such links, then looks every name up and, for each record
//! of which a link was found again, replaces the record by one with its links.
//! A name that is not found is left out; nothing makes loading fail.

use crate::action::{actions_view, Action, ActionNode, ActionView};
use crate::app_data::{apply_node, AppData, StoreView};
use crate::district::{District, DistrictStore, DistrictStoreView, DistrictView};
use crate::faction::{Faction, FactionStore, FactionStoreView, FactionView};
use crate::links::{find_opt, find_refs, found_opt, found_refs};
use crate::managed_list::{arena_find, Step};
use crate::names::{clone_strings, strings_view};
use crate::person::{Person, PersonStore2, PersonStore2View, PersonView};
use crate::save_data::{views, SaveData1, SaveData2, SaveData2View};
use vstd::prelude::*;
use vstd::std_specs::convert::FromSpecImpl;

verus! {

/// The person that a saved one becomes: its district is the live district of
/// the saved name, if there is one.
pub open spec fn person_of_store(s: StoreView, p: PersonStore2View) -> PersonView {
    PersonView { found_in: found_opt::<District>(s.districts, p.found_in), ..p.person() }
}

/// The faction that a saved one becomes at first: seat, turf, leader and
/// persons of note are the live records of the saved names; allies and enemies
/// are linked later.
pub open spec fn faction_of_store(s: StoreView, f: FactionStoreView) -> FactionView {
    FactionView {
        hq: found_opt::<District>(s.districts, f.hq),
        turf: found_refs::<District>(s.districts, f.turf),
        leader: found_opt::<Person>(s.persons, f.leader),
        notable: found_refs::<Person>(s.persons, f.notable),
        ..f.faction()
    }
}

/// The commands that add the saved districts.
pub open spec fn district_adds(stores: Seq<DistrictStoreView>) -> Seq<ActionView> {
    Seq::new(stores.len(), |i: int| ActionView::District(Step::Add(stores[i].district())))
}

/// The commands that add the saved persons.
pub open spec fn person_adds(s: StoreView, stores: Seq<PersonStore2View>) -> Seq<ActionView> {
    Seq::new(stores.len(), |i: int| ActionView::Person(Step::Add(person_of_store(s, stores[i]))))
}

/// The commands that add the saved factions.
pub open spec fn faction_adds(s: StoreView, stores: Seq<FactionStoreView>) -> Seq<ActionView> {
    Seq::new(stores.len(), |i: int| ActionView::Faction(Step::Add(faction_of_store(s, stores[i]))))
}

/// The command that links a district to its persons of note: none where no
/// live district bears the saved name, or where none of the names is found.
pub open spec fn district_link(s: StoreView, d: DistrictStoreView) -> Option<ActionView> {
    match arena_find::<District>(s.districts, d.name) {
        Some(slot) => {
            let notables = found_refs::<Person>(s.persons, d.notable);
            if notables.len() > 0 {
                Some(
                    ActionView::District(
                        Step::Replace(
                            slot,
                            DistrictView { notable: notables, ..s.districts[slot].unwrap() },
                        ),
                    ),
                )
            } else {
                None
            }
        },
        None => None,
    }
}

/// The commands that link the saved districts to their persons of note.
pub open spec fn district_links(s: StoreView, stores: Seq<DistrictStoreView>) -> Seq<ActionView>
    decreases stores.len(),
{
    if stores.len() == 0 {
        Seq::empty()
    } else {
        let rest = district_links(s, stores.drop_last());
        match district_link(s, stores.last()) {
            Some(a) => rest.push(a),
            None => rest,
        }
    }
}

/// The command that links a faction to its allies and enemies: none where no
/// live faction bears the saved name, or where none of the names is found. A
/// list of which no name is found stays as it is.
pub open spec fn faction_link(s: StoreView, f: FactionStoreView) -> Option<ActionView> {
    match arena_find::<Faction>(s.factions, f.name) {
        Some(slot) => {
            let allies = found_refs::<Faction>(s.factions, f.allies);
            let enemies = found_refs::<Faction>(s.factions, f.enemies);
            let v = s.factions[slot].unwrap();
            if allies.len() > 0 || enemies.len() > 0 {
                Some(
                    ActionView::Faction(
                        Step::Replace(
                            slot,
                            FactionView {
                                allies: if allies.len() > 0 {
                                    allies
                                } else {
                                    v.allies
                                },
                                enemies: if enemies.len() > 0 {
                                    enemies
                                } else {
                                    v.enemies
                                },
                                ..v
                            },
                        ),
                    ),
                )
            } else {
                None
            }
        },
        None => None,
    }
}

/// The commands that link the saved factions to their allies and enemies.
pub open spec fn faction_links(s: StoreView, stores: Seq<FactionStoreView>) -> Seq<ActionView>
    decreases stores.len(),
{
    if stores.len() == 0 {
        Seq::empty()
    } else {
        let rest = faction_links(s, stores.drop_last());
        match faction_link(s, stores.last()) {
            Some(a) => rest.push(a),
            None => rest,
        }
    }
}

/// The arenas after saved data was loaded into them, in five rounds of
/// commands: the districts are added; the persons are added, each linked to
/// its district; the districts are linked to their persons of note; the
/// factions are added, linked to districts and persons; the factions are
/// linked to their allies and enemies. Each round looks names up in what the
/// round before left, and a command that cannot be carried out is passed over.
pub open spec fn loaded(s: StoreView, data: SaveData2View) -> StoreView {
    let s1 = apply_node(s, district_adds(data.districts)).0;
    let s2 = apply_node(s1, person_adds(s1, data.persons)).0;
    let s3 = apply_node(s2, district_links(s2, data.districts)).0;
    let s4 = apply_node(s3, faction_adds(s3, data.factions)).0;
    apply_node(s4, faction_links(s4, data.factions)).0
}

impl AppData {
    /// The person that a saved one becomes, linked to its district.
    pub fn person_from_store(&self, p_store: &PersonStore2) -> (r: Person)
        requires
            self.wf(),
        ensures
            r@ == person_of_store(self@, p_store@),
    {
        let mut person: Person = Person::from(p_store);
        if p_store.found_in().is_some() {
            let found_in_ref = find_opt(self.district_list(), p_store.found_in());
            person.set_found_in(found_in_ref);
        }
        person
    }

    /// The district that a saved one becomes, and the names of its persons of
    /// note, which are linked once the persons are loaded.
    pub fn district_from_store(&self, d_store: &DistrictStore) -> (r: (District, Vec<String>))
        ensures
            r.0@ == d_store@.district(),
            strings_view(r.1@) == d_store@.notable,
    {
        let district: District = District::from(d_store);
        (district, clone_strings(d_store.notable()))
    }

    /// The faction that a saved one becomes, linked to its districts and
    /// persons, and the names of its allies and of its enemies, which are
    /// linked once the factions are loaded.
    pub fn faction_from_store(&self, f_store: &FactionStore) -> (r: (
        Faction,
        Vec<String>,
        Vec<String>,
    ))
        requires
            self.wf(),
        ensures
            r.0@ == faction_of_store(self@, f_store@),
            strings_view(r.1@) == f_store@.allies,
            strings_view(r.2@) == f_store@.enemies,
    {
        let mut faction: Faction = Faction::from(f_store);
        if f_store.hq().is_some() {
            let hq_ref = find_opt(self.district_list(), f_store.hq());
            faction.set_hq(hq_ref);
        }
        let turf = find_refs(self.district_list(), f_store.turf());
        faction.set_turf(turf);
        if f_store.leader().is_some() {
            let leader_ref = find_opt(self.person_list(), f_store.leader());
            faction.set_leader(leader_ref);
        }
        let notable = find_refs(self.person_list(), f_store.notable());
        faction.set_notable(notable);
        (faction, clone_strings(f_store.allies()), clone_strings(f_store.enemies()))
    }

    /// The commands that add the saved districts.
    fn district_add_node(&self, stores: &Vec<DistrictStore>) -> (r: ActionNode)
        ensures
            actions_view(r@) == district_adds(views(stores@)),
    {
        let mut node = ActionNode::new();
        let mut i: usize = 0;
        while i < stores.len()
            invariant
                0 <= i <= stores@.len(),
                node@.len() == i,
                forall|j: int|
                    0 <= j < i ==> (#[trigger] node@[j])@ == district_adds(views(stores@))[j],
            decreases stores@.len() - i,
        {
            let (district, _notable) = self.district_from_store(&stores[i]);
            node.push_back(Action::DistrictAdd(district));
            i = i + 1;
        }
        assert(actions_view(node@) =~= district_adds(views(stores@)));
        node
    }

    /// The commands that add the saved persons.
    fn person_add_node(&self, stores: &Vec<PersonStore2>) -> (r: ActionNode)
        requires
            self.wf(),
        ensures
            actions_view(r@) == person_adds(self@, views(stores@)),
    {
        let mut node = ActionNode::new();
        let mut i: usize = 0;
        while i < stores.len()
            invariant
                self.wf(),
                0 <= i <= stores@.len(),
                node@.len() == i,
                forall|j: int|
                    0 <= j < i ==> (#[trigger] node@[j])@ == person_adds(self@, views(stores@))[j],
            decreases stores@.len() - i,
        {
            let person = self.person_from_store(&stores[i]);
            node.push_back(Action::PersonAdd(person));
            i = i + 1;
        }
        assert(actions_view(node@) =~= person_adds(self@, views(stores@)));
        node
    }

    /// The commands that add the saved factions.
    fn faction_add_node(&self, stores: &Vec<FactionStore>) -> (r: ActionNode)
        requires
            self.wf(),
        ensures
            actions_view(r@) == faction_adds(self@, views(stores@)),
    {
        let mut node = ActionNode::new();
        let mut i: usize = 0;
        while i < stores.len()
            invariant
                self.wf(),
                0 <= i <= stores@.len(),
                node@.len() == i,
                forall|j: int|
                    0 <= j < i ==> (#[trigger] node@[j])@ == faction_adds(self@, views(stores@))[j],
            decreases stores@.len() - i,
        {
            let (faction, _allies, _enemies) = self.faction_from_store(&stores[i]);
            node.push_back(Action::FactionAdd(faction));
            i = i + 1;
        }
        assert(actions_view(node@) =~= faction_adds(self@, views(stores@)));
        node
    }

    /// The commands that link the saved districts to their persons of note.
    fn district_link_node(&self, stores: &Vec<DistrictStore>) -> (r: ActionNode)
        requires
            self.wf(),
        ensures
            actions_view(r@) == district_links(self@, views(stores@)),
    {
        let mut node = ActionNode::new();
        let mut i: usize = 0;
        let ghost all = views(stores@);
        assert(all.take(0) =~= Seq::empty());
        assert(actions_view(node@) =~= Seq::empty());
        while i < stores.len()
            invariant
                self.wf(),
                all == views(stores@),
                0 <= i <= stores@.len(),
                actions_view(node@) == district_links(self@, all.take(i as int)),
            decreases stores@.len() - i,
        {
            assert(all.take(i + 1).drop_last() =~= all.take(i as int));
            assert(all.take(i + 1).last() == stores@[i as int]@);
            let ghost before = actions_view(node@);
            let store = &stores[i];
            let districts = self.district_list();
            if let Some(dist_ref) = districts.find(store.name()) {
                if let Some(dist) = districts.fetch(&dist_ref) {
                    let notables = find_refs(self.person_list(), store.notable());
                    if notables.len() > 0 {
                        let mut district = dist.clone();
                        district.set_notable(notables);
                        let action = Action::DistrictReplace(dist_ref, district);
                        node.push_back(action);
                        assert(actions_view(node@) =~= before.push(action@));
                    }
                }
            }
            i = i + 1;
        }
        assert(all.take(stores@.len() as int) =~= all);
        node
    }

    /// The commands that link the saved factions to their allies and enemies.
    fn faction_link_node(&self, stores: &Vec<FactionStore>) -> (r: ActionNode)
        requires
            self.wf(),
        ensures
            actions_view(r@) == faction_links(self@, views(stores@)),
    {
        let mut node = ActionNode::new();
        let mut i: usize = 0;
        let ghost all = views(stores@);
        assert(all.take(0) =~= Seq::empty());
        assert(actions_view(node@) =~= Seq::empty());
        while i < stores.len()
            invariant
                self.wf(),
                all == views(stores@),
                0 <= i <= stores@.len(),
                actions_view(node@) == faction_links(self@, all.take(i as int)),
            decreases stores@.len() - i,
        {
            assert(all.take(i + 1).drop_last() =~= all.take(i as int));
            assert(all.take(i + 1).last() == stores@[i as int]@);
            let ghost before = actions_view(node@);
            let store = &stores[i];
            let factions = self.faction_list();
            if let Some(fac_ref) = factions.find(store.name()) {
                if let Some(fac) = factions.fetch(&fac_ref) {
                    let allies = find_refs(factions, store.allies());
                    let enemies = find_refs(factions, store.enemies());
                    if allies.len() > 0 || enemies.len() > 0 {
                        let mut faction = fac.clone();
                        if allies.len() > 0 {
                            faction.set_allies(allies);
                        }
                        if enemies.len() > 0 {
                            faction.set_enemies(enemies);
                        }
                        let action = Action::FactionReplace(fac_ref, faction);
                        node.push_back(action);
                        assert(actions_view(node@) =~= before.push(action@));
                    }
                }
            }
            i = i + 1;
        }
        assert(all.take(stores@.len() as int) =~= all);
        node
    }

    /// Loads saved data into the data there is: records are added beside those
    /// that exist, and a saved record whose name is taken is passed over.
    /// Nothing is recorded for undo.
    pub fn load_data(&mut self, save_data: SaveData2)
        requires
            old(self).wf(),
        ensures
            final(self).wf(),
            final(self)@ == loaded(old(self)@, save_data@),
            final(self).loaded_from() == old(self).loaded_from(),
            final(self).sortings() == old(self).sortings(),
    {
        let district_add = self.district_add_node(save_data.districts());
        let _ = self.do_action(&district_add);
        let person_add = self.person_add_node(save_data.persons());
        let _ = self.do_action(&person_add);
        let district_replace = self.district_link_node(save_data.districts());
        let _ = self.do_action(&district_replace);
        let faction_add = self.faction_add_node(save_data.factions());
        let _ = self.do_action(&faction_add);
        let faction_replace = self.faction_link_node(save_data.factions());
        let _ = self.do_action(&faction_replace);
    }

    /// The data that loading data of the first layout into empty arenas gives.
    /// The saved data must be valid as data of the first layout.
    pub fn from_save_data1(save_data: SaveData1) -> (r: AppData)
        requires
            save_data@.valid(),
        ensures
            r.wf(),
            r@ == loaded(
                StoreView { districts: Seq::empty(), persons: Seq::empty(), factions: Seq::empty() },
                save_data@.upgraded(),
            ),
            r.loaded_from() is None,
    {
        let mut app_data = AppData::default();
        assert(app_data@.districts =~= Seq::empty() && app_data@.persons =~= Seq::empty()
            && app_data@.factions =~= Seq::empty());
        app_data.load_data(SaveData2::from_save_data1(save_data));
        app_data
    }
}

impl From<SaveData2> for AppData {
    /// The data that loading saved data into empty arenas gives.
    fn from(save_data: SaveData2) -> (r: AppData)
        ensures
            r.wf(),
            r@ == loaded(
                StoreView { districts: Seq::empty(), persons: Seq::empty(), factions: Seq::empty() },
                save_data@,
            ),
            r.loaded_from() is None,
    {
        let mut app_data = AppData::default();
        assert(app_data@.districts =~= Seq::empty() && app_data@.persons =~= Seq::empty()
            && app_data@.factions =~= Seq::empty());
        app_data.load_data(save_data);
        app_data
    }
}

impl FromSpecImpl<SaveData2> for AppData {
    open spec fn obeys_from_spec() -> bool {
        false
    }

    open spec fn from_spec(save_data: SaveData2) -> AppData {
        arbitrary()
    }
}

} // verus!

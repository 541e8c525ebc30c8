//! Factions: the powers of the city.

use crate::app_data::DataIndex;
use crate::clock::{Clock, ClockView};
use crate::district::{District, DistrictView};
use crate::links::{live_name, live_names, ref_name, ref_names};
use crate::managed_list::{DistrictRef, FactionRef, ManagedList, Named, PersonRef, Slots};
use crate::names::{chars_opt, clone_opt_string, clone_strings, str_same, strings_view};
use crate::person::{Person, PersonView};
use crate::ref_list::{clone_refs, same_opt_ref, same_refs};
use crate::tier::{Tier, TIER_STRINGS};
use vstd::prelude::*;
use vstd::std_specs::cmp::PartialEqSpecImpl;
use vstd::std_specs::convert::FromSpecImpl;
use vstd::string::StringExecFns;

verus! {

/// A faction, with its seat, its turf, its people and its friends and foes.
pub struct Faction {
    name: String,
    description: String,
    tier: Tier,
    hq: Option<DistrictRef>,
    turf: Vec<DistrictRef>,
    leader: Option<PersonRef>,
    notable: Vec<PersonRef>,
    assets: String,
    notes: String,
    allies: Vec<FactionRef>,
    enemies: Vec<FactionRef>,
    general: String,
    clocks: Vec<Clock>,
}

/// A faction as a mathematical value.
pub struct FactionView {
    pub name: Seq<char>,
    pub description: Seq<char>,
    pub tier: Tier,
    pub hq: Option<DistrictRef>,
    pub turf: Seq<DistrictRef>,
    pub leader: Option<PersonRef>,
    pub notable: Seq<PersonRef>,
    pub assets: Seq<char>,
    pub notes: Seq<char>,
    pub allies: Seq<FactionRef>,
    pub enemies: Seq<FactionRef>,
    pub general: Seq<char>,
    pub clocks: Seq<ClockView>,
}

/// What a table shows for each handle of a list: the name of its record, or
/// nothing where the record was removed.
pub open spec fn shown_names(districts: Slots<DistrictView>, refs: Seq<DistrictRef>) -> Seq<
    Seq<char>,
> {
    Seq::new(
        refs.len(),
        |k: int|
            match live_name::<District>(districts, Some(refs[k])) {
                Some(n) => n,
                None => Seq::empty(),
            },
    )
}

/// Names written one after the other with a comma and a blank between them.
pub open spec fn joined_names(names: Seq<Seq<char>>) -> Seq<char>
    decreases names.len(),
{
    if names.len() == 0 {
        Seq::empty()
    } else if names.len() == 1 {
        names[0]
    } else {
        joined_names(names.drop_last()) + ", "@ + names.last()
    }
}

impl FactionView {
    /// What a table shows of a faction: name, tier, the name of the seat and
    /// the names of the districts of the turf.
    pub open spec fn fields(self, districts: Slots<DistrictView>) -> Seq<Seq<char>> {
        seq![
            self.name,
            TIER_STRINGS@[self.tier.count()]@,
            match live_name::<District>(districts, self.hq) {
                Some(n) => n,
                None => Seq::empty(),
            },
            joined_names(shown_names(districts, self.turf)),
        ]
    }

    /// The faction of that name with nothing else filled in.
    pub open spec fn named(name: Seq<char>) -> FactionView {
        FactionView {
            name,
            description: Seq::empty(),
            tier: Tier::Tier0,
            hq: None,
            turf: Seq::empty(),
            leader: None,
            notable: Seq::empty(),
            assets: Seq::empty(),
            notes: Seq::empty(),
            allies: Seq::empty(),
            enemies: Seq::empty(),
            general: Seq::empty(),
            clocks: Seq::empty(),
        }
    }
}

/// The clocks of a vector as mathematical values.
pub open spec fn clocks_view(v: Seq<Clock>) -> Seq<ClockView> {
    Seq::new(v.len(), |i: int| v[i]@)
}

/// A copy of a vector of clocks.
pub fn clone_clocks(v: &Vec<Clock>) -> (r: Vec<Clock>)
    ensures
        clocks_view(r@) == clocks_view(v@),
{
    let mut out: Vec<Clock> = Vec::new();
    let mut i: usize = 0;
    while i < v.len()
        invariant
            0 <= i <= v@.len(),
            out@.len() == i,
            forall|j: int| 0 <= j < i ==> (#[trigger] out@[j])@ == v@[j]@,
        decreases v@.len() - i,
    {
        out.push(v[i].clone());
        i = i + 1;
    }
    assert(clocks_view(out@) =~= clocks_view(v@));
    out
}

impl View for Faction {
    type V = FactionView;

    closed spec fn view(&self) -> FactionView {
        FactionView {
            name: self.name@,
            description: self.description@,
            tier: self.tier,
            hq: self.hq,
            turf: self.turf@,
            leader: self.leader,
            notable: self.notable@,
            assets: self.assets@,
            notes: self.notes@,
            allies: self.allies@,
            enemies: self.enemies@,
            general: self.general@,
            clocks: clocks_view(self.clocks@),
        }
    }
}

impl Clone for Faction {
    fn clone(&self) -> (r: Self)
        ensures
            r@ == self@,
    {
        Faction {
            name: self.name.clone(),
            description: self.description.clone(),
            tier: self.tier,
            hq: self.hq,
            turf: clone_refs(&self.turf),
            leader: self.leader,
            notable: clone_refs(&self.notable),
            assets: self.assets.clone(),
            notes: self.notes.clone(),
            allies: clone_refs(&self.allies),
            enemies: clone_refs(&self.enemies),
            general: self.general.clone(),
            clocks: clone_clocks(&self.clocks),
        }
    }
}

impl Faction {
    /// Sets the seat, in place of the one there was.
    pub fn set_hq(&mut self, hq: Option<DistrictRef>)
        ensures
            final(self)@ == (FactionView { hq, ..old(self)@ }),
    {
        self.hq = hq;
    }

    /// Sets the leader, in place of the one there was.
    pub fn set_leader(&mut self, leader: Option<PersonRef>)
        ensures
            final(self)@ == (FactionView { leader, ..old(self)@ }),
    {
        self.leader = leader;
    }

    /// Sets the turf, in place of what it was.
    pub fn set_turf(&mut self, turf: Vec<DistrictRef>)
        ensures
            final(self)@ == (FactionView { turf: turf@, ..old(self)@ }),
    {
        self.turf = turf;
    }

    /// Sets the persons of note, in place of those there were.
    pub fn set_notable(&mut self, notable: Vec<PersonRef>)
        ensures
            final(self)@ == (FactionView { notable: notable@, ..old(self)@ }),
    {
        self.notable = notable;
    }

    /// Sets the allies, in place of those there were.
    pub fn set_allies(&mut self, allies: Vec<FactionRef>)
        ensures
            final(self)@ == (FactionView { allies: allies@, ..old(self)@ }),
    {
        self.allies = allies;
    }

    /// The faction of that name with nothing else filled in.
    pub fn new(name: &str) -> (r: Self)
        ensures
            r@ == FactionView::named(name@),
    {
        let r = Faction {
            name: name.to_owned(),
            description: String::new(),
            tier: Tier::Tier0,
            hq: None,
            turf: Vec::new(),
            leader: None,
            notable: Vec::new(),
            assets: String::new(),
            notes: String::new(),
            allies: Vec::new(),
            enemies: Vec::new(),
            general: String::new(),
            clocks: Vec::new(),
        };
        assert(r@.clocks =~= Seq::empty());
        r
    }

    /// Sets the enemies, in place of those there were.
    pub fn set_enemies(&mut self, enemies: Vec<FactionRef>)
        ensures
            final(self)@ == (FactionView { enemies: enemies@, ..old(self)@ }),
    {
        self.enemies = enemies;
    }

    /// Sets the name.
    pub fn set_name(&mut self, name: String)
        ensures
            final(self)@ == (FactionView { name: name@, ..old(self)@ }),
    {
        self.name = name;
    }

    /// The description.
    pub fn description(&self) -> (r: &str)
        ensures
            r@ == self@.description,
    {
        self.description.as_str()
    }

    /// Sets the description.
    pub fn set_description(&mut self, description: String)
        ensures
            final(self)@ == (FactionView { description: description@, ..old(self)@ }),
    {
        self.description = description;
    }

    /// The tier.
    pub fn tier(&self) -> (r: Tier)
        ensures
            r == self@.tier,
    {
        self.tier
    }

    /// Sets the tier.
    pub fn set_tier(&mut self, tier: Tier)
        ensures
            final(self)@ == (FactionView { tier, ..old(self)@ }),
    {
        self.tier = tier;
    }

    /// The seat.
    pub fn hq(&self) -> (r: Option<DistrictRef>)
        ensures
            r == self@.hq,
    {
        self.hq
    }

    /// The turf.
    pub fn turf(&self) -> (r: &Vec<DistrictRef>)
        ensures
            r@ == self@.turf,
    {
        &self.turf
    }

    /// The leader.
    pub fn leader(&self) -> (r: Option<PersonRef>)
        ensures
            r == self@.leader,
    {
        self.leader
    }

    /// The persons of note.
    pub fn notable(&self) -> (r: &Vec<PersonRef>)
        ensures
            r@ == self@.notable,
    {
        &self.notable
    }

    /// The assets.
    pub fn assets(&self) -> (r: &str)
        ensures
            r@ == self@.assets,
    {
        self.assets.as_str()
    }

    /// Sets the assets.
    pub fn set_assets(&mut self, assets: String)
        ensures
            final(self)@ == (FactionView { assets: assets@, ..old(self)@ }),
    {
        self.assets = assets;
    }

    /// The notes.
    pub fn notes(&self) -> (r: &str)
        ensures
            r@ == self@.notes,
    {
        self.notes.as_str()
    }

    /// Sets the notes.
    pub fn set_notes(&mut self, notes: String)
        ensures
            final(self)@ == (FactionView { notes: notes@, ..old(self)@ }),
    {
        self.notes = notes;
    }

    /// The allies.
    pub fn allies(&self) -> (r: &Vec<FactionRef>)
        ensures
            r@ == self@.allies,
    {
        &self.allies
    }

    /// The enemies.
    pub fn enemies(&self) -> (r: &Vec<FactionRef>)
        ensures
            r@ == self@.enemies,
    {
        &self.enemies
    }

    /// The general remarks.
    pub fn general(&self) -> (r: &str)
        ensures
            r@ == self@.general,
    {
        self.general.as_str()
    }

    /// Sets the general remarks.
    pub fn set_general(&mut self, general: String)
        ensures
            final(self)@ == (FactionView { general: general@, ..old(self)@ }),
    {
        self.general = general;
    }

    /// What a table shows of the faction: name, tier, the name of the seat
    /// and the names of the districts of the turf, with nothing for a district
    /// that was removed.
    pub fn display_fields(&self, districts: &ManagedList<District>) -> (r: Vec<String>)
        requires
            districts.wf(),
        ensures
            strings_view(r@) == self@.fields(districts@),
    {
        let hq = match ref_name(districts, &self.hq) {
            Some(name) => name,
            None => String::new(),
        };
        let mut turf = String::new();
        let mut i: usize = 0;
        assert(self.turf@.take(0) =~= Seq::empty());
        while i < self.turf.len()
            invariant
                districts.wf(),
                0 <= i <= self.turf@.len(),
                turf@ == joined_names(shown_names(districts@, self.turf@.take(i as int))),
            decreases self.turf@.len() - i,
        {
            let ghost shown = shown_names(districts@, self.turf@.take(i + 1));
            assert(shown.drop_last() =~= shown_names(districts@, self.turf@.take(i as int)));
            if i > 0 {
                turf.append(", ");
            }
            match self.turf[i].name(districts) {
                Some(name) => {
                    turf.append(name.as_str());
                },
                None => {
                    assert(turf@ + Seq::<char>::empty() =~= turf@);
                },
            }
            assert(turf@ =~= joined_names(shown));
            i = i + 1;
        }
        assert(self.turf@.take(self.turf@.len() as int) =~= self.turf@);
        let mut r: Vec<String> = Vec::new();
        r.push(self.name.clone());
        r.push(self.tier.to_string());
        r.push(hq);
        r.push(turf);
        assert(strings_view(r@) =~= self@.fields(districts@));
        r
    }

    /// The clocks.
    pub fn clocks(&self) -> (r: &Vec<Clock>)
        ensures
            clocks_view(r@) == self@.clocks,
    {
        &self.clocks
    }

    /// Sets the clocks.
    pub fn set_clocks(&mut self, clocks: Vec<Clock>)
        ensures
            final(self)@ == (FactionView { clocks: clocks_view(clocks@), ..old(self)@ }),
    {
        self.clocks = clocks;
    }
}

impl Default for Faction {
    /// The faction without a name.
    fn default() -> (r: Self)
        ensures
            r@ == FactionView::named(Seq::empty()),
    {
        let r = Faction {
            name: String::new(),
            description: String::new(),
            tier: Tier::Tier0,
            hq: None,
            turf: Vec::new(),
            leader: None,
            notable: Vec::new(),
            assets: String::new(),
            notes: String::new(),
            allies: Vec::new(),
            enemies: Vec::new(),
            general: String::new(),
            clocks: Vec::new(),
        };
        assert(r@.clocks =~= Seq::empty());
        r
    }
}

/// Whether two vectors hold the same clocks in the same order.
pub fn same_clocks(a: &Vec<Clock>, b: &Vec<Clock>) -> (r: bool)
    ensures
        r == (clocks_view(a@) == clocks_view(b@)),
{
    if a.len() != b.len() {
        assert(clocks_view(a@).len() != clocks_view(b@).len());
        return false;
    }
    let mut i: usize = 0;
    while i < a.len()
        invariant
            a@.len() == b@.len(),
            0 <= i <= a@.len(),
            forall|j: int| 0 <= j < i ==> (#[trigger] a@[j])@ == b@[j]@,
        decreases a@.len() - i,
    {
        if !a[i].same_as(&b[i]) {
            assert(clocks_view(a@)[i as int] != clocks_view(b@)[i as int]);
            return false;
        }
        i = i + 1;
    }
    assert(clocks_view(a@) =~= clocks_view(b@));
    true
}

impl PartialEq for Faction {
    /// Whether two factions are the same in every field.
    fn eq(&self, other: &Self) -> (r: bool) {
        str_same(self.name.as_str(), other.name.as_str()) && str_same(
            self.description.as_str(),
            other.description.as_str(),
        ) && self.tier == other.tier && same_opt_ref(&self.hq, &other.hq) && same_refs(
            &self.turf,
            &other.turf,
        ) && same_opt_ref(&self.leader, &other.leader) && same_refs(&self.notable, &other.notable)
            && str_same(self.assets.as_str(), other.assets.as_str()) && str_same(
            self.notes.as_str(),
            other.notes.as_str(),
        ) && same_refs(&self.allies, &other.allies) && same_refs(&self.enemies, &other.enemies)
            && str_same(self.general.as_str(), other.general.as_str()) && same_clocks(
            &self.clocks,
            &other.clocks,
        )
    }
}

impl PartialEqSpecImpl for Faction {
    open spec fn obeys_eq_spec() -> bool {
        true
    }

    open spec fn eq_spec(&self, other: &Self) -> bool {
        self@ == other@
    }
}

impl Named for Faction {
    open spec fn name_of(v: FactionView) -> Seq<char> {
        v.name
    }

    open spec fn display_name_of(v: FactionView) -> Seq<char> {
        v.name
    }

    open spec fn data_index_of(slot: usize) -> DataIndex {
        DataIndex::FactionIndex(slot)
    }

    open spec fn slot_of(index: DataIndex) -> Option<usize> {
        match index {
            DataIndex::FactionIndex(i) => Some(i),
            _ => None,
        }
    }

    open spec fn headings() -> Seq<Seq<char>> {
        seq!["name_heading"@, "tier_heading"@, "hq_heading"@, "turf_heading"@]
    }

    fn name(&self) -> (r: &str) {
        self.name.as_str()
    }

    fn display_name(&self) -> (r: String) {
        self.name.clone()
    }

    fn make_data_index(index: usize) -> (r: DataIndex) {
        DataIndex::FactionIndex(index)
    }

    fn fetch_data_index(index: DataIndex) -> (r: Option<usize>) {
        match index {
            DataIndex::FactionIndex(ind) => Some(ind),
            _ => None,
        }
    }

    fn display_headings() -> (r: Vec<String>) {
        let mut r: Vec<String> = Vec::new();
        r.push("name_heading".to_owned());
        r.push("tier_heading".to_owned());
        r.push("hq_heading".to_owned());
        r.push("turf_heading".to_owned());
        r
    }

    proof fn lemma_clone_keeps_view(a: &Self, b: &Self) {
        if *a != *b {
            assert(call_ensures(Faction::clone, (a,), *b));
        }
    }
}

/// A faction as a saved file keeps it, every record it points at by name.
pub struct FactionStore {
    name: String,
    description: String,
    tier: Tier,
    pub hq: Option<String>,
    pub turf: Vec<String>,
    pub leader: Option<String>,
    pub notable: Vec<String>,
    assets: String,
    notes: String,
    pub allies: Vec<String>,
    pub enemies: Vec<String>,
    general: String,
    clocks: Vec<Clock>,
}

/// A faction as a saved file keeps it, every record it points at by name, as a mathematical value.
pub struct FactionStoreView {
    pub name: Seq<char>,
    pub description: Seq<char>,
    pub tier: Tier,
    pub hq: Option<Seq<char>>,
    pub turf: Seq<Seq<char>>,
    pub leader: Option<Seq<char>>,
    pub notable: Seq<Seq<char>>,
    pub assets: Seq<char>,
    pub notes: Seq<char>,
    pub allies: Seq<Seq<char>>,
    pub enemies: Seq<Seq<char>>,
    pub general: Seq<char>,
    pub clocks: Seq<ClockView>,
}

impl View for FactionStore {
    type V = FactionStoreView;

    closed spec fn view(&self) -> FactionStoreView {
        FactionStoreView {
            name: self.name@,
            description: self.description@,
            tier: self.tier,
            hq: chars_opt(self.hq),
            turf: strings_view(self.turf@),
            leader: chars_opt(self.leader),
            notable: strings_view(self.notable@),
            assets: self.assets@,
            notes: self.notes@,
            allies: strings_view(self.allies@),
            enemies: strings_view(self.enemies@),
            general: self.general@,
            clocks: clocks_view(self.clocks@),
        }
    }
}

impl Clone for FactionStore {
    fn clone(&self) -> (r: Self)
        ensures
            r@ == self@,
    {
        FactionStore {
            name: self.name.clone(),
            description: self.description.clone(),
            tier: self.tier,
            hq: clone_opt_string(&self.hq),
            turf: clone_strings(&self.turf),
            leader: clone_opt_string(&self.leader),
            notable: clone_strings(&self.notable),
            assets: self.assets.clone(),
            notes: self.notes.clone(),
            allies: clone_strings(&self.allies),
            enemies: clone_strings(&self.enemies),
            general: self.general.clone(),
            clocks: clone_clocks(&self.clocks),
        }
    }
}

impl FactionStore {
    /// A record with the given fields.
    pub fn from_parts(
        name: String,
        description: String,
        tier: Tier,
        hq: Option<String>,
        turf: Vec<String>,
        leader: Option<String>,
        notable: Vec<String>,
        assets: String,
        notes: String,
        allies: Vec<String>,
        enemies: Vec<String>,
        general: String,
        clocks: Vec<Clock>,
    ) -> (r: Self)
        ensures
            r@ == (FactionStoreView {
                name: name@,
                description: description@,
                tier: tier,
                hq: chars_opt(hq),
                turf: strings_view(turf@),
                leader: chars_opt(leader),
                notable: strings_view(notable@),
                assets: assets@,
                notes: notes@,
                allies: strings_view(allies@),
                enemies: strings_view(enemies@),
                general: general@,
                clocks: clocks_view(clocks@),
            }),
    {
        FactionStore { name, description, tier, hq, turf, leader, notable, assets, notes, allies, enemies, general, clocks }
    }

    /// The name.
    pub fn name(&self) -> (r: &str)
        ensures
            r@ == self@.name,
    {
        self.name.as_str()
    }

    /// The description.
    pub fn description(&self) -> (r: &str)
        ensures
            r@ == self@.description,
    {
        self.description.as_str()
    }

    /// The tier.
    pub fn tier(&self) -> (r: Tier)
        ensures
            r == self@.tier,
    {
        self.tier
    }

    /// The name of the district of the seat.
    pub fn hq(&self) -> (r: &Option<String>)
        ensures
            chars_opt(*r) == self@.hq,
    {
        &self.hq
    }

    /// The names of the districts of the turf.
    pub fn turf(&self) -> (r: &Vec<String>)
        ensures
            strings_view(r@) == self@.turf,
    {
        &self.turf
    }

    /// The name of the leader.
    pub fn leader(&self) -> (r: &Option<String>)
        ensures
            chars_opt(*r) == self@.leader,
    {
        &self.leader
    }

    /// The names of the persons of note.
    pub fn notable(&self) -> (r: &Vec<String>)
        ensures
            strings_view(r@) == self@.notable,
    {
        &self.notable
    }

    /// The assets.
    pub fn assets(&self) -> (r: &str)
        ensures
            r@ == self@.assets,
    {
        self.assets.as_str()
    }

    /// The notes.
    pub fn notes(&self) -> (r: &str)
        ensures
            r@ == self@.notes,
    {
        self.notes.as_str()
    }

    /// The names of the allies.
    pub fn allies(&self) -> (r: &Vec<String>)
        ensures
            strings_view(r@) == self@.allies,
    {
        &self.allies
    }

    /// The names of the enemies.
    pub fn enemies(&self) -> (r: &Vec<String>)
        ensures
            strings_view(r@) == self@.enemies,
    {
        &self.enemies
    }

    /// The general remarks.
    pub fn general(&self) -> (r: &str)
        ensures
            r@ == self@.general,
    {
        self.general.as_str()
    }

    /// The clocks.
    pub fn clocks(&self) -> (r: &Vec<Clock>)
        ensures
            clocks_view(r@) == self@.clocks,
    {
        &self.clocks
    }
}

impl FactionStoreView {
    /// What is saved of a faction: its fields, and the names of the live
    /// records among those it points at.
    pub open spec fn of(
        v: FactionView,
        districts: Slots<DistrictView>,
        persons: Slots<PersonView>,
        factions: Slots<FactionView>,
    ) -> FactionStoreView {
        FactionStoreView {
            name: v.name,
            description: v.description,
            tier: v.tier,
            hq: live_name::<District>(districts, v.hq),
            turf: live_names::<District>(districts, v.turf),
            leader: live_name::<Person>(persons, v.leader),
            notable: live_names::<Person>(persons, v.notable),
            assets: v.assets,
            notes: v.notes,
            allies: live_names::<Faction>(factions, v.allies),
            enemies: live_names::<Faction>(factions, v.enemies),
            general: v.general,
            clocks: v.clocks,
        }
    }

    /// The faction that loading makes of a saved one, before anything it
    /// points at is linked.
    pub open spec fn faction(self) -> FactionView {
        FactionView {
            description: self.description,
            tier: self.tier,
            assets: self.assets,
            notes: self.notes,
            general: self.general,
            clocks: self.clocks,
            ..FactionView::named(self.name)
        }
    }
}

impl FactionStore {
    /// What is saved of `from_faction`; the arenas give the names of the
    /// records it points at.
    pub fn from_faction(
        from_faction: &Faction,
        districts: &ManagedList<District>,
        persons: &ManagedList<Person>,
        factions: &ManagedList<Faction>,
    ) -> (r: FactionStore)
        requires
            districts.wf(),
            persons.wf(),
            factions.wf(),
        ensures
            r@ == FactionStoreView::of(from_faction@, districts@, persons@, factions@),
    {
        FactionStore {
            name: from_faction.name.clone(),
            description: from_faction.description.clone(),
            tier: from_faction.tier,
            hq: ref_name(districts, &from_faction.hq),
            turf: ref_names(districts, &from_faction.turf),
            leader: ref_name(persons, &from_faction.leader),
            notable: ref_names(persons, &from_faction.notable),
            assets: from_faction.assets.clone(),
            notes: from_faction.notes.clone(),
            allies: ref_names(factions, &from_faction.allies),
            enemies: ref_names(factions, &from_faction.enemies),
            general: from_faction.general.clone(),
            clocks: clone_clocks(&from_faction.clocks),
        }
    }
}

impl From<&FactionStore> for Faction {
    /// The faction that loading makes of a saved one.
    fn from(from_store: &FactionStore) -> (r: Faction)
        ensures
            r@ == from_store@.faction(),
    {
        Faction {
            name: from_store.name.clone(),
            description: from_store.description.clone(),
            tier: from_store.tier,
            hq: None,
            turf: Vec::new(),
            leader: None,
            notable: Vec::new(),
            assets: from_store.assets.clone(),
            notes: from_store.notes.clone(),
            allies: Vec::new(),
            enemies: Vec::new(),
            general: from_store.general.clone(),
            clocks: clone_clocks(&from_store.clocks),
        }
    }
}

impl FromSpecImpl<&FactionStore> for Faction {
    open spec fn obeys_from_spec() -> bool {
        false
    }

    open spec fn from_spec(from_store: &FactionStore) -> Faction {
        arbitrary()
    }
}

} // verus!

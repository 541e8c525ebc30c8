//! The arena of records and the handles it gives out.
//!
//! A [`ManagedList`] owns its records in slots that are never reused. A
//! [`GenericRef`] is a small copyable coordinate of one slot; whether it is
//! live is a fact about the arena, so every copy of a handle sees a removal at
//! once.

use crate::app_data::DataIndex;
use crate::district::District;
use crate::faction::Faction;
use crate::name_index::NameIndex;
use crate::names::{chars_opt, chars_ref_opt, increasing, str_same, strings_view};
use crate::person::Person;
use crate::sorting::Sorting;
use core::marker::PhantomData;
use vstd::prelude::*;
use vstd::std_specs::cmp::PartialEqSpecImpl;

verus! {

/// What an arena needs to know of its records: a unique name, a display name,
/// and the kind of identifier that addresses them.
pub trait Named: View + Sized {
    /// The name of a record, by which it is found and which is unique among
    /// the live records of an arena.
    spec fn name_of(v: Self::V) -> Seq<char>;

    /// The name a record is shown under.
    spec fn display_name_of(v: Self::V) -> Seq<char>;

    /// The identifier of this kind for a slot.
    spec fn data_index_of(slot: usize) -> DataIndex;

    /// The slot of an identifier of this kind, none for any other identifier.
    spec fn slot_of(index: DataIndex) -> Option<usize>;

    /// The column headings of a table of such records, as message keys.
    spec fn headings() -> Seq<Seq<char>>;

    /// The name of the record.
    fn name(&self) -> (r: &str)
        ensures
            r@ == Self::name_of(self@),
    ;

    /// The name the record is shown under.
    fn display_name(&self) -> (r: String)
        ensures
            r@ == Self::display_name_of(self@),
    ;

    /// The identifier of this kind for a slot. It bears the slot, and
    /// `fetch_data_index` gives the slot back.
    fn make_data_index(index: usize) -> (r: DataIndex)
        ensures
            r == Self::data_index_of(index),
            r.slot() == Some(index),
            Self::slot_of(r) == Some(index),
    ;

    /// The slot of an identifier of this kind, none for any other identifier.
    fn fetch_data_index(index: DataIndex) -> (r: Option<usize>)
        ensures
            r == Self::slot_of(index),
    ;

    /// The column headings of a table of such records, as message keys.
    fn display_headings() -> (r: Vec<String>)
        ensures
            r@.len() == Self::headings().len(),
            forall|i: int| 0 <= i < r@.len() ==> (#[trigger] r@[i])@ == Self::headings()[i],
    ;

    /// A clone of a record is the same record.
    proof fn lemma_clone_keeps_view(a: &Self, b: &Self) where Self: Clone
        requires
            cloned::<Self>(*a, *b),
        ensures
            a@ == b@,
    ;
}

/// A handle to one slot of the arena of `T` records.
///
/// A handle is a coordinate, not a pointer: it stays valid as a value for
/// ever, and it is live exactly while the arena holds a record in its slot.
/// Name, display name and identifier of a handle are read through the arena
/// that issued it. An arena takes a handle whose slot it does not have for a
/// dead one.
pub struct GenericRef<T> {
    slot: usize,
    typ: PhantomData<T>,
}

impl<T> Clone for GenericRef<T> {
    fn clone(&self) -> (r: Self)
        ensures
            r == *self,
    {
        GenericRef { slot: self.slot, typ: PhantomData }
    }
}

impl<T> Copy for GenericRef<T> {

}

impl<T> PartialEq for GenericRef<T> {
    /// Whether two handles address the same slot.
    fn eq(&self, other: &Self) -> (r: bool) {
        self.slot == other.slot
    }
}

impl<T> PartialEqSpecImpl for GenericRef<T> {
    open spec fn obeys_eq_spec() -> bool {
        true
    }

    open spec fn eq_spec(&self, other: &Self) -> bool {
        self.slot() == other.slot()
    }
}

impl<T> GenericRef<T> {
    /// The slot the handle addresses.
    pub closed spec fn slot(self) -> int {
        self.slot as int
    }

    /// The handle of a slot.
    pub closed spec fn at(slot: int) -> Self {
        GenericRef { slot: slot as usize, typ: PhantomData }
    }

    /// Handles are equal exactly when their slots are.
    pub broadcast proof fn lemma_slot_decides(a: Self, b: Self)
        ensures
            #![trigger a.slot(), b.slot()]
            a.slot() == b.slot() <==> a == b,
    {
    }

    /// A handle is the handle of its slot.
    pub broadcast proof fn lemma_at_own_slot(h: Self)
        ensures
            #[trigger] Self::at(h.slot()) == h,
    {
    }

    /// The handle of a slot.
    pub(crate) fn new(slot: usize) -> (r: Self)
        ensures
            r.slot() == slot,
            r == Self::at(slot as int),
    {
        GenericRef { slot, typ: PhantomData }
    }

    /// The slot the handle addresses.
    pub(crate) fn position(&self) -> (r: usize)
        ensures
            r == self.slot(),
    {
        self.slot
    }
}

/// A handle to a faction.
pub type FactionRef = GenericRef<Faction>;

/// A handle to a person.
pub type PersonRef = GenericRef<Person>;

/// A handle to a district.
pub type DistrictRef = GenericRef<District>;

/// The records of an arena as a mathematical value: one entry per slot, `None`
/// where the record was removed.
pub type Slots<V> = Seq<Option<V>>;

/// Whether slot `i` holds a record.
pub open spec fn live_at<T: Named>(s: Slots<T::V>, i: int) -> bool {
    0 <= i < s.len() && s[i] is Some
}

/// The name of the record in slot `i`.
pub open spec fn name_at<T: Named>(s: Slots<T::V>, i: int) -> Seq<char> {
    T::name_of(s[i].unwrap())
}

/// Whether a live record bears the name `n`.
pub open spec fn has_name<T: Named>(s: Slots<T::V>, n: Seq<char>) -> bool {
    exists|i: int| live_at::<T>(s, i) && #[trigger] name_at::<T>(s, i) == n
}

/// The slot of a live record that bears the name `n`.
pub open spec fn slot_named<T: Named>(s: Slots<T::V>, n: Seq<char>) -> int {
    choose|i: int| live_at::<T>(s, i) && #[trigger] name_at::<T>(s, i) == n
}

/// Whether no two live records bear one name.
pub open spec fn unique_names<T: Named>(s: Slots<T::V>) -> bool {
    forall|i: int, j: int|
        live_at::<T>(s, i) && live_at::<T>(s, j) && #[trigger] name_at::<T>(s, i)
            == #[trigger] name_at::<T>(s, j) ==> i == j
}

/// Adding a record: refused where a live record bears its name, else the
/// record takes a new slot at the end. Gives the slots after the call and the
/// new record's slot.
pub open spec fn arena_add<T: Named>(s: Slots<T::V>, v: T::V) -> (Slots<T::V>, Option<int>) {
    if has_name::<T>(s, T::name_of(v)) {
        (s, None)
    } else {
        (s.push(Some(v)), Some(s.len() as int))
    }
}

/// Removing the record of a slot: nothing happens where the slot is not live,
/// else the slot is emptied and stays. Gives the slots after the call and the
/// record taken out.
pub open spec fn arena_remove<T: Named>(s: Slots<T::V>, slot: int) -> (Slots<T::V>, Option<T::V>) {
    if live_at::<T>(s, slot) {
        (s.update(slot, None), s[slot])
    } else {
        (s, None)
    }
}

/// Whether putting `v` into `slot` would give its name to two live records.
pub open spec fn name_collides<T: Named>(s: Slots<T::V>, slot: int, v: T::V) -> bool {
    T::name_of(v) != name_at::<T>(s, slot) && has_name::<T>(s, T::name_of(v))
}

/// Replacing the record of a slot: nothing happens where the slot is not live
/// or where the new name belongs to another live record, else the slot takes
/// the new record. Gives the slots after the call and the old record.
pub open spec fn arena_replace<T: Named>(s: Slots<T::V>, slot: int, v: T::V) -> (
    Slots<T::V>,
    Option<T::V>,
) {
    if live_at::<T>(s, slot) && !name_collides::<T>(s, slot, v) {
        (s.update(slot, Some(v)), s[slot])
    } else {
        (s, None)
    }
}

/// The slot found under a name, if a live record bears it.
pub open spec fn arena_find<T: Named>(s: Slots<T::V>, n: Seq<char>) -> Option<int> {
    if has_name::<T>(s, n) {
        Some(slot_named::<T>(s, n))
    } else {
        None
    }
}

/// The record a slot holds, if it is live.
pub open spec fn arena_fetch<T: Named>(s: Slots<T::V>, slot: int) -> Option<T::V> {
    if live_at::<T>(s, slot) {
        s[slot]
    } else {
        None
    }
}

/// A command to one arena, with handles given by their slots.
pub enum Step<V> {
    /// Add a record.
    Add(V),
    /// Remove the record of a slot.
    Remove(int),
    /// Replace the record of a slot.
    Replace(int, V),
}

/// What one command does to an arena, and the command that undoes it: for a
/// record added, the removal of its slot; for a record removed, its addition;
/// for a record replaced, the replacement by the old record. A command that
/// changes nothing has no inverse.
pub open spec fn arena_step<T: Named>(s: Slots<T::V>, a: Step<T::V>) -> (
    Slots<T::V>,
    Option<Step<T::V>>,
) {
    match a {
        Step::Add(v) => {
            let (after, slot) = arena_add::<T>(s, v);
            (
                after,
                match slot {
                    Some(i) => Some(Step::Remove(i)),
                    None => None,
                },
            )
        },
        Step::Remove(i) => {
            let (after, old) = arena_remove::<T>(s, i);
            (
                after,
                match old {
                    Some(v) => Some(Step::Add(v)),
                    None => None,
                },
            )
        },
        Step::Replace(i, v) => {
            let (after, old) = arena_replace::<T>(s, i, v);
            (
                after,
                match old {
                    Some(w) => Some(Step::Replace(i, w)),
                    None => None,
                },
            )
        },
    }
}

/// A sequence of commands applied in order, each to what the one before left,
/// and the inverses of those that changed something, in the same order.
pub open spec fn arena_run<T: Named>(s: Slots<T::V>, steps: Seq<Step<T::V>>) -> (
    Slots<T::V>,
    Seq<Step<T::V>>,
)
    decreases steps.len(),
{
    if steps.len() == 0 {
        (s, Seq::empty())
    } else {
        let (before, undo) = arena_run::<T>(s, steps.drop_last());
        let (after, inverse) = arena_step::<T>(before, steps.last());
        (
            after,
            match inverse {
                Some(b) => undo.push(b),
                None => undo,
            },
        )
    }
}

/// The live records of an arena, whatever their slots.
pub open spec fn live_records<T: Named>(s: Slots<T::V>) -> Set<T::V> {
    Set::new(|v: T::V| exists|i: int| live_at::<T>(s, i) && #[trigger] s[i] == Some(v))
}

/// The slot of a handle that may be absent.
pub open spec fn slot_opt<T>(h: Option<GenericRef<T>>) -> Option<int> {
    match h {
        Some(h) => Some(h.slot()),
        None => None,
    }
}

/// The view of a record that may be absent.
pub open spec fn view_opt<T: View>(r: Option<T>) -> Option<T::V> {
    match r {
        Some(r) => Some(r@),
        None => None,
    }
}

/// The view of a borrowed record that may be absent.
pub open spec fn view_ref_opt<T: View>(r: Option<&T>) -> Option<T::V> {
    match r {
        Some(r) => Some(r@),
        None => None,
    }
}

/// What a handle caches of its record: the name, the display name and the
/// identifier, which is `Nothing` once the record is removed.
pub struct NamedIndex<T> {
    name: String,
    display_name: String,
    index: DataIndex,
    typ: PhantomData<T>,
}

impl<T> NamedIndex<T> {
    /// The cached name, whatever the state.
    pub closed spec fn raw_name(self) -> Seq<char> {
        self.name@
    }

    /// The cached display name, whatever the state.
    pub closed spec fn raw_display_name(self) -> Seq<char> {
        self.display_name@
    }

    /// The identifier.
    pub closed spec fn raw_index(self) -> DataIndex {
        self.index
    }

    /// The name, unless the record is removed.
    pub fn name(&self) -> (r: Option<&str>)
        ensures
            chars_ref_opt(r) == (if self.raw_index() is Nothing {
                None
            } else {
                Some(self.raw_name())
            }),
    {
        match self.index {
            DataIndex::Nothing => None,
            _ => Some(self.name.as_str()),
        }
    }

    /// The display name, unless the record is removed.
    pub fn display_name(&self) -> (r: Option<&str>)
        ensures
            chars_ref_opt(r) == (if self.raw_index() is Nothing {
                None
            } else {
                Some(self.raw_display_name())
            }),
    {
        match self.index {
            DataIndex::Nothing => None,
            _ => Some(self.display_name.as_str()),
        }
    }

    fn index(&self) -> (r: DataIndex)
        ensures
            r == self.raw_index(),
    {
        self.index
    }
}

/// The name a dead handle keeps.
pub open spec fn removed_name() -> Seq<char> {
    "<Removed>"@
}

/// The name a handle keeps for a slot, whatever the slot's state: the name of
/// the record while it is live, the name of the removed afterwards.
pub open spec fn raw_name_at<T: Named>(s: Slots<T::V>, slot: int) -> Seq<char> {
    if live_at::<T>(s, slot) {
        name_at::<T>(s, slot)
    } else {
        removed_name()
    }
}

/// Whether a cache entry fits the slot it belongs to.
pub open spec fn cell_fits<T: Named>(cell: NamedIndex<T>, record: Option<T::V>, slot: int) -> bool {
    match record {
        Some(v) => {
            &&& cell.raw_index() == T::data_index_of(slot as usize)
            &&& cell.raw_index().slot() == Some(slot as usize)
            &&& cell.raw_name() == T::name_of(v)
            &&& cell.raw_display_name() == T::display_name_of(v)
        },
        None => cell.raw_index() is Nothing && cell.raw_name() == removed_name(),
    }
}

/// An arena of `T` records.
///
/// Records live in slots that are only ever appended and emptied, never
/// reused, so a slot number addresses one record for ever. Beside the slots
/// the arena keeps, for every slot, what the slot's handle caches, and an
/// index from the names of the live records to their handles.
///
/// The index holds live records only: a record that is removed gives its name
/// back, so that the name can be taken by a later `add` or `replace`, and
/// `find` never gives a dead handle.
pub struct ManagedList<T: Clone + Named> {
    list: Vec<Option<T>>,
    cells: Vec<NamedIndex<T>>,
    list_index: NameIndex<T>,
    sorting: Sorting,
}

impl<T: Clone + Named> View for ManagedList<T> {
    type V = Slots<T::V>;

    closed spec fn view(&self) -> Slots<T::V> {
        Seq::new(self.list@.len(), |i: int| view_opt(self.list@[i]))
    }
}

impl<T: Clone + Named> ManagedList<T> {
    /// The invariant of an arena: the caches fit the slots, and the name
    /// index holds exactly the live records, each under its name.
    pub closed spec fn wf(&self) -> bool {
        &&& self.cells@.len() == self.list@.len()
        &&& self.list_index.wf()
        &&& forall|i: int|
            0 <= i < self.list@.len() ==> cell_fits::<T>(#[trigger] self.cells@[i], self@[i], i)
        &&& forall|n: Seq<char>| #[trigger]
            self.list_index.map().contains_key(n) ==> live_at::<T>(
                self@,
                self.list_index.map()[n].slot(),
            ) && name_at::<T>(self@, self.list_index.map()[n].slot()) == n
        &&& forall|i: int|
            live_at::<T>(self@, i) ==> self.list_index.map().contains_key(
                #[trigger] name_at::<T>(self@, i),
            ) && self.list_index.map()[name_at::<T>(self@, i)].slot() == i
    }

    /// The display-sort configuration.
    pub closed spec fn sorting(&self) -> Sorting {
        self.sorting
    }

    /// In a well-formed arena no two live records bear one name.
    pub proof fn lemma_unique_names(&self)
        requires
            self.wf(),
        ensures
            unique_names::<T>(self@),
    {
    }

    /// A name is borne exactly where the index knows it, by the slot that the
    /// index gives.
    proof fn lemma_names(&self)
        requires
            self.wf(),
        ensures
            forall|n: Seq<char>| #[trigger]
                has_name::<T>(self@, n) <==> self.list_index.map().contains_key(n),
            forall|n: Seq<char>| #[trigger]
                has_name::<T>(self@, n) ==> slot_named::<T>(self@, n)
                    == self.list_index.map()[n].slot(),
    {
        let s = self@;
        let m = self.list_index.map();
        assert forall|n: Seq<char>| #[trigger] has_name::<T>(s, n) <==> m.contains_key(n) by {
            if m.contains_key(n) {
                assert(name_at::<T>(s, m[n].slot()) == n);
            }
        }
        assert forall|n: Seq<char>| #[trigger] has_name::<T>(s, n) implies slot_named::<T>(s, n)
            == m[n].slot() by {
            let i = slot_named::<T>(s, n);
            assert(live_at::<T>(s, i) && name_at::<T>(s, i) == n);
        }
    }

    /// The number of slots, removed records included.
    pub fn len(&self) -> (r: usize)
        ensures
            r == self@.len(),
    {
        self.list.len()
    }

    /// Whether the arena has no slot at all; removed records count as slots.
    pub fn is_empty(&self) -> (r: bool)
        ensures
            r == (self@.len() == 0),
    {
        self.list.len() == 0
    }

    /// Whether the slot is live.
    fn is_live(&self, slot: usize) -> (r: bool)
        requires
            self.wf(),
        ensures
            r == live_at::<T>(self@, slot as int),
    {
        if slot < self.cells.len() {
            match self.cells[slot].index() {
                DataIndex::Nothing => false,
                _ => true,
            }
        } else {
            false
        }
    }

    /// The name that the handle keeps, dead or live.
    pub(crate) fn raw_name(&self, handle: &GenericRef<T>) -> (r: &str)
        requires
            self.wf(),
        ensures
            r@ == raw_name_at::<T>(self@, handle.slot()),
    {
        if handle.slot < self.cells.len() {
            self.cells[handle.slot].name.as_str()
        } else {
            "<Removed>"
        }
    }

    /// Adds a record and returns the handle of its new slot. Where a live
    /// record already bears the name, nothing changes and `None` is returned.
    pub fn add(&mut self, item: &T) -> (r: Option<GenericRef<T>>)
        requires
            old(self).wf(),
        ensures
            final(self).wf(),
            final(self).sorting() == old(self).sorting(),
            (final(self)@, slot_opt(r)) == arena_add::<T>(old(self)@, item@),
    {
        proof {
            self.lemma_names();
        }
        let name = item.name();
        if self.list_index.contains_key(name) {
            None
        } else {
            let slot = self.list.len();
            let copy = item.clone();
            proof {
                T::lemma_clone_keeps_view(item, &copy);
            }
            let handle = GenericRef::new(slot);
            let cell = NamedIndex {
                name: name.to_owned(),
                display_name: item.display_name(),
                index: T::make_data_index(slot),
                typ: PhantomData,
            };
            self.list.push(Some(copy));
            self.cells.push(cell);
            self.list_index.insert(name.to_owned(), handle);
            proof {
                let s0 = old(self)@;
                let s1 = self@;
                assert(s1 =~= s0.push(Some(item@)));
                assert forall|i: int| 0 <= i < self.list@.len() implies cell_fits::<T>(
                    #[trigger] self.cells@[i],
                    s1[i],
                    i,
                ) by {
                    if i < slot {
                        assert(self.cells@[i] == old(self).cells@[i]);
                        assert(s1[i] == s0[i]);
                    }
                }
                assert forall|n: Seq<char>| #[trigger]
                    self.list_index.map().contains_key(n) implies live_at::<T>(
                    s1,
                    self.list_index.map()[n].slot(),
                ) && name_at::<T>(s1, self.list_index.map()[n].slot()) == n by {
                    if n != name@ {
                        assert(old(self).list_index.map().contains_key(n));
                        let i = old(self).list_index.map()[n].slot();
                        assert(s1[i] == s0[i]);
                    }
                }
                assert forall|i: int| live_at::<T>(s1, i) implies self.list_index.map().contains_key(
                    #[trigger] name_at::<T>(s1, i),
                ) && self.list_index.map()[name_at::<T>(s1, i)].slot() == i by {
                    if i < slot {
                        assert(s1[i] == s0[i]);
                        assert(live_at::<T>(s0, i));
                        assert(name_at::<T>(s0, i) == name_at::<T>(s1, i));
                    }
                }
            }
            Some(handle)
        }
    }
}

impl<T: Clone + Named> ManagedList<T> {
    /// Removes the record that the handle addresses and returns it. The slot
    /// stays, emptied, so `len` does not change, and the name becomes free
    /// again. From then on the handle, and every copy of it, is dead. Where the
    /// handle is dead already, nothing changes and `None` is returned.
    pub fn remove(&mut self, named_index: &mut GenericRef<T>) -> (r: Option<T>)
        requires
            old(self).wf(),
        ensures
            final(self).wf(),
            final(self).sorting() == old(self).sorting(),
            *final(named_index) == *old(named_index),
            (final(self)@, view_opt(r)) == arena_remove::<T>(old(self)@, old(named_index).slot()),
    {
        let slot = named_index.position();
        if self.is_live(slot) {
            let ghost s0 = self@;
            let ghost name = name_at::<T>(s0, slot as int);
            let mut ret: Option<T> = None;
            self.list.set_and_swap(slot, &mut ret);
            self.list_index.remove(self.cells[slot].name.as_str());
            let cell = NamedIndex {
                name: "<Removed>".to_owned(),
                display_name: self.cells[slot].display_name.clone(),
                index: DataIndex::Nothing,
                typ: PhantomData,
            };
            self.cells.set(slot, cell);
            proof {
                let s1 = self@;
                assert(s1 =~= s0.update(slot as int, None));
                assert(view_opt(ret) == s0[slot as int]);
                assert forall|i: int| 0 <= i < self.list@.len() implies cell_fits::<T>(
                    #[trigger] self.cells@[i],
                    s1[i],
                    i,
                ) by {
                    if i != slot {
                        assert(self.cells@[i] == old(self).cells@[i]);
                        assert(s1[i] == s0[i]);
                    }
                }
                assert forall|n: Seq<char>| #[trigger]
                    self.list_index.map().contains_key(n) implies live_at::<T>(
                    s1,
                    self.list_index.map()[n].slot(),
                ) && name_at::<T>(s1, self.list_index.map()[n].slot()) == n by {
                    assert(old(self).list_index.map().contains_key(n));
                    let i = old(self).list_index.map()[n].slot();
                    assert(name_at::<T>(s0, i) == n);
                    assert(i != slot);
                    assert(s1[i] == s0[i]);
                }
                assert forall|i: int| live_at::<T>(s1, i) implies self.list_index.map().contains_key(
                    #[trigger] name_at::<T>(s1, i),
                ) && self.list_index.map()[name_at::<T>(s1, i)].slot() == i by {
                    assert(i != slot);
                    assert(s1[i] == s0[i]);
                    assert(live_at::<T>(s0, i));
                    assert(name_at::<T>(s0, i) == name_at::<T>(s1, i));
                    assert(live_at::<T>(s0, slot as int));
                    assert(name_at::<T>(s0, slot as int) == name);
                }
            }
            ret
        } else {
            None
        }
    }

    /// Puts `new_item` into the slot that the handle addresses and returns the
    /// record that was there. The handle stays live and keeps its slot; where
    /// the name changes, the old name becomes free and the new one is taken.
    /// Where the handle is dead, or the new name belongs to another live
    /// record, nothing at all changes and `None` is returned.
    pub fn replace(&mut self, index: &GenericRef<T>, new_item: T) -> (r: Option<T>)
        requires
            old(self).wf(),
        ensures
            final(self).wf(),
            final(self).sorting() == old(self).sorting(),
            (final(self)@, view_opt(r)) == arena_replace::<T>(old(self)@, index.slot(), new_item@),
    {
        proof {
            self.lemma_names();
        }
        let slot = index.position();
        if !self.is_live(slot) {
            return None;
        }
        let ghost s0 = self@;
        let ghost old_name = name_at::<T>(s0, slot as int);
        let ghost new_name = T::name_of(new_item@);
        let same_name = str_same(new_item.name(), self.cells[slot].name.as_str());
        if !same_name && self.list_index.contains_key(new_item.name()) {
            return None;
        }
        if !same_name {
            self.list_index.remove(self.cells[slot].name.as_str());
            self.list_index.insert(new_item.name().to_owned(), GenericRef::new(slot));
        }
        let cell = NamedIndex {
            name: new_item.name().to_owned(),
            display_name: new_item.display_name(),
            index: self.cells[slot].index(),
            typ: PhantomData,
        };
        self.cells.set(slot, cell);
        let mut ret: Option<T> = Some(new_item);
        self.list.set_and_swap(slot, &mut ret);
        proof {
            let s1 = self@;
            assert(s1 =~= s0.update(slot as int, Some(new_item@)));
            assert(view_opt(ret) == s0[slot as int]);
            assert(live_at::<T>(s0, slot as int));
            assert(name_at::<T>(s0, slot as int) == old_name);
            assert forall|i: int| 0 <= i < self.list@.len() implies cell_fits::<T>(
                #[trigger] self.cells@[i],
                s1[i],
                i,
            ) by {
                if i != slot {
                    assert(self.cells@[i] == old(self).cells@[i]);
                    assert(s1[i] == s0[i]);
                } else {
                    assert(cell_fits::<T>(old(self).cells@[i], s0[i], i));
                }
            }
            assert forall|n: Seq<char>| #[trigger]
                self.list_index.map().contains_key(n) implies live_at::<T>(
                s1,
                self.list_index.map()[n].slot(),
            ) && name_at::<T>(s1, self.list_index.map()[n].slot()) == n by {
                if n != new_name {
                    assert(old(self).list_index.map().contains_key(n));
                    let i = old(self).list_index.map()[n].slot();
                    assert(name_at::<T>(s0, i) == n);
                    assert(i != slot);
                    assert(s1[i] == s0[i]);
                }
            }
            assert forall|i: int| live_at::<T>(s1, i) implies self.list_index.map().contains_key(
                #[trigger] name_at::<T>(s1, i),
            ) && self.list_index.map()[name_at::<T>(s1, i)].slot() == i by {
                if i != slot {
                    assert(s1[i] == s0[i]);
                    assert(live_at::<T>(s0, i));
                    assert(name_at::<T>(s0, i) == name_at::<T>(s1, i));
                }
            }
        }
        ret
    }

    /// The handle of the live record that bears `name`, if there is one.
    pub fn find(&self, name: &str) -> (r: Option<GenericRef<T>>)
        requires
            self.wf(),
        ensures
            slot_opt(r) == arena_find::<T>(self@, name@),
    {
        proof {
            self.lemma_names();
        }
        self.list_index.get(name)
    }

    /// The record that the handle addresses, or `None` where the handle is dead.
    pub fn fetch(&self, index: &GenericRef<T>) -> (r: Option<&T>)
        requires
            self.wf(),
        ensures
            view_ref_opt(r) == arena_fetch::<T>(self@, index.slot()),
    {
        let slot = index.position();
        if self.is_live(slot) {
            self.list[slot].as_ref()
        } else {
            None
        }
    }

    /// The record in slot `index`, or `None` where it was removed. The slot
    /// must exist.
    pub fn fetch_with_index(&self, index: usize) -> (r: Option<&T>)
        requires
            self.wf(),
            index < self@.len(),
        ensures
            view_ref_opt(r) == self@[index as int],
    {
        self.list[index].as_ref()
    }

    /// The display-sort configuration.
    pub fn get_sorting(&self) -> (r: Sorting)
        ensures
            r == self.sorting(),
    {
        self.sorting
    }

    /// Selects the sort column: a second selection of the current column
    /// toggles the direction, another column is taken ascending. The records
    /// are not touched.
    pub fn set_sorting(&mut self, index: usize)
        requires
            old(self).wf(),
        ensures
            final(self).wf(),
            final(self)@ == old(self)@,
            (final(self).sorting().field(), final(self).sorting().reversed()) == old(
                self,
            ).sorting().clicked(index),
    {
        self.sorting.set_field(index);
        assert(self@ =~= old(self)@);
    }
}

/// The names of the records that a list of handles with records addresses.
pub open spec fn listed_names<T: Named>(items: Seq<(GenericRef<T>, &T)>) -> Seq<Seq<char>> {
    Seq::new(items.len(), |k: int| T::name_of(items[k].1@))
}

/// The slots that a list of handles with records addresses.
pub open spec fn listed_slots<T: Named>(items: Seq<(GenericRef<T>, &T)>) -> Seq<int> {
    Seq::new(items.len(), |k: int| items[k].0.slot())
}

/// Whether `slots` lists the live slots of an arena in increasing order of
/// the names of their records: every slot listed is live, the names increase,
/// and every live slot is listed.
pub open spec fn name_ordered<T: Named>(s: Slots<T::V>, slots: Seq<int>) -> bool {
    &&& forall|k: int| 0 <= k < slots.len() ==> live_at::<T>(s, #[trigger] slots[k])
    &&& increasing(Seq::new(slots.len(), |k: int| name_at::<T>(s, slots[k])))
    &&& forall|i: int|
        live_at::<T>(s, i) ==> exists|k: int| 0 <= k < slots.len() && #[trigger] slots[k] == i
}

impl<T: Clone + Named> ManagedList<T> {
    /// Every live record with its handle, in increasing order of name.
    pub fn item_ref_list(&self) -> (r: Vec<(GenericRef<T>, &T)>)
        requires
            self.wf(),
        ensures
            name_ordered::<T>(self@, listed_slots::<T>(r@)),
            increasing(listed_names::<T>(r@)),
            forall|k: int|
                0 <= k < r@.len() ==> arena_fetch::<T>(self@, (#[trigger] r@[k]).0.slot()) == Some(
                    r@[k].1@,
                ),
            forall|i: int|
                live_at::<T>(self@, i) ==> exists|k: int|
                    0 <= k < r@.len() && (#[trigger] r@[k]).0.slot() == i,
    {
        let mut out: Vec<(GenericRef<T>, &T)> = Vec::new();
        let n = self.list_index.len();
        let mut k: usize = 0;
        proof {
            self.list_index.lemma_entries();
        }
        while k < n
            invariant
                self.wf(),
                n == self.list_index.names().len(),
                n == self.list_index.handles().len(),
                0 <= k <= n,
                out@.len() == k,
                forall|j: int|
                    0 <= j < self.list_index.names().len() ==> self.list_index.map().contains_key(
                        #[trigger] self.list_index.names()[j],
                    ) && self.list_index.map()[self.list_index.names()[j]]
                        == self.list_index.handles()[j],
                forall|j: int|
                    0 <= j < k ==> (#[trigger] out@[j]).0 == self.list_index.handles()[j]
                        && T::name_of(out@[j].1@) == self.list_index.names()[j] && arena_fetch::<T>(
                        self@,
                        out@[j].0.slot(),
                    ) == Some(out@[j].1@),
            decreases n - k,
        {
            let handle = self.list_index.handle_at(k);
            proof {
                let name = self.list_index.names()[k as int];
                assert(self.list_index.map().contains_key(name));
                assert(live_at::<T>(self@, handle.slot()));
            }
            let slot = handle.position();
            match &self.list[slot] {
                Some(item) => {
                    out.push((handle, item));
                },
                None => {
                    assert(false);
                },
            }
            k = k + 1;
        }
        proof {
            assert(listed_names::<T>(out@) =~= self.list_index.names());
            let slots = listed_slots::<T>(out@);
            assert forall|i: int| live_at::<T>(self@, i) implies exists|k: int|
                0 <= k < out@.len() && (#[trigger] out@[k]).0.slot() == i by {
                let name = name_at::<T>(self@, i);
                assert(self.list_index.map().contains_key(name));
                assert(self.list_index.names().contains(name));
                let j = choose|j: int|
                    0 <= j < self.list_index.names().len() && self.list_index.names()[j] == name;
                assert(out@[j].0 == self.list_index.handles()[j]);
            }
            assert forall|i: int| live_at::<T>(self@, i) implies exists|k: int|
                0 <= k < slots.len() && #[trigger] slots[k] == i by {
                let k = choose|k: int| 0 <= k < out@.len() && (#[trigger] out@[k]).0.slot() == i;
                assert(slots[k] == i);
            }
            assert forall|k: int| 0 <= k < slots.len() implies live_at::<T>(
                self@,
                #[trigger] slots[k],
            ) by {
                assert(arena_fetch::<T>(self@, out@[k].0.slot()) == Some(out@[k].1@));
            }
            assert(Seq::new(slots.len(), |k: int| name_at::<T>(self@, slots[k]))
                =~= listed_names::<T>(out@)) by {
                assert forall|k: int| 0 <= k < slots.len() implies name_at::<T>(self@, slots[k])
                    == listed_names::<T>(out@)[k] by {
                    assert(arena_fetch::<T>(self@, out@[k].0.slot()) == Some(out@[k].1@));
                }
            }
        }
        out
    }

    /// The names of the live records, in increasing order.
    pub fn names_sorted(&self) -> (r: Vec<String>)
        requires
            self.wf(),
        ensures
            increasing(strings_view(r@)),
            forall|n: Seq<char>| #[trigger]
                has_name::<T>(self@, n) <==> strings_view(r@).contains(n),
    {
        let mut out: Vec<String> = Vec::new();
        let n = self.list_index.len();
        let mut k: usize = 0;
        while k < n
            invariant
                self.wf(),
                n == self.list_index.names().len(),
                0 <= k <= n,
                out@.len() == k,
                forall|j: int| 0 <= j < k ==> (#[trigger] out@[j])@ == self.list_index.names()[j],
            decreases n - k,
        {
            out.push(self.list_index.name_at(k).to_owned());
            k = k + 1;
        }
        proof {
            self.list_index.lemma_entries();
            self.lemma_names();
            assert(strings_view(out@) =~= self.list_index.names());
            assert forall|n: Seq<char>| #[trigger]
                has_name::<T>(self@, n) <==> strings_view(out@).contains(n) by {
                if strings_view(out@).contains(n) {
                    let j = choose|j: int|
                        0 <= j < self.list_index.names().len() && self.list_index.names()[j] == n;
                    assert(self.list_index.map().contains_key(self.list_index.names()[j]));
                }
            }
        }
        out
    }
}

impl<T: Clone + Named> GenericRef<T> {
    /// Whether the handle is live: whether `list` holds a record in its slot.
    pub fn has_index(&self, list: &ManagedList<T>) -> (r: bool)
        requires
            list.wf(),
        ensures
            r == live_at::<T>(list@, self.slot()),
    {
        list.is_live(self.slot)
    }

    /// The identifier of the record, `Nothing` where the handle is dead. It
    /// holds for the moment only: a later removal is not seen in it.
    pub fn data_index(&self, list: &ManagedList<T>) -> (r: DataIndex)
        requires
            list.wf(),
        ensures
            r == (if live_at::<T>(list@, self.slot()) {
                T::data_index_of(self.slot() as usize)
            } else {
                DataIndex::Nothing
            }),
            live_at::<T>(list@, self.slot()) ==> r.slot() == Some(self.slot() as usize),
    {
        if list.is_live(self.slot) {
            list.cells[self.slot].index()
        } else {
            DataIndex::Nothing
        }
    }

    /// The name of the record, `None` where the handle is dead.
    pub fn name(&self, list: &ManagedList<T>) -> (r: Option<String>)
        requires
            list.wf(),
        ensures
            chars_opt(r) == (if live_at::<T>(list@, self.slot()) {
                Some(name_at::<T>(list@, self.slot()))
            } else {
                None
            }),
    {
        if self.slot < list.cells.len() {
            match list.cells[self.slot].name() {
                Some(name) => Some(name.to_owned()),
                None => None,
            }
        } else {
            None
        }
    }

    /// The display name of the record, `None` where the handle is dead.
    pub fn display_name(&self, list: &ManagedList<T>) -> (r: Option<String>)
        requires
            list.wf(),
        ensures
            chars_opt(r) == (if live_at::<T>(list@, self.slot()) {
                Some(T::display_name_of(list@[self.slot()].unwrap()))
            } else {
                None
            }),
    {
        if self.slot < list.cells.len() {
            match list.cells[self.slot].display_name() {
                Some(name) => Some(name.to_owned()),
                None => None,
            }
        } else {
            None
        }
    }
}

impl<T: Clone + Named> Default for ManagedList<T> {
    /// An arena without slots, sorted by its first column.
    fn default() -> (r: Self)
        ensures
            r.wf(),
            r@.len() == 0,
            r.sorting().field() == 0,
            !r.sorting().reversed(),
    {
        ManagedList {
            list: Vec::new(),
            cells: Vec::new(),
            list_index: NameIndex::new(),
            sorting: Sorting::default(),
        }
    }
}

} // verus!

//! A list of handles with the state of the form that edits it.

use crate::district::District;
use crate::faction::Faction;
use crate::managed_list::{live_at, name_at, raw_name_at, GenericRef, ManagedList, Named};
use crate::names::{chars_opt, chars_ref_opt, clone_opt_string, str_same};
use crate::person::Person;
use crate::string_list::{first_place, lemma_first_place_unique, swap_removed};
use vstd::prelude::*;
use vstd::std_specs::cmp::PartialEqSpecImpl;

verus! {

/// A list of handles into one arena, and beside it what the form that edits
/// the list keeps between two frames: the name being chosen and the name
/// under the pointer. Two lists are equal when they hold the same handles in
/// the same order.
pub struct GenericRefList<T> {
    list: Vec<GenericRef<T>>,
    new: Option<String>,
    hovered: Option<String>,
}

/// A list of handles to factions.
pub type FactionRefList = GenericRefList<Faction>;

/// A list of handles to persons.
pub type PersonRefList = GenericRefList<Person>;

/// A list of handles to districts.
pub type DistrictRefList = GenericRefList<District>;

/// A handle list as a mathematical value.
pub struct GenericRefListView<T> {
    pub list: Seq<GenericRef<T>>,
    pub new: Option<Seq<char>>,
    pub hovered: Option<Seq<char>>,
}

/// The names that the handles of a list keep, in the list's order.
pub open spec fn raw_names<T: Named>(s: Seq<Option<T::V>>, list: Seq<GenericRef<T>>) -> Seq<
    Seq<char>,
> {
    Seq::new(list.len(), |k: int| raw_name_at::<T>(s, list[k].slot()))
}

/// Whether `item` may join `list`: it is live, and no handle of the list keeps
/// its name.
pub open spec fn may_join<T: Named>(
    s: Seq<Option<T::V>>,
    list: Seq<GenericRef<T>>,
    item: GenericRef<T>,
) -> bool {
    live_at::<T>(s, item.slot()) && !raw_names::<T>(s, list).contains(name_at::<T>(s, item.slot()))
}

/// `list` without the first handle that keeps the name `n`, the last handle
/// moved into the gap; `list` itself where no handle keeps it.
pub open spec fn without_named<T: Named>(
    s: Seq<Option<T::V>>,
    list: Seq<GenericRef<T>>,
    n: Seq<char>,
) -> Seq<GenericRef<T>> {
    if raw_names::<T>(s, list).contains(n) {
        swap_removed(list, choose|i: int| first_place(raw_names::<T>(s, list), n, i))
    } else {
        list
    }
}

impl<T> View for GenericRefList<T> {
    type V = GenericRefListView<T>;

    closed spec fn view(&self) -> GenericRefListView<T> {
        GenericRefListView {
            list: self.list@,
            new: chars_opt(self.new),
            hovered: chars_opt(self.hovered),
        }
    }
}

/// A copy of a vector of handles.
pub fn clone_refs<T>(v: &Vec<GenericRef<T>>) -> (r: Vec<GenericRef<T>>)
    ensures
        r@ == v@,
{
    let mut out: Vec<GenericRef<T>> = Vec::new();
    let mut i: usize = 0;
    while i < v.len()
        invariant
            0 <= i <= v@.len(),
            out@ == v@.take(i as int),
        decreases v@.len() - i,
    {
        out.push(v[i]);
        assert(out@ =~= v@.take(i + 1));
        i = i + 1;
    }
    assert(v@.take(v@.len() as int) =~= v@);
    out
}

/// Whether two vectors hold the same handles in the same order.
pub fn same_refs<T>(a: &Vec<GenericRef<T>>, b: &Vec<GenericRef<T>>) -> (r: bool)
    ensures
        r == (a@ == b@),
{
    if a.len() != b.len() {
        return false;
    }
    let mut i: usize = 0;
    while i < a.len()
        invariant
            a@.len() == b@.len(),
            0 <= i <= a@.len(),
            forall|j: int| 0 <= j < i ==> a@[j] == b@[j],
        decreases a@.len() - i,
    {
        if a[i].position() != b[i].position() {
            assert(a@[i as int] != b@[i as int]);
            return false;
        }
        proof {
            GenericRef::lemma_slot_decides(a@[i as int], b@[i as int]);
        }
        i = i + 1;
    }
    assert(a@ =~= b@);
    true
}

/// Whether two handles that may be absent are the same.
pub fn same_opt_ref<T>(a: &Option<GenericRef<T>>, b: &Option<GenericRef<T>>) -> (r: bool)
    ensures
        r == (*a == *b),
{
    match (a, b) {
        (Some(x), Some(y)) => {
            proof {
                GenericRef::lemma_slot_decides(*x, *y);
            }
            x.position() == y.position()
        },
        (None, None) => true,
        _ => false,
    }
}

impl<T> Clone for GenericRefList<T> {
    fn clone(&self) -> (r: Self)
        ensures
            r@ == self@,
    {
        GenericRefList {
            list: clone_refs(&self.list),
            new: clone_opt_string(&self.new),
            hovered: clone_opt_string(&self.hovered),
        }
    }
}

impl<T> Default for GenericRefList<T> {
    /// The empty list, nothing being chosen and nothing pointed at.
    fn default() -> (r: Self)
        ensures
            r@ == (GenericRefListView::<T> { list: Seq::empty(), new: None, hovered: None }),
    {
        GenericRefList { list: Vec::new(), new: None, hovered: None }
    }
}

impl<T> PartialEq for GenericRefList<T> {
    /// Whether two lists hold the same handles in the same order.
    fn eq(&self, other: &Self) -> (r: bool) {
        same_refs(&self.list, &other.list)
    }
}

impl<T> PartialEqSpecImpl for GenericRefList<T> {
    open spec fn obeys_eq_spec() -> bool {
        true
    }

    open spec fn eq_spec(&self, other: &Self) -> bool {
        self@.list == other@.list
    }
}

impl<T: Clone + Named> GenericRefList<T> {
    /// A list of the given handles, nothing being chosen and nothing pointed at.
    pub fn from_list(input_list: Vec<GenericRef<T>>) -> (r: Self)
        ensures
            r@ == (GenericRefListView { list: input_list@, new: None, hovered: None }),
    {
        GenericRefList { list: input_list, new: None, hovered: None }
    }

    /// The handles.
    pub fn list(&self) -> (r: &Vec<GenericRef<T>>)
        ensures
            r@ == self@.list,
    {
        &self.list
    }

    /// The place of the first handle that keeps the name `name`, if any.
    fn place_of(&self, name: &str, master: &ManagedList<T>) -> (r: Option<usize>)
        requires
            master.wf(),
        ensures
            match r {
                Some(i) => first_place(raw_names::<T>(master@, self@.list), name@, i as int),
                None => !raw_names::<T>(master@, self@.list).contains(name@),
            },
    {
        let mut i: usize = 0;
        while i < self.list.len()
            invariant
                master.wf(),
                0 <= i <= self.list@.len(),
                forall|j: int| 0 <= j < i ==> raw_names::<T>(master@, self.list@)[j] != name@,
            decreases self.list@.len() - i,
        {
            if str_same(master.raw_name(&self.list[i]), name) {
                assert(raw_names::<T>(master@, self.list@)[i as int] == name@);
                return Some(i);
            }
            i = i + 1;
        }
        None
    }

    /// Appends `item` where it is live in `master` and no handle of the list
    /// keeps its name; else nothing changes.
    pub fn push(&mut self, item: GenericRef<T>, master: &ManagedList<T>)
        requires
            master.wf(),
        ensures
            final(self)@ == (GenericRefListView {
                list: if may_join::<T>(master@, old(self)@.list, item) {
                    old(self)@.list.push(item)
                } else {
                    old(self)@.list
                },
                ..old(self)@
            }),
    {
        if let Some(new_name) = item.name(master) {
            if self.place_of(new_name.as_str(), master).is_none() {
                self.list.push(item);
            }
        }
    }

    /// Takes out the first handle that keeps the name `item_name`, moving the
    /// last handle into its place. Nothing changes where there is none.
    pub fn swap_remove(&mut self, item_name: &str, master: &ManagedList<T>)
        requires
            master.wf(),
        ensures
            final(self)@ == (GenericRefListView {
                list: without_named::<T>(master@, old(self)@.list, item_name@),
                ..old(self)@
            }),
    {
        if let Some(i) = self.place_of(item_name, master) {
            proof {
                let names = raw_names::<T>(master@, self@.list);
                assert(names[i as int] == item_name@);
                let c = choose|c: int| first_place(names, item_name@, c);
                lemma_first_place_unique(names, item_name@, i as int, c);
            }
            self.list.swap_remove(i);
            assert(self@.list =~= swap_removed(old(self)@.list, i as int));
        }
    }

    /// The name being chosen for a new handle, if any.
    pub fn new_name(&self) -> (r: Option<&str>)
        ensures
            chars_ref_opt(r) == self@.new,
    {
        match &self.new {
            Some(s) => Some(s.as_str()),
            None => None,
        }
    }

    /// The name under the pointer, if any.
    pub fn hovered_name(&self) -> (r: Option<&str>)
        ensures
            chars_ref_opt(r) == self@.hovered,
    {
        match &self.hovered {
            Some(s) => Some(s.as_str()),
            None => None,
        }
    }

    /// Sets the name being chosen for a new handle.
    pub fn set_new(&mut self, name: Option<&str>)
        ensures
            final(self)@ == (GenericRefListView { new: chars_ref_opt(name), ..old(self)@ }),
    {
        self.new = match name {
            Some(n) => Some(n.to_owned()),
            None => None,
        };
    }

    /// Sets the name under the pointer.
    pub fn set_hovered(&mut self, name: Option<String>)
        ensures
            final(self)@ == (GenericRefListView { hovered: chars_opt(name), ..old(self)@ }),
    {
        self.hovered = name;
    }
}

} // verus!

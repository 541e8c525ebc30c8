//! Cross-references between records, as names and as handles.
//!
//! A record points at records of another arena by handle. A saved file cannot
//! keep handles, which are slots of one session: it keeps the names of the
//! records pointed at, and loading looks the names up again.

use crate::managed_list::{arena_find, live_at, name_at, GenericRef, ManagedList, Named, Slots};
use crate::names::{chars_opt, strings_view};
use vstd::prelude::*;

verus! {

/// The names of the live handles of a list, in the list's order; dead handles
/// are left out.
pub open spec fn live_names<T: Named>(s: Slots<T::V>, refs: Seq<GenericRef<T>>) -> Seq<Seq<char>>
    decreases refs.len(),
{
    if refs.len() == 0 {
        Seq::empty()
    } else {
        let rest = live_names::<T>(s, refs.drop_last());
        if live_at::<T>(s, refs.last().slot()) {
            rest.push(name_at::<T>(s, refs.last().slot()))
        } else {
            rest
        }
    }
}

/// The name of a handle that may be absent; none where it is dead.
pub open spec fn live_name<T: Named>(s: Slots<T::V>, h: Option<GenericRef<T>>) -> Option<Seq<char>> {
    match h {
        Some(h) => if live_at::<T>(s, h.slot()) {
            Some(name_at::<T>(s, h.slot()))
        } else {
            None
        },
        None => None,
    }
}

/// The handle found under a name, if a live record bears it.
pub open spec fn found_ref<T: Named>(s: Slots<T::V>, name: Seq<char>) -> Option<GenericRef<T>> {
    match arena_find::<T>(s, name) {
        Some(slot) => Some(GenericRef::<T>::at(slot)),
        None => None,
    }
}

/// The handle found under a name that may be absent.
pub open spec fn found_opt<T: Named>(s: Slots<T::V>, name: Option<Seq<char>>) -> Option<
    GenericRef<T>,
> {
    match name {
        Some(n) => found_ref::<T>(s, n),
        None => None,
    }
}

/// The handles found under the names of a list, in the list's order; names
/// that no live record bears are left out.
pub open spec fn found_refs<T: Named>(s: Slots<T::V>, names: Seq<Seq<char>>) -> Seq<GenericRef<T>>
    decreases names.len(),
{
    if names.len() == 0 {
        Seq::empty()
    } else {
        let rest = found_refs::<T>(s, names.drop_last());
        match found_ref::<T>(s, names.last()) {
            Some(h) => rest.push(h),
            None => rest,
        }
    }
}

/// Looks a name up in an arena.
pub fn find_ref<T: Clone + Named>(master: &ManagedList<T>, name: &str) -> (r: Option<GenericRef<T>>)
    requires
        master.wf(),
    ensures
        r == found_ref::<T>(master@, name@),
{
    let r = master.find(name);
    proof {
        match r {
            Some(h) => {
                GenericRef::lemma_at_own_slot(h);
            },
            None => {},
        }
    }
    r
}

/// Looks up a name that may be absent.
pub fn find_opt<T: Clone + Named>(master: &ManagedList<T>, name: &Option<String>) -> (r: Option<
    GenericRef<T>,
>)
    requires
        master.wf(),
    ensures
        r == found_opt::<T>(master@, chars_opt(*name)),
{
    match name {
        Some(n) => find_ref(master, n.as_str()),
        None => None,
    }
}

/// Looks up every name of a list, leaving out those that are not found.
pub fn find_refs<T: Clone + Named>(master: &ManagedList<T>, names: &Vec<String>) -> (r: Vec<
    GenericRef<T>,
>)
    requires
        master.wf(),
    ensures
        r@ == found_refs::<T>(master@, strings_view(names@)),
{
    let mut out: Vec<GenericRef<T>> = Vec::new();
    let mut i: usize = 0;
    let ghost all = strings_view(names@);
    assert(all.take(0) =~= Seq::<Seq<char>>::empty());
    while i < names.len()
        invariant
            master.wf(),
            all == strings_view(names@),
            0 <= i <= names@.len(),
            out@ == found_refs::<T>(master@, all.take(i as int)),
        decreases names@.len() - i,
    {
        assert(all.take(i + 1).drop_last() =~= all.take(i as int));
        assert(all.take(i + 1).last() == names@[i as int]@);
        if let Some(h) = find_ref(master, names[i].as_str()) {
            out.push(h);
        }
        i = i + 1;
    }
    assert(all.take(names@.len() as int) =~= all);
    out
}

/// The name of a handle that may be absent; none where it is dead.
pub fn ref_name<T: Clone + Named>(master: &ManagedList<T>, h: &Option<GenericRef<T>>) -> (r: Option<
    String,
>)
    requires
        master.wf(),
    ensures
        chars_opt(r) == live_name::<T>(master@, *h),
{
    match h {
        Some(h) => h.name(master),
        None => None,
    }
}

/// The names of the live handles of a list, in the list's order.
pub fn ref_names<T: Clone + Named>(master: &ManagedList<T>, refs: &Vec<GenericRef<T>>) -> (r: Vec<
    String,
>)
    requires
        master.wf(),
    ensures
        strings_view(r@) == live_names::<T>(master@, refs@),
{
    let mut out: Vec<String> = Vec::new();
    let mut i: usize = 0;
    assert(refs@.take(0) =~= Seq::<GenericRef<T>>::empty());
    assert(strings_view(out@) =~= Seq::<Seq<char>>::empty());
    while i < refs.len()
        invariant
            master.wf(),
            0 <= i <= refs@.len(),
            strings_view(out@) == live_names::<T>(master@, refs@.take(i as int)),
        decreases refs@.len() - i,
    {
        assert(refs@.take(i + 1).drop_last() =~= refs@.take(i as int));
        assert(refs@.take(i + 1).last() == refs@[i as int]);
        let ghost before = strings_view(out@);
        if let Some(name) = refs[i].name(master) {
            out.push(name);
            assert(strings_view(out@) =~= before.push(name@));
        }
        i = i + 1;
    }
    assert(refs@.take(refs@.len() as int) =~= refs@);
    out
}

} // verus!

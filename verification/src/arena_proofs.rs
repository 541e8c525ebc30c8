//! What holds of the arena's operations, proved over the mathematical model
//! that the contracts of [`ManagedList`](crate::managed_list::ManagedList) use.

use crate::managed_list::{
    arena_add, arena_fetch, arena_find, arena_remove, arena_replace, arena_run, arena_step,
    has_name, live_at, name_at, unique_names, GenericRef, Named, Slots, Step,
};
use vstd::prelude::*;

verus! {

/// Names stay unique: where no two live records bear one name, none do after
/// an `add`, a `remove` or a `replace`.
pub proof fn law_names_stay_unique<T: Named>(s: Slots<T::V>, a: Step<T::V>)
    requires
        unique_names::<T>(s),
    ensures
        unique_names::<T>(arena_step::<T>(s, a).0),
{
    let after = arena_step::<T>(s, a).0;
    assert forall|i: int, j: int|
        live_at::<T>(after, i) && live_at::<T>(after, j) && #[trigger] name_at::<T>(after, i)
            == #[trigger] name_at::<T>(after, j) implies i == j by {
        match a {
            Step::Add(v) => {
                if after != s {
                    if i < s.len() && j < s.len() {
                        assert(name_at::<T>(s, i) == name_at::<T>(s, j));
                    } else if i < s.len() {
                        assert(name_at::<T>(s, i) == T::name_of(v));
                    } else if j < s.len() {
                        assert(name_at::<T>(s, j) == T::name_of(v));
                    }
                }
            },
            Step::Remove(k) => {
                if after != s {
                    assert(name_at::<T>(s, i) == name_at::<T>(s, j));
                }
            },
            Step::Replace(k, v) => {
                if after != s {
                    if i != k && j != k {
                        assert(name_at::<T>(s, i) == name_at::<T>(s, j));
                    } else if i != k {
                        assert(name_at::<T>(s, i) == T::name_of(v));
                        assert(name_at::<T>(s, k) == name_at::<T>(s, k));
                    } else if j != k {
                        assert(name_at::<T>(s, j) == T::name_of(v));
                        assert(name_at::<T>(s, k) == name_at::<T>(s, k));
                    }
                }
            },
        }
    }
}

/// Uniqueness: after a record was added, a second `add` of a record of the
/// same name fails and leaves the arena as it is, so that its length and what
/// `find` gives for any name are unchanged.
pub proof fn law_second_add_fails<T: Named>(s: Slots<T::V>, v: T::V, w: T::V)
    requires
        arena_add::<T>(s, v).1 is Some,
        T::name_of(w) == T::name_of(v),
    ensures
        arena_add::<T>(arena_add::<T>(s, v).0, w) == (arena_add::<T>(s, v).0, None::<int>),
        arena_add::<T>(s, v).0.len() == s.len() + 1,
        arena_find::<T>(arena_add::<T>(s, v).0, T::name_of(v)) is Some,
{
    let after = arena_add::<T>(s, v).0;
    assert(live_at::<T>(after, s.len() as int));
    assert(name_at::<T>(after, s.len() as int) == T::name_of(v));
}

/// Dead-handle idempotence: a `remove` of a live handle returns its record and
/// leaves the handle dead; a second `remove` of it returns nothing and changes
/// nothing, and `fetch` finds nothing. The number of slots never changes.
pub proof fn law_second_remove_fails<T: Named>(s: Slots<T::V>, slot: int)
    ensures
        live_at::<T>(s, slot) ==> arena_remove::<T>(s, slot).1 == s[slot],
        arena_remove::<T>(s, slot).0.len() == s.len(),
        !live_at::<T>(arena_remove::<T>(s, slot).0, slot),
        arena_fetch::<T>(arena_remove::<T>(s, slot).0, slot) is None,
        arena_remove::<T>(arena_remove::<T>(s, slot).0, slot) == (
            arena_remove::<T>(s, slot).0,
            None::<T::V>,
        ),
{
}

/// Aliasing propagation: once a handle is removed, every copy of it is dead
/// and fetches nothing, without anything being done to the copy.
pub proof fn law_copies_die_together<T: Named>(s: Slots<T::V>, h: GenericRef<T>, copy: GenericRef<T>)
    requires
        copy == h,
    ensures
        !live_at::<T>(arena_remove::<T>(s, h.slot()).0, copy.slot()),
        arena_fetch::<T>(arena_remove::<T>(s, h.slot()).0, copy.slot()) is None,
{
}

/// Other handles are not touched by a removal: a slot other than the removed
/// one holds what it held.
pub proof fn law_remove_spares_others<T: Named>(s: Slots<T::V>, slot: int, other: int)
    requires
        other != slot,
    ensures
        arena_fetch::<T>(arena_remove::<T>(s, slot).0, other) == arena_fetch::<T>(s, other),
{
}

/// Replace preserves identity: replacing the record of a live handle by one
/// of the same name succeeds, returns the old record, leaves the handle live
/// in the same slot with the new record in it, and touches no other slot.
pub proof fn law_replace_keeps_identity<T: Named>(s: Slots<T::V>, slot: int, v: T::V)
    requires
        live_at::<T>(s, slot),
        T::name_of(v) == name_at::<T>(s, slot),
    ensures
        arena_replace::<T>(s, slot, v).1 == s[slot],
        arena_replace::<T>(s, slot, v).0.len() == s.len(),
        live_at::<T>(arena_replace::<T>(s, slot, v).0, slot),
        arena_fetch::<T>(arena_replace::<T>(s, slot, v).0, slot) == Some(v),
        forall|other: int|
            other != slot ==> #[trigger] arena_fetch::<T>(arena_replace::<T>(s, slot, v).0, other)
                == arena_fetch::<T>(s, other),
{
}

/// A replacement that renames succeeds as well where the new name is free,
/// and then the record is found under the new name and no longer under the
/// old one.
pub proof fn law_replace_renames<T: Named>(s: Slots<T::V>, slot: int, v: T::V)
    requires
        unique_names::<T>(s),
        live_at::<T>(s, slot),
        !has_name::<T>(s, T::name_of(v)),
    ensures
        arena_replace::<T>(s, slot, v) == (s.update(slot, Some(v)), s[slot]),
        arena_find::<T>(arena_replace::<T>(s, slot, v).0, T::name_of(v)) == Some(slot),
        arena_find::<T>(arena_replace::<T>(s, slot, v).0, name_at::<T>(s, slot)) is None,
{
    let after = s.update(slot, Some(v));
    let new_name = T::name_of(v);
    let old_name = name_at::<T>(s, slot);
    assert(name_at::<T>(s, slot) == old_name);
    assert(live_at::<T>(after, slot) && name_at::<T>(after, slot) == new_name);
    law_names_stay_unique::<T>(s, Step::Replace(slot, v));
    assert(arena_step::<T>(s, Step::Replace(slot, v)).0 == after);
    if has_name::<T>(after, old_name) {
        let i = choose|i: int| live_at::<T>(after, i) && #[trigger] name_at::<T>(after, i) == old_name;
        assert(i != slot);
        assert(name_at::<T>(s, i) == old_name);
    }
}

/// Replace collision is atomic: a replacement whose new name belongs to
/// another live record returns nothing and leaves every record, the target
/// and the one it collides with, as it was.
pub proof fn law_replace_collision_changes_nothing<T: Named>(s: Slots<T::V>, slot: int, v: T::V)
    requires
        live_at::<T>(s, slot),
        T::name_of(v) != name_at::<T>(s, slot),
        has_name::<T>(s, T::name_of(v)),
    ensures
        arena_replace::<T>(s, slot, v) == (s, None::<T::V>),
{
}

/// Slots are never reused or given up: no command shortens the arena, a slot
/// that is empty stays empty, and a slot that a command does not address
/// keeps its record.
pub proof fn law_slots_are_for_ever<T: Named>(s: Slots<T::V>, a: Step<T::V>, slot: int)
    requires
        0 <= slot < s.len(),
    ensures
        s.len() <= arena_step::<T>(s, a).0.len(),
        s[slot] is None ==> arena_step::<T>(s, a).0[slot] is None,
        a is Add ==> arena_step::<T>(s, a).0[slot] == s[slot],
        a is Remove && a->Remove_0 != slot ==> arena_step::<T>(s, a).0[slot] == s[slot],
        a is Replace && a->Replace_0 != slot ==> arena_step::<T>(s, a).0[slot] == s[slot],
{
}

/// A dead handle is dead for good: whatever commands follow, the arena does
/// not get shorter and a slot that is empty stays empty.
pub proof fn law_dead_stays_dead<T: Named>(s: Slots<T::V>, steps: Seq<Step<T::V>>, slot: int)
    requires
        0 <= slot < s.len(),
        s[slot] is None,
    ensures
        s.len() <= arena_run::<T>(s, steps).0.len(),
        arena_run::<T>(s, steps).0[slot] is None,
    decreases steps.len(),
{
    if steps.len() > 0 {
        law_dead_stays_dead::<T>(s, steps.drop_last(), slot);
        law_slots_are_for_ever::<T>(arena_run::<T>(s, steps.drop_last()).0, steps.last(), slot);
    }
}

} // verus!

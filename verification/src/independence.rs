//! Sequences of commands that do not get in each other's way, and what
//! replaying their inverse restores.
//!
//! A command that takes effect touches one slot, and it gives or takes one or
//! two names. A sequence is independent where no command that takes effect
//! touches a slot or a name that an earlier command of the sequence touched.
//! The commands of such a sequence could be carried out in any order, and so
//! could their inverses: replaying the inverse in the order it was recorded in
//! restores the live records.

use crate::arena_proofs::law_names_stay_unique;
use crate::managed_list::{
    arena_run, arena_step, has_name, live_at, live_records, name_at, unique_names, Named, Slots,
    Step,
};
use vstd::prelude::*;

verus! {

/// The slot that a command addresses in an arena of `len` slots: for an
/// addition, the slot that the record would take.
pub open spec fn step_slot<V>(len: int, a: Step<V>) -> int {
    match a {
        Step::Add(_) => len,
        Step::Remove(i) => i,
        Step::Replace(i, _) => i,
    }
}

/// Whether `n` is a name that a command gives or takes: the name of the record
/// added, removed or replaced, and the name of the record put in its place.
pub open spec fn step_names<T: Named>(s: Slots<T::V>, a: Step<T::V>, n: Seq<char>) -> bool {
    match a {
        Step::Add(v) => n == T::name_of(v),
        Step::Remove(i) => n == name_at::<T>(s, i),
        Step::Replace(i, v) => n == name_at::<T>(s, i) || n == T::name_of(v),
    }
}

/// Whether a command of the sequence that took effect touched slot `i`.
pub open spec fn touches_slot<T: Named>(s: Slots<T::V>, steps: Seq<Step<T::V>>, i: int) -> bool
    decreases steps.len(),
{
    if steps.len() == 0 {
        false
    } else {
        let before = arena_run::<T>(s, steps.drop_last()).0;
        touches_slot::<T>(s, steps.drop_last(), i) || (arena_step::<T>(before, steps.last()).1
            is Some && step_slot(before.len() as int, steps.last()) == i)
    }
}

/// Whether a command of the sequence that took effect gave or took the name `n`.
pub open spec fn touches_name<T: Named>(s: Slots<T::V>, steps: Seq<Step<T::V>>, n: Seq<char>) -> bool
    decreases steps.len(),
{
    if steps.len() == 0 {
        false
    } else {
        let before = arena_run::<T>(s, steps.drop_last()).0;
        touches_name::<T>(s, steps.drop_last(), n) || (arena_step::<T>(before, steps.last()).1
            is Some && step_names::<T>(before, steps.last(), n))
    }
}

/// Whether the commands of a sequence do not get in each other's way: every
/// command that takes effect touches a slot and names that no earlier command
/// of the sequence that took effect has touched.
pub open spec fn independent<T: Named>(s: Slots<T::V>, steps: Seq<Step<T::V>>) -> bool
    decreases steps.len(),
{
    if steps.len() == 0 {
        true
    } else {
        let before = arena_run::<T>(s, steps.drop_last()).0;
        &&& independent::<T>(s, steps.drop_last())
        &&& arena_step::<T>(before, steps.last()).1 is Some ==> {
            &&& !touches_slot::<T>(s, steps.drop_last(), step_slot(before.len() as int, steps.last()))
            &&& forall|n: Seq<char>| #[trigger]
                step_names::<T>(before, steps.last(), n) ==> !touches_name::<T>(
                    s,
                    steps.drop_last(),
                    n,
                )
        }
    }
}

/// Whether an inverse command addresses slot `i`.
pub open spec fn refers_slot<V>(b: Step<V>, i: int) -> bool {
    match b {
        Step::Add(_) => false,
        Step::Remove(j) => j == i,
        Step::Replace(j, _) => j == i,
    }
}

/// Whether an inverse command brings the name `n` back.
pub open spec fn refers_name<T: Named>(b: Step<T::V>, n: Seq<char>) -> bool {
    match b {
        Step::Add(v) => n == T::name_of(v),
        Step::Remove(_) => false,
        Step::Replace(_, v) => n == T::name_of(v),
    }
}

/// A sequence of commands never shortens the arena, and every slot it touches
/// exists afterwards.
pub proof fn lemma_touched_slots_exist<T: Named>(s: Slots<T::V>, steps: Seq<Step<T::V>>)
    ensures
        s.len() <= arena_run::<T>(s, steps).0.len(),
        forall|i: int| #[trigger]
            touches_slot::<T>(s, steps, i) ==> 0 <= i < arena_run::<T>(s, steps).0.len(),
    decreases steps.len(),
{
    if steps.len() > 0 {
        lemma_touched_slots_exist::<T>(s, steps.drop_last());
        let before = arena_run::<T>(s, steps.drop_last()).0;
        let after = arena_run::<T>(s, steps).0;
        assert(after == arena_step::<T>(before, steps.last()).0);
        assert(before.len() <= after.len());
        assert forall|i: int| #[trigger] touches_slot::<T>(s, steps, i) implies 0 <= i
            < after.len() by {
            if !touches_slot::<T>(s, steps.drop_last(), i) {
                assert(arena_step::<T>(before, steps.last()).1 is Some);
                assert(step_slot(before.len() as int, steps.last()) == i);
            }
        }
    }
}

/// The inverse of a sequence addresses touched slots only and brings back
/// touched names only.
proof fn lemma_inverse_stays_within<T: Named>(s: Slots<T::V>, steps: Seq<Step<T::V>>)
    ensures
        forall|k: int, i: int|
            0 <= k < arena_run::<T>(s, steps).1.len() && #[trigger] refers_slot(
                arena_run::<T>(s, steps).1[k],
                i,
            ) ==> touches_slot::<T>(s, steps, i),
        forall|k: int, n: Seq<char>|
            0 <= k < arena_run::<T>(s, steps).1.len() && #[trigger] refers_name::<T>(
                arena_run::<T>(s, steps).1[k],
                n,
            ) ==> touches_name::<T>(s, steps, n),
    decreases steps.len(),
{
    if steps.len() > 0 {
        lemma_inverse_stays_within::<T>(s, steps.drop_last());
        let (before, undo1) = arena_run::<T>(s, steps.drop_last());
        let undo = arena_run::<T>(s, steps).1;
        let inverse = arena_step::<T>(before, steps.last()).1;
        assert forall|k: int, i: int| 0 <= k < undo.len() && #[trigger] refers_slot(
            undo[k],
            i,
        ) implies touches_slot::<T>(s, steps, i) by {
            if k < undo1.len() {
                assert(undo[k] == undo1[k]);
            }
        }
        assert forall|k: int, n: Seq<char>| 0 <= k < undo.len() && #[trigger] refers_name::<T>(
            undo[k],
            n,
        ) implies touches_name::<T>(s, steps, n) by {
            if k < undo1.len() {
                assert(undo[k] == undo1[k]);
            }
        }
    }
}

/// A name is borne after a record was put between the slots exactly where it
/// was borne before or is the name of that record.
proof fn lemma_names_after_insert<T: Named>(w: Slots<T::V>, m: int, x: T::V, n: Seq<char>)
    requires
        0 <= m <= w.len(),
    ensures
        has_name::<T>(w.insert(m, Some(x)), n) <==> (has_name::<T>(w, n) || n == T::name_of(x)),
{
    let after = w.insert(m, Some(x));
    if has_name::<T>(after, n) {
        let j = choose|j: int| live_at::<T>(after, j) && #[trigger] name_at::<T>(after, j) == n;
        if j < m {
            assert(name_at::<T>(w, j) == n);
        } else if j > m {
            assert(name_at::<T>(w, j - 1) == n);
        }
    }
    if has_name::<T>(w, n) {
        let j = choose|j: int| live_at::<T>(w, j) && #[trigger] name_at::<T>(w, j) == n;
        let k = if j < m { j } else { j + 1 };
        assert(name_at::<T>(after, k) == n);
    }
    if n == T::name_of(x) {
        assert(name_at::<T>(after, m) == n);
    }
}

/// A name that neither the old nor the new content of a slot bears is borne
/// after the slot was changed exactly where it was borne before.
proof fn lemma_names_after_update<T: Named>(w: Slots<T::V>, i: int, y: Option<T::V>, n: Seq<char>)
    requires
        0 <= i < w.len(),
        w[i] is Some ==> n != name_at::<T>(w, i),
        y is Some ==> n != T::name_of(y.unwrap()),
    ensures
        has_name::<T>(w.update(i, y), n) <==> has_name::<T>(w, n),
{
    let after = w.update(i, y);
    if has_name::<T>(after, n) {
        let j = choose|j: int| live_at::<T>(after, j) && #[trigger] name_at::<T>(after, j) == n;
        assert(j != i);
        assert(name_at::<T>(w, j) == n);
    }
    if has_name::<T>(w, n) {
        let j = choose|j: int| live_at::<T>(w, j) && #[trigger] name_at::<T>(w, j) == n;
        assert(j != i);
        assert(name_at::<T>(after, j) == n);
    }
}

/// One inverse command does not see a record that was put behind the slots it
/// addresses, where it does not bring that record's name back.
proof fn lemma_step_passes_insert<T: Named>(w: Slots<T::V>, m: int, x: T::V, c: Step<T::V>)
    requires
        0 <= m <= w.len(),
        forall|i: int| #[trigger] refers_slot(c, i) ==> 0 <= i < m,
        !refers_name::<T>(c, T::name_of(x)),
    ensures
        arena_step::<T>(w.insert(m, Some(x)), c).0 == arena_step::<T>(w, c).0.insert(m, Some(x)),
        w.len() <= arena_step::<T>(w, c).0.len(),
{
    let after = w.insert(m, Some(x));
    match c {
        Step::Add(v) => {
            lemma_names_after_insert::<T>(w, m, x, T::name_of(v));
            assert(arena_step::<T>(after, c).0 =~= arena_step::<T>(w, c).0.insert(m, Some(x)));
        },
        Step::Remove(i) => {
            assert(refers_slot(c, i));
            assert(after[i] == w[i]);
            assert(arena_step::<T>(after, c).0 =~= arena_step::<T>(w, c).0.insert(m, Some(x)));
        },
        Step::Replace(i, v) => {
            assert(refers_slot(c, i));
            assert(after[i] == w[i]);
            lemma_names_after_insert::<T>(w, m, x, T::name_of(v));
            assert(arena_step::<T>(after, c).0 =~= arena_step::<T>(w, c).0.insert(m, Some(x)));
        },
    }
}

/// One inverse command does not see a change to a slot that it does not
/// address, where it brings back neither the old nor the new name of the slot.
proof fn lemma_step_passes_update<T: Named>(w: Slots<T::V>, i: int, y: Option<T::V>, c: Step<T::V>)
    requires
        0 <= i < w.len(),
        !refers_slot(c, i),
        w[i] is Some ==> !refers_name::<T>(c, name_at::<T>(w, i)),
        y is Some ==> !refers_name::<T>(c, T::name_of(y.unwrap())),
    ensures
        arena_step::<T>(w.update(i, y), c).0 == arena_step::<T>(w, c).0.update(i, y),
        arena_step::<T>(w, c).0[i] == w[i],
        w.len() <= arena_step::<T>(w, c).0.len(),
{
    let after = w.update(i, y);
    match c {
        Step::Add(v) => {
            lemma_names_after_update::<T>(w, i, y, T::name_of(v));
            assert(arena_step::<T>(after, c).0 =~= arena_step::<T>(w, c).0.update(i, y));
        },
        Step::Remove(j) => {
            assert(arena_step::<T>(after, c).0 =~= arena_step::<T>(w, c).0.update(i, y));
        },
        Step::Replace(j, v) => {
            lemma_names_after_update::<T>(w, i, y, T::name_of(v));
            assert(arena_step::<T>(after, c).0 =~= arena_step::<T>(w, c).0.update(i, y));
        },
    }
}

/// Inverse commands do not see a record that was put behind the slots they
/// address, where none of them brings that record's name back.
proof fn lemma_run_passes_insert<T: Named>(u: Slots<T::V>, x: T::V, undo: Seq<Step<T::V>>)
    requires
        forall|k: int, i: int|
            0 <= k < undo.len() && #[trigger] refers_slot(undo[k], i) ==> 0 <= i < u.len(),
        forall|k: int| 0 <= k < undo.len() ==> !refers_name::<T>(#[trigger] undo[k], T::name_of(x)),
    ensures
        u.len() <= arena_run::<T>(u, undo).0.len(),
        arena_run::<T>(u.push(Some(x)), undo).0 == arena_run::<T>(u, undo).0.insert(
            u.len() as int,
            Some(x),
        ),
    decreases undo.len(),
{
    let m = u.len() as int;
    if undo.len() == 0 {
        assert(u.push(Some(x)) =~= u.insert(m, Some(x)));
    } else {
        let rest = undo.drop_last();
        assert forall|k: int, i: int| 0 <= k < rest.len() && #[trigger] refers_slot(
            rest[k],
            i,
        ) implies 0 <= i < u.len() by {
            assert(rest[k] == undo[k]);
        }
        assert forall|k: int| 0 <= k < rest.len() implies !refers_name::<T>(
            #[trigger] rest[k],
            T::name_of(x),
        ) by {
            assert(rest[k] == undo[k]);
        }
        lemma_run_passes_insert::<T>(u, x, rest);
        let w = arena_run::<T>(u, rest).0;
        let c = undo.last();
        assert(c == undo[undo.len() - 1]);
        assert forall|i: int| #[trigger] refers_slot(c, i) implies 0 <= i < m by {
            assert(refers_slot(undo[undo.len() - 1], i));
        }
        lemma_step_passes_insert::<T>(w, m, x, c);
    }
}

/// Inverse commands do not see a change to a slot that none of them addresses,
/// where none of them brings back the old or the new name of the slot.
proof fn lemma_run_passes_update<T: Named>(
    u: Slots<T::V>,
    i: int,
    y: Option<T::V>,
    undo: Seq<Step<T::V>>,
)
    requires
        0 <= i < u.len(),
        forall|k: int| 0 <= k < undo.len() ==> !refers_slot(#[trigger] undo[k], i),
        forall|k: int|
            0 <= k < undo.len() && u[i] is Some ==> !refers_name::<T>(
                #[trigger] undo[k],
                name_at::<T>(u, i),
            ),
        forall|k: int|
            0 <= k < undo.len() && y is Some ==> !refers_name::<T>(
                #[trigger] undo[k],
                T::name_of(y.unwrap()),
            ),
    ensures
        u.len() <= arena_run::<T>(u, undo).0.len(),
        arena_run::<T>(u, undo).0[i] == u[i],
        arena_run::<T>(u.update(i, y), undo).0 == arena_run::<T>(u, undo).0.update(i, y),
    decreases undo.len(),
{
    if undo.len() > 0 {
        let rest = undo.drop_last();
        assert forall|k: int| 0 <= k < rest.len() implies !refers_slot(#[trigger] rest[k], i) by {
            assert(rest[k] == undo[k]);
        }
        assert forall|k: int| 0 <= k < rest.len() && u[i] is Some implies !refers_name::<T>(
            #[trigger] rest[k],
            name_at::<T>(u, i),
        ) by {
            assert(rest[k] == undo[k]);
        }
        assert forall|k: int| 0 <= k < rest.len() && y is Some implies !refers_name::<T>(
            #[trigger] rest[k],
            T::name_of(y.unwrap()),
        ) by {
            assert(rest[k] == undo[k]);
        }
        lemma_run_passes_update::<T>(u, i, y, rest);
        let w = arena_run::<T>(u, rest).0;
        let c = undo.last();
        assert(c == undo[undo.len() - 1]);
        lemma_step_passes_update::<T>(w, i, y, c);
    }
}

/// An empty slot between the others adds nothing to the live records.
proof fn lemma_empty_slot_between<T: Named>(r: Slots<T::V>, m: int)
    requires
        0 <= m <= r.len(),
    ensures
        live_records::<T>(r.insert(m, None)) == live_records::<T>(r),
{
    let t = r.insert(m, None);
    assert forall|w: T::V| live_records::<T>(t).contains(w) <==> live_records::<T>(r).contains(
        w,
    ) by {
        if live_records::<T>(t).contains(w) {
            let j = choose|j: int| live_at::<T>(t, j) && #[trigger] t[j] == Some(w);
            let k = if j < m { j } else { j - 1 };
            assert(r[k] == Some(w));
        }
        if live_records::<T>(r).contains(w) {
            let j = choose|j: int| live_at::<T>(r, j) && #[trigger] r[j] == Some(w);
            let k = if j < m { j } else { j + 1 };
            assert(t[k] == Some(w));
        }
    }
    assert(live_records::<T>(t) =~= live_records::<T>(r));
}

/// A record that moves from its slot to a new slot at the end is still the
/// same live record.
proof fn lemma_record_moved<T: Named>(r: Slots<T::V>, i: int)
    requires
        live_at::<T>(r, i),
    ensures
        live_records::<T>(r.update(i, None).push(r[i])) == live_records::<T>(r),
{
    let t = r.update(i, None).push(r[i]);
    assert forall|w: T::V| live_records::<T>(t).contains(w) <==> live_records::<T>(r).contains(
        w,
    ) by {
        if live_records::<T>(t).contains(w) {
            let j = choose|j: int| live_at::<T>(t, j) && #[trigger] t[j] == Some(w);
            if j < r.len() {
                assert(r[j] == Some(w));
            } else {
                assert(r[i] == Some(w));
            }
        }
        if live_records::<T>(r).contains(w) {
            let j = choose|j: int| live_at::<T>(r, j) && #[trigger] r[j] == Some(w);
            if j == i {
                assert(t[r.len() as int] == Some(w));
            } else {
                assert(t[j] == Some(w));
            }
        }
    }
    assert(live_records::<T>(t) =~= live_records::<T>(r));
}

/// Names stay unique through a sequence of commands.
pub proof fn lemma_run_keeps_names_unique<T: Named>(s: Slots<T::V>, steps: Seq<Step<T::V>>)
    requires
        unique_names::<T>(s),
    ensures
        unique_names::<T>(arena_run::<T>(s, steps).0),
    decreases steps.len(),
{
    if steps.len() > 0 {
        lemma_run_keeps_names_unique::<T>(s, steps.drop_last());
        law_names_stay_unique::<T>(arena_run::<T>(s, steps.drop_last()).0, steps.last());
    }
}

/// Undo of independent commands. Where no two live records bear one name and
/// the commands of a sequence do not get in each other's way, replaying the
/// inverse that the sequence leaves, in the order it was recorded in, restores
/// the live records: tombstones may differ, the live records do not.
pub proof fn law_independent_run_undone<T: Named>(s: Slots<T::V>, steps: Seq<Step<T::V>>)
    requires
        unique_names::<T>(s),
        independent::<T>(s, steps),
    ensures
        live_records::<T>(
            arena_run::<T>(arena_run::<T>(s, steps).0, arena_run::<T>(s, steps).1).0,
        ) == live_records::<T>(s),
    decreases steps.len(),
{
    if steps.len() > 0 {
        let (before, undo1) = arena_run::<T>(s, steps.drop_last());
        let a = steps.last();
        let (after, inverse) = arena_step::<T>(before, a);
        let undo = arena_run::<T>(s, steps).1;
        law_independent_run_undone::<T>(s, steps.drop_last());
        let r1 = arena_run::<T>(before, undo1).0;
        match inverse {
            None => {
                assert(after == before);
            },
            Some(b) => {
                assert(undo == undo1.push(b));
                assert(undo.drop_last() =~= undo1);
                assert(undo.last() == b);
                lemma_inverse_stays_within::<T>(s, steps.drop_last());
                lemma_touched_slots_exist::<T>(s, steps.drop_last());
                lemma_run_keeps_names_unique::<T>(s, steps.drop_last());
                lemma_run_keeps_names_unique::<T>(before, undo1);
                let slot = step_slot(before.len() as int, a);
                assert forall|k: int| 0 <= k < undo1.len() implies !refers_slot(
                    #[trigger] undo1[k],
                    slot,
                ) by {
                    if refers_slot(undo1[k], slot) {
                        assert(touches_slot::<T>(s, steps.drop_last(), slot));
                    }
                }
                assert forall|k: int, n: Seq<char>|
                    0 <= k < undo1.len() && step_names::<T>(before, a, n) implies !(
                    #[trigger] refers_name::<T>(undo1[k], n)) by {
                    if refers_name::<T>(undo1[k], n) {
                        assert(touches_name::<T>(s, steps.drop_last(), n));
                    }
                }
                match a {
                    Step::Add(v) => {
                        assert(after == before.push(Some(v)));
                        assert(b == Step::<T::V>::Remove(before.len() as int));
                        assert(step_names::<T>(before, a, T::name_of(v)));
                        assert forall|k: int, i: int|
                            0 <= k < undo1.len() && #[trigger] refers_slot(
                                undo1[k],
                                i,
                            ) implies 0 <= i < before.len() by {
                            assert(touches_slot::<T>(s, steps.drop_last(), i));
                        }
                        lemma_run_passes_insert::<T>(before, v, undo1);
                        let m = before.len() as int;
                        let mid = r1.insert(m, Some(v));
                        assert(arena_run::<T>(after, undo1).0 == mid);
                        assert(live_at::<T>(mid, m));
                        assert(arena_step::<T>(mid, b).0 =~= r1.insert(m, None));
                        lemma_empty_slot_between::<T>(r1, m);
                    },
                    Step::Remove(i) => {
                        let w = before[i].unwrap();
                        assert(after == before.update(i, None));
                        assert(b == Step::<T::V>::Add(w));
                        assert(step_names::<T>(before, a, name_at::<T>(before, i)));
                        lemma_run_passes_update::<T>(before, i, None, undo1);
                        let mid = r1.update(i, None);
                        assert(arena_run::<T>(after, undo1).0 == mid);
                        assert(r1[i] == Some(w));
                        if has_name::<T>(mid, T::name_of(w)) {
                            let j = choose|j: int|
                                live_at::<T>(mid, j) && #[trigger] name_at::<T>(mid, j)
                                    == T::name_of(w);
                            assert(name_at::<T>(r1, j) == name_at::<T>(r1, i));
                        }
                        assert(arena_step::<T>(mid, b).0 == mid.push(Some(w)));
                        lemma_record_moved::<T>(r1, i);
                    },
                    Step::Replace(i, v) => {
                        let w = before[i].unwrap();
                        assert(after == before.update(i, Some(v)));
                        assert(b == Step::<T::V>::Replace(i, w));
                        assert(step_names::<T>(before, a, name_at::<T>(before, i)));
                        assert(step_names::<T>(before, a, T::name_of(v)));
                        lemma_run_passes_update::<T>(before, i, Some(v), undo1);
                        let mid = r1.update(i, Some(v));
                        assert(arena_run::<T>(after, undo1).0 == mid);
                        assert(r1[i] == Some(w));
                        if T::name_of(w) != T::name_of(v) && has_name::<T>(mid, T::name_of(w)) {
                            let j = choose|j: int|
                                live_at::<T>(mid, j) && #[trigger] name_at::<T>(mid, j)
                                    == T::name_of(w);
                            assert(j != i);
                            assert(name_at::<T>(r1, j) == name_at::<T>(r1, i));
                        }
                        assert(arena_step::<T>(mid, b).0 =~= r1);
                    },
                }
            },
        }
    }
}

} // verus!

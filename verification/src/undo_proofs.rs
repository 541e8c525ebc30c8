//! What replaying the inverse commands restores, proved over the model of one
//! arena and carried over to the three arenas of the application's data.
//!
//! The inverse of a command addresses records by handle and finds names taken
//! or free as the commands after it left them. A record that is removed and
//! added again comes back in a new slot, so a command recorded for its old
//! handle no longer reaches it; a name that one command frees and a later one
//! takes is not free when the first is undone. The round trip is therefore
//! proved for the sequences whose commands do not get in each other's way.
//! Two kinds of sequence are of that sort whatever their commands are, which
//! shows in the inverse alone: those whose inverse is a single command, and
//! those whose inverse holds nothing but removals.

use crate::action::ActionView;
use crate::app_data::{apply_action, apply_node, StoreView};
use crate::district::{District, DistrictView};
use crate::faction::{Faction, FactionView};
use crate::independence::{
    independent, law_independent_run_undone, lemma_run_keeps_names_unique,
    lemma_touched_slots_exist, step_names, step_slot, touches_name, touches_slot,
};
use crate::managed_list::{
    arena_run, arena_step, has_name, live_at, live_records, name_at, unique_names, Named, Slots,
    Step,
};
use crate::person::{Person, PersonView};
use vstd::prelude::*;

verus! {

/// Whether every command of a sequence is a removal.
pub open spec fn all_removes<V>(steps: Seq<Step<V>>) -> bool {
    forall|k: int| 0 <= k < steps.len() ==> #[trigger] steps[k] is Remove
}

/// Whether an inverse shows by itself that the commands it undoes did not get
/// in each other's way: it holds at most one command, or removals only.
pub open spec fn replayable<V>(undo: Seq<Step<V>>) -> bool {
    undo.len() <= 1 || all_removes(undo)
}

/// A command without an inverse changed nothing.
pub proof fn lemma_no_inverse_no_change<T: Named>(s: Slots<T::V>, a: Step<T::V>)
    requires
        arena_step::<T>(s, a).1 is None,
    ensures
        arena_step::<T>(s, a).0 == s,
{
}

/// Undo of one command: the inverse of a command, applied to what the command
/// left, takes effect and restores the live records.
pub proof fn law_step_undone<T: Named>(s: Slots<T::V>, a: Step<T::V>)
    requires
        unique_names::<T>(s),
        arena_step::<T>(s, a).1 is Some,
    ensures
        arena_step::<T>(arena_step::<T>(s, a).0, arena_step::<T>(s, a).1.unwrap()).1 is Some,
        live_records::<T>(
            arena_step::<T>(arena_step::<T>(s, a).0, arena_step::<T>(s, a).1.unwrap()).0,
        ) == live_records::<T>(s),
{
    let (s1, inverse) = arena_step::<T>(s, a);
    let b = inverse.unwrap();
    let s2 = arena_step::<T>(s1, b).0;
    match a {
        Step::Add(v) => {
            assert(s1 == s.push(Some(v)));
            assert(b == Step::<T::V>::Remove(s.len() as int));
            assert(live_at::<T>(s1, s.len() as int));
            assert(s2 =~= s.push(None));
            lemma_empty_slot_holds_nothing::<T>(s);
        },
        Step::Remove(i) => {
            let v = s[i].unwrap();
            assert(s1 == s.update(i, None));
            assert(b == Step::<T::V>::Add(v));
            if has_name::<T>(s1, T::name_of(v)) {
                let j = choose|j: int|
                    live_at::<T>(s1, j) && #[trigger] name_at::<T>(s1, j) == T::name_of(v);
                assert(name_at::<T>(s, j) == name_at::<T>(s, i));
            }
            assert(s2 == s1.push(Some(v)));
            assert forall|w: T::V| live_records::<T>(s2).contains(w) <==> live_records::<T>(
                s,
            ).contains(w) by {
                if live_records::<T>(s2).contains(w) {
                    let j = choose|j: int| live_at::<T>(s2, j) && #[trigger] s2[j] == Some(w);
                    if j < s.len() {
                        assert(s[j] == Some(w));
                    } else {
                        assert(s[i] == Some(w));
                    }
                }
                if live_records::<T>(s).contains(w) {
                    let j = choose|j: int| live_at::<T>(s, j) && #[trigger] s[j] == Some(w);
                    if j == i {
                        assert(s2[s.len() as int] == Some(w));
                    } else {
                        assert(s2[j] == Some(w));
                    }
                }
            }
            assert(live_records::<T>(s2) =~= live_records::<T>(s));
        },
        Step::Replace(i, v) => {
            let w = s[i].unwrap();
            assert(s1 == s.update(i, Some(v)));
            assert(b == Step::<T::V>::Replace(i, w));
            if T::name_of(w) != T::name_of(v) && has_name::<T>(s1, T::name_of(w)) {
                let j = choose|j: int|
                    live_at::<T>(s1, j) && #[trigger] name_at::<T>(s1, j) == T::name_of(w);
                assert(j != i);
                assert(name_at::<T>(s, j) == name_at::<T>(s, i));
            }
            assert(s2 =~= s);
        },
    }
}

/// An emptied slot at the end adds nothing to the live records.
proof fn lemma_empty_slot_holds_nothing<T: Named>(s: Slots<T::V>)
    ensures
        live_records::<T>(s.push(None)) == live_records::<T>(s),
{
    let t = s.push(None);
    assert forall|w: T::V| live_records::<T>(t).contains(w) <==> live_records::<T>(s).contains(
        w,
    ) by {
        if live_records::<T>(t).contains(w) {
            let j = choose|j: int| live_at::<T>(t, j) && #[trigger] t[j] == Some(w);
            assert(s[j] == Some(w));
        }
        if live_records::<T>(s).contains(w) {
            let j = choose|j: int| live_at::<T>(s, j) && #[trigger] s[j] == Some(w);
            assert(t[j] == Some(w));
        }
    }
    assert(live_records::<T>(t) =~= live_records::<T>(s));
}

/// A sequence of commands that left no inverse changed nothing and touched
/// nothing.
pub proof fn lemma_no_undo_no_change<T: Named>(s: Slots<T::V>, steps: Seq<Step<T::V>>)
    requires
        arena_run::<T>(s, steps).1.len() == 0,
    ensures
        arena_run::<T>(s, steps).0 == s,
        forall|i: int| !#[trigger] touches_slot::<T>(s, steps, i),
        forall|n: Seq<char>| !#[trigger] touches_name::<T>(s, steps, n),
    decreases steps.len(),
{
    if steps.len() > 0 {
        let (before, undo) = arena_run::<T>(s, steps.drop_last());
        lemma_no_undo_no_change::<T>(s, steps.drop_last());
        lemma_no_inverse_no_change::<T>(before, steps.last());
        assert(arena_step::<T>(before, steps.last()).1 is None);
    }
    assert forall|i: int| !#[trigger] touches_slot::<T>(s, steps, i) by {
        if steps.len() > 0 {
            assert(!touches_slot::<T>(s, steps.drop_last(), i));
        }
    }
    assert forall|n: Seq<char>| !#[trigger] touches_name::<T>(s, steps, n) by {
        if steps.len() > 0 {
            assert(!touches_name::<T>(s, steps.drop_last(), n));
        }
    }
}

/// A sequence of which at most one command took effect is independent.
proof fn lemma_single_is_independent<T: Named>(s: Slots<T::V>, steps: Seq<Step<T::V>>)
    requires
        arena_run::<T>(s, steps).1.len() <= 1,
    ensures
        independent::<T>(s, steps),
    decreases steps.len(),
{
    if steps.len() > 0 {
        let (before, undo1) = arena_run::<T>(s, steps.drop_last());
        lemma_single_is_independent::<T>(s, steps.drop_last());
        if arena_step::<T>(before, steps.last()).1 is Some {
            lemma_no_undo_no_change::<T>(s, steps.drop_last());
        }
    }
}

/// A sequence of which only additions took effect is independent, and every
/// name it touched is borne afterwards.
proof fn lemma_additions_are_independent<T: Named>(s: Slots<T::V>, steps: Seq<Step<T::V>>)
    requires
        all_removes(arena_run::<T>(s, steps).1),
    ensures
        independent::<T>(s, steps),
        forall|n: Seq<char>| #[trigger]
            touches_name::<T>(s, steps, n) ==> has_name::<T>(arena_run::<T>(s, steps).0, n),
    decreases steps.len(),
{
    if steps.len() > 0 {
        let (before, undo1) = arena_run::<T>(s, steps.drop_last());
        let a = steps.last();
        let (after, inverse) = arena_step::<T>(before, a);
        let undo = arena_run::<T>(s, steps).1;
        match inverse {
            None => {
                lemma_no_inverse_no_change::<T>(before, a);
                lemma_additions_are_independent::<T>(s, steps.drop_last());
                assert forall|n: Seq<char>| #[trigger] touches_name::<T>(s, steps, n) implies has_name::<
                    T,
                >(after, n) by {
                    assert(touches_name::<T>(s, steps.drop_last(), n));
                }
            },
            Some(b) => {
                assert(undo == undo1.push(b));
                assert forall|k: int| 0 <= k < undo1.len() implies #[trigger] undo1[k] is Remove by {
                    assert(undo[k] == undo1[k]);
                }
                assert(undo[undo1.len() as int] == b);
                lemma_additions_are_independent::<T>(s, steps.drop_last());
                lemma_touched_slots_exist::<T>(s, steps.drop_last());
                let v = a->Add_0;
                assert(a == Step::<T::V>::Add(v));
                assert(after == before.push(Some(v)));
                assert(step_slot(before.len() as int, a) == before.len());
                assert forall|n: Seq<char>| #[trigger] touches_name::<T>(s, steps, n) implies has_name::<
                    T,
                >(after, n) by {
                    if touches_name::<T>(s, steps.drop_last(), n) {
                        let j = choose|j: int|
                            live_at::<T>(before, j) && #[trigger] name_at::<T>(before, j) == n;
                        assert(name_at::<T>(after, j) == n);
                    } else {
                        assert(step_names::<T>(before, a, n));
                        assert(name_at::<T>(after, before.len() as int) == n);
                    }
                }
            },
        }
    }
}

/// Undo round trip for one arena. Where no two live records bear one name,
/// and the commands of a sequence do not get in each other's way or leave an
/// inverse of at most one command or of removals only, applying the inverse
/// to what the sequence left restores the live records that there were
/// before: tombstones may differ, the live records do not.
pub proof fn law_run_undone<T: Named>(s: Slots<T::V>, steps: Seq<Step<T::V>>)
    requires
        unique_names::<T>(s),
        independent::<T>(s, steps) || replayable(arena_run::<T>(s, steps).1),
    ensures
        live_records::<T>(
            arena_run::<T>(arena_run::<T>(s, steps).0, arena_run::<T>(s, steps).1).0,
        ) == live_records::<T>(s),
{
    let undo = arena_run::<T>(s, steps).1;
    if !independent::<T>(s, steps) {
        if undo.len() <= 1 {
            lemma_single_is_independent::<T>(s, steps);
        } else {
            lemma_additions_are_independent::<T>(s, steps);
        }
    }
    law_independent_run_undone::<T>(s, steps);
}

/// The commands of a sequence that go to the arena of districts, in order.
pub open spec fn district_steps(actions: Seq<ActionView>) -> Seq<Step<DistrictView>>
    decreases actions.len(),
{
    if actions.len() == 0 {
        Seq::empty()
    } else {
        let rest = district_steps(actions.drop_last());
        match actions.last() {
            ActionView::District(step) => rest.push(step),
            _ => rest,
        }
    }
}

/// The commands of a sequence that go to the arena of persons, in order.
pub open spec fn person_steps(actions: Seq<ActionView>) -> Seq<Step<PersonView>>
    decreases actions.len(),
{
    if actions.len() == 0 {
        Seq::empty()
    } else {
        let rest = person_steps(actions.drop_last());
        match actions.last() {
            ActionView::Person(step) => rest.push(step),
            _ => rest,
        }
    }
}

/// The commands of a sequence that go to the arena of factions, in order.
pub open spec fn faction_steps(actions: Seq<ActionView>) -> Seq<Step<FactionView>>
    decreases actions.len(),
{
    if actions.len() == 0 {
        Seq::empty()
    } else {
        let rest = faction_steps(actions.drop_last());
        match actions.last() {
            ActionView::Faction(step) => rest.push(step),
            _ => rest,
        }
    }
}

/// Whether no two live records of one arena bear one name, in each arena.
pub open spec fn store_names_unique(s: StoreView) -> bool {
    unique_names::<District>(s.districts) && unique_names::<Person>(s.persons)
        && unique_names::<Faction>(s.factions)
}

/// The live records of the three arenas, whatever their slots.
pub open spec fn store_records(s: StoreView) -> (
    Set<DistrictView>,
    Set<PersonView>,
    Set<FactionView>,
) {
    (
        live_records::<District>(s.districts),
        live_records::<Person>(s.persons),
        live_records::<Faction>(s.factions),
    )
}

/// Whether the commands of a sequence do not get in each other's way: for
/// each arena, the commands that go to it are independent, or they leave an
/// inverse of at most one command or of removals only.
pub open spec fn store_independent(s: StoreView, actions: Seq<ActionView>) -> bool {
    let undo = apply_node(s, actions).1;
    &&& independent::<District>(s.districts, district_steps(actions)) || replayable(
        district_steps(undo),
    )
    &&& independent::<Person>(s.persons, person_steps(actions)) || replayable(person_steps(undo))
    &&& independent::<Faction>(s.factions, faction_steps(actions)) || replayable(
        faction_steps(undo),
    )
}

/// The arenas do not see each other: what a sequence of commands does to one
/// arena, and the inverses it leaves for that arena, are those of the commands
/// that go to that arena.
pub proof fn lemma_arenas_run_apart(s: StoreView, actions: Seq<ActionView>)
    ensures
        (apply_node(s, actions).0.districts, district_steps(apply_node(s, actions).1))
            == arena_run::<District>(s.districts, district_steps(actions)),
        (apply_node(s, actions).0.persons, person_steps(apply_node(s, actions).1))
            == arena_run::<Person>(s.persons, person_steps(actions)),
        (apply_node(s, actions).0.factions, faction_steps(apply_node(s, actions).1))
            == arena_run::<Faction>(s.factions, faction_steps(actions)),
    decreases actions.len(),
{
    if actions.len() > 0 {
        lemma_arenas_run_apart(s, actions.drop_last());
        let (before, undo) = apply_node(s, actions.drop_last());
        let (after, inverse) = apply_action(before, actions.last());
        match inverse {
            Some(b) => {
                assert(undo.push(b).drop_last() =~= undo);
                assert(undo.push(b).last() == b);
            },
            None => {},
        }
        match actions.last() {
            ActionView::District(step) => {
                assert(district_steps(actions).drop_last() =~= district_steps(
                    actions.drop_last(),
                ));
            },
            ActionView::Person(step) => {
                assert(person_steps(actions).drop_last() =~= person_steps(actions.drop_last()));
            },
            ActionView::Faction(step) => {
                assert(faction_steps(actions).drop_last() =~= faction_steps(actions.drop_last()));
            },
        }
    }
}

/// Names stay unique in every arena through a sequence of commands.
pub proof fn law_store_names_stay_unique(s: StoreView, actions: Seq<ActionView>)
    requires
        store_names_unique(s),
    ensures
        store_names_unique(apply_node(s, actions).0),
{
    lemma_arenas_run_apart(s, actions);
    lemma_run_keeps_names_unique::<District>(s.districts, district_steps(actions));
    lemma_run_keeps_names_unique::<Person>(s.persons, person_steps(actions));
    lemma_run_keeps_names_unique::<Faction>(s.factions, faction_steps(actions));
}

/// The inverse never holds more commands than the sequence it undoes: a
/// shorter inverse tells that commands were passed over.
pub proof fn law_undo_is_no_longer(s: StoreView, actions: Seq<ActionView>)
    ensures
        apply_node(s, actions).1.len() <= actions.len(),
    decreases actions.len(),
{
    if actions.len() > 0 {
        law_undo_is_no_longer(s, actions.drop_last());
    }
}

/// Undo round trip. Let `undo` be the inverse that `do_action` returns for a
/// sequence of commands that do not get in each other's way. Carrying out
/// `undo` on what the sequence left restores the live records of every arena:
/// tombstones may differ, the live records do not.
pub proof fn law_undo_round_trip(s: StoreView, actions: Seq<ActionView>)
    requires
        store_names_unique(s),
        store_independent(s, actions),
    ensures
        store_records(apply_node(apply_node(s, actions).0, apply_node(s, actions).1).0)
            == store_records(s),
{
    let (after, undo) = apply_node(s, actions);
    lemma_arenas_run_apart(s, actions);
    lemma_arenas_run_apart(after, undo);
    law_run_undone::<District>(s.districts, district_steps(actions));
    law_run_undone::<Person>(s.persons, person_steps(actions));
    law_run_undone::<Faction>(s.factions, faction_steps(actions));
}

} // verus!

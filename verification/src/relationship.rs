//! The attitudes of actors towards each other.
//!
//! A relationship belongs to a pair of actors, which are identifiers of any
//! kind. The two actors of a pair are kept in their order, so that a pair is
//! found whichever actor is asked about.

use crate::app_data::{law_identifier_order_connected, AppData, DataIndex};
use vstd::prelude::*;

verus! {

/// Two different actors, the one that comes first in the order of identifiers
/// first.
#[derive(Debug, Clone, Copy, PartialEq, Eq, Structural, PartialOrd, Ord)]
pub struct ActorPair(DataIndex, DataIndex);

/// How one actor stands to another, from hostile to friendly.
#[derive(Debug, Clone, Copy, PartialEq, Eq, Structural, PartialOrd, Ord)]
pub enum Attitude {
    Minus3,
    Minus2,
    Minus1,
    Zero,
    Plus1,
    Plus2,
    Plus3,
}

/// A relationship between two actors.
#[derive(Debug, Clone, Copy, PartialEq, Eq, Structural)]
pub struct Relationship {
    attitude: Attitude,
}

/// The relationships of all pairs of actors, in increasing order of the pairs.
pub struct Relationships {
    table: Vec<(ActorPair, Relationship)>,
}

/// The relationships of one actor: for each actor it is paired with, the
/// relationship, in increasing order of the other actor.
pub struct MyRelationships {
    my_data_index: DataIndex,
    table: Vec<(DataIndex, Relationship)>,
}

impl Default for Attitude {
    /// Neither hostile nor friendly.
    fn default() -> (r: Self)
        ensures
            r == Attitude::Zero,
    {
        Attitude::Zero
    }
}

impl Attitude {
    /// The attitude as a number from -3 to 3.
    pub open spec fn spec_value(self) -> int {
        match self {
            Attitude::Minus3 => -3,
            Attitude::Minus2 => -2,
            Attitude::Minus1 => -1,
            Attitude::Zero => 0,
            Attitude::Plus1 => 1,
            Attitude::Plus2 => 2,
            Attitude::Plus3 => 3,
        }
    }

    /// The attitude as a number from -3 to 3.
    pub fn value(self) -> (r: i8)
        ensures
            r == self.spec_value(),
    {
        match self {
            Attitude::Minus3 => -3,
            Attitude::Minus2 => -2,
            Attitude::Minus1 => -1,
            Attitude::Zero => 0,
            Attitude::Plus1 => 1,
            Attitude::Plus2 => 2,
            Attitude::Plus3 => 3,
        }
    }
}

impl Relationship {
    /// The attitude.
    pub closed spec fn spec_attitude(self) -> Attitude {
        self.attitude
    }

    /// A relationship of the given attitude.
    pub fn new(attitude: Attitude) -> (r: Self)
        ensures
            r.spec_attitude() == attitude,
    {
        Relationship { attitude }
    }

    /// The attitude.
    pub fn attitude(&self) -> (r: Attitude)
        ensures
            r == self.spec_attitude(),
    {
        self.attitude
    }
}

impl ActorPair {
    /// The actor that comes first.
    pub closed spec fn first(self) -> DataIndex {
        self.0
    }

    /// The actor that comes second.
    pub closed spec fn second(self) -> DataIndex {
        self.1
    }

    /// The pair of two actors in their order.
    pub closed spec fn of(actor1: DataIndex, actor2: DataIndex) -> ActorPair {
        if actor1.precedes(actor2) {
            ActorPair(actor1, actor2)
        } else {
            ActorPair(actor2, actor1)
        }
    }

    /// Whether the pair is one that `new` makes: two actors in their order.
    pub open spec fn ordered(self) -> bool {
        self.first().precedes(self.second()) && self.first() != DataIndex::Nothing
    }

    /// Whether `self` comes strictly before `other`: by the first actor, then
    /// by the second.
    pub open spec fn precedes(self, other: ActorPair) -> bool {
        self.first().precedes(other.first()) || (self.first() == other.first()
            && self.second().precedes(other.second()))
    }

    /// The other actor of the pair, for one of its actors; none for any other.
    pub open spec fn partner(self, data_index: DataIndex) -> Option<DataIndex> {
        if self.first() == data_index {
            Some(self.second())
        } else if self.second() == data_index {
            Some(self.first())
        } else {
            None
        }
    }

    /// A pair holds its two actors, in their order, whichever way they were
    /// given.
    pub proof fn lemma_of(actor1: DataIndex, actor2: DataIndex)
        requires
            actor1 != actor2,
            actor1 != DataIndex::Nothing,
            actor2 != DataIndex::Nothing,
        ensures
            Self::of(actor1, actor2).ordered(),
            Self::of(actor1, actor2) == Self::of(actor2, actor1),
            Self::of(actor1, actor2).partner(actor1) == Some(actor2),
            Self::of(actor1, actor2).partner(actor2) == Some(actor1),
    {
        law_identifier_order_connected(actor1, actor2);
    }

    /// The pair of two actors, which must differ and must both be actors.
    pub fn new(actor1: DataIndex, actor2: DataIndex) -> (r: ActorPair)
        requires
            actor1 != actor2,
            actor1 != DataIndex::Nothing,
            actor2 != DataIndex::Nothing,
        ensures
            r == Self::of(actor1, actor2),
            r.ordered(),
    {
        proof {
            Self::lemma_of(actor1, actor2);
        }
        if actor1 < actor2 {
            ActorPair(actor1, actor2)
        } else {
            ActorPair(actor2, actor1)
        }
    }

    /// Whether both actors address live records. Their slots must exist in the
    /// arenas of their kinds.
    pub fn is_valid(&self, app_data: &AppData) -> (r: bool)
        requires
            app_data.wf(),
            app_data.in_range(self.first()),
            app_data.in_range(self.second()),
        ensures
            r == (app_data.addresses_record(self.first()) && app_data.addresses_record(
                self.second(),
            )),
    {
        app_data.data_index_valid(self.0) && app_data.data_index_valid(self.1)
    }

    /// The other actor of the pair, for one of its actors; none for any other.
    pub fn pair_with(&self, data_index: DataIndex) -> (r: Option<DataIndex>)
        ensures
            r == self.partner(data_index),
    {
        if self.0 == data_index {
            Some(self.1)
        } else if self.1 == data_index {
            Some(self.0)
        } else {
            None
        }
    }

    /// Whether `self` comes strictly before `other`.
    fn before(&self, other: &ActorPair) -> (r: bool)
        ensures
            r == self.precedes(*other),
    {
        self.0 < other.0 || (self.0 == other.0 && self.1 < other.1)
    }
}

/// The relationships of one actor that a table of pairs holds: for each pair
/// the actor belongs to, the other actor and the relationship, in the table's
/// order.
pub open spec fn related(table: Seq<(ActorPair, Relationship)>, me: DataIndex) -> Seq<
    (DataIndex, Relationship),
>
    decreases table.len(),
{
    if table.len() == 0 {
        Seq::empty()
    } else {
        let rest = related(table.drop_last(), me);
        match table.last().0.partner(me) {
            Some(other) => rest.push((other, table.last().1)),
            None => rest,
        }
    }
}

/// Whether the pairs of a table are ordered pairs in strictly increasing order.
pub open spec fn pairs_increase(table: Seq<(ActorPair, Relationship)>) -> bool {
    &&& forall|i: int| 0 <= i < table.len() ==> (#[trigger] table[i]).0.ordered()
    &&& forall|i: int, j: int|
        0 <= i < j < table.len() ==> (#[trigger] table[i]).0.precedes((#[trigger] table[j]).0)
}

/// Whether the actors of a list stand in strictly increasing order.
pub open spec fn actors_increase(table: Seq<(DataIndex, Relationship)>) -> bool {
    forall|i: int, j: int|
        0 <= i < j < table.len() ==> (#[trigger] table[i]).0.precedes((#[trigger] table[j]).0)
}

/// Whether `from` gives, for each relationship of an actor, the place of the
/// pair it comes from, later relationships coming from later pairs.
spec fn sources(table: Seq<(ActorPair, Relationship)>, me: DataIndex, from: Seq<int>) -> bool {
    &&& from.len() == related(table, me).len()
    &&& forall|k: int|
        0 <= k < from.len() ==> 0 <= (#[trigger] from[k]) < table.len() && table[from[k]].0.partner(
            me,
        ) == Some(related(table, me)[k].0) && table[from[k]].1 == related(table, me)[k].1
    &&& forall|k: int, l: int|
        0 <= k < l < from.len() ==> (#[trigger] from[k]) < (#[trigger] from[l])
}

/// Every relationship of an actor comes from a pair of the table, and pairs
/// that come later in the table give relationships that come later.
proof fn lemma_related_sources(table: Seq<(ActorPair, Relationship)>, me: DataIndex)
    ensures
        exists|from: Seq<int>| sources(table, me, from),
    decreases table.len(),
{
    if table.len() == 0 {
        assert(sources(table, me, Seq::<int>::empty()));
    } else {
        lemma_related_sources(table.drop_last(), me);
        let rest = related(table.drop_last(), me);
        let from0 = choose|from: Seq<int>| sources(table.drop_last(), me, from);
        let from = match table.last().0.partner(me) {
            Some(other) => from0.push(table.len() - 1),
            None => from0,
        };
        assert forall|k: int| 0 <= k < from.len() implies 0 <= (#[trigger] from[k]) < table.len()
            && table[from[k]].0.partner(me) == Some(related(table, me)[k].0) && table[from[k]].1
            == related(table, me)[k].1 by {
            if k < from0.len() {
                assert(from[k] == from0[k]);
                assert(table.drop_last()[from0[k]] == table[from0[k]]);
                assert(related(table, me)[k] == rest[k]);
            }
        }
        assert forall|k: int, l: int| 0 <= k < l < from.len() implies (#[trigger] from[k]) < (
        #[trigger] from[l]) by {
            if l < from0.len() {
                assert(from[k] == from0[k] && from[l] == from0[l]);
            } else {
                assert(from[k] == from0[k]);
            }
        }
        assert(sources(table, me, from));
    }
}

/// In a table of ordered pairs in increasing order, the relationships of an
/// actor come out in increasing order of the other actor, each actor once.
pub proof fn law_related_increase(table: Seq<(ActorPair, Relationship)>, me: DataIndex)
    requires
        pairs_increase(table),
    ensures
        actors_increase(related(table, me)),
{
    lemma_related_sources(table, me);
    let out = related(table, me);
    let from = choose|from: Seq<int>| sources(table, me, from);
    assert forall|i: int, j: int| 0 <= i < j < out.len() implies (#[trigger] out[i]).0.precedes(
        (#[trigger] out[j]).0,
    ) by {
        let p = table[from[i]].0;
        let q = table[from[j]].0;
        assert(from[i] < from[j]);
        assert(p.precedes(q));
        assert(p.ordered() && q.ordered());
    }
}

impl View for Relationships {
    type V = Seq<(ActorPair, Relationship)>;

    closed spec fn view(&self) -> Seq<(ActorPair, Relationship)> {
        self.table@
    }
}

impl Default for Relationships {
    /// No relationships.
    fn default() -> (r: Self)
        ensures
            r@.len() == 0,
            r.wf(),
    {
        Relationships { table: Vec::new() }
    }
}

impl Relationships {
    /// The invariant: the pairs are ordered pairs in strictly increasing order,
    /// so that no pair occurs twice.
    pub open spec fn wf(&self) -> bool {
        pairs_increase(self@)
    }

    /// Sets the relationship of a pair, in place of the one it had if it had
    /// one. The pair must be one that `ActorPair::new` made.
    pub fn set(&mut self, pair: ActorPair, relationship: Relationship)
        requires
            old(self).wf(),
            pair.ordered(),
        ensures
            final(self).wf(),
            final(self)@.contains((pair, relationship)),
            forall|e: (ActorPair, Relationship)|
                e.0 != pair ==> (#[trigger] final(self)@.contains(e) <==> old(self)@.contains(e)),
            forall|e: (ActorPair, Relationship)|
                #[trigger] final(self)@.contains(e) && e.0 == pair ==> e.1 == relationship,
    {
        let mut place: usize = 0;
        while place < self.table.len() && self.table[place].0.before(&pair)
            invariant
                self == old(self),
                0 <= place <= self.table@.len(),
                forall|k: int| 0 <= k < place ==> (#[trigger] self.table@[k]).0.precedes(pair),
            decreases self.table@.len() - place,
        {
            place = place + 1;
        }
        let ghost before = self.table@;
        if place < self.table.len() && self.table[place].0 == pair {
            self.table.set(place, (pair, relationship));
            proof {
                let after = self.table@;
                assert(after[place as int] == (pair, relationship));
                assert forall|i: int, j: int| 0 <= i < j < after.len() implies (
                #[trigger] after[i]).0.precedes((#[trigger] after[j]).0) by {
                    assert(after[i].0 == before[i].0 && after[j].0 == before[j].0);
                }
                assert forall|i: int| 0 <= i < after.len() implies (#[trigger] after[i]).0.ordered() by {
                    assert(after[i].0 == before[i].0);
                }
                assert forall|e: (ActorPair, Relationship)| e.0 != pair implies (
                #[trigger] after.contains(e) <==> before.contains(e)) by {
                    if after.contains(e) {
                        let i = choose|i: int| 0 <= i < after.len() && after[i] == e;
                        assert(before[i] == e);
                    }
                    if before.contains(e) {
                        let i = choose|i: int| 0 <= i < before.len() && before[i] == e;
                        assert(after[i] == e);
                    }
                }
                assert forall|e: (ActorPair, Relationship)|
                    #[trigger] after.contains(e) && e.0 == pair implies e.1 == relationship by {
                    let i = choose|i: int| 0 <= i < after.len() && after[i] == e;
                    if i != place {
                        assert(before[i].0 == pair);
                        if i < place {
                            assert(before[i].0.precedes(before[place as int].0));
                        } else {
                            assert(before[place as int].0.precedes(before[i].0));
                        }
                    }
                }
            }
        } else {
            proof {
                if place < before.len() {
                    let q = before[place as int].0;
                    assert(!q.precedes(pair) && q != pair);
                    if q.first() != pair.first() {
                        law_identifier_order_connected(q.first(), pair.first());
                    } else if q.second() != pair.second() {
                        law_identifier_order_connected(q.second(), pair.second());
                    }
                    assert(pair.precedes(q));
                }
            }
            self.table.insert(place, (pair, relationship));
            proof {
                let after = self.table@;
                assert(after =~= before.insert(place as int, (pair, relationship)));
                assert(after[place as int] == (pair, relationship));
                assert forall|i: int| 0 <= i < after.len() implies (#[trigger] after[i]).0.ordered() by {
                    if i < place {
                        assert(after[i] == before[i]);
                    } else if i > place {
                        assert(after[i] == before[i - 1]);
                    }
                }
                assert forall|i: int, j: int| 0 <= i < j < after.len() implies (
                #[trigger] after[i]).0.precedes((#[trigger] after[j]).0) by {
                    if j == place {
                        assert(after[i] == before[i]);
                    } else if i == place {
                        assert(after[j] == before[j - 1]);
                        if j - 1 > place {
                            assert(before[place as int].0.precedes(before[j - 1].0));
                        }
                    } else {
                        let oi = if i < place { i } else { i - 1 };
                        let oj = if j < place { j } else { j - 1 };
                        assert(after[i] == before[oi] && after[j] == before[oj]);
                    }
                }
                assert forall|e: (ActorPair, Relationship)| e.0 != pair implies (
                #[trigger] after.contains(e) <==> before.contains(e)) by {
                    if after.contains(e) {
                        let i = choose|i: int| 0 <= i < after.len() && after[i] == e;
                        let oi = if i < place { i } else { i - 1 };
                        assert(before[oi] == e);
                    }
                    if before.contains(e) {
                        let oi = choose|i: int| 0 <= i < before.len() && before[i] == e;
                        let i = if oi < place { oi } else { oi + 1 };
                        assert(after[i] == e);
                    }
                }
                assert forall|e: (ActorPair, Relationship)|
                    #[trigger] after.contains(e) && e.0 == pair implies e.1 == relationship by {
                    let i = choose|i: int| 0 <= i < after.len() && after[i] == e;
                    if i < place {
                        assert(after[i] == before[i]);
                    } else if i > place {
                        assert(after[i] == before[i - 1]);
                        assert(after[place as int].0.precedes(after[i].0));
                    }
                }
            }
        }
    }

    /// The number of pairs that have a relationship.
    pub fn len(&self) -> (r: usize)
        ensures
            r == self@.len(),
    {
        self.table.len()
    }

    /// The relationships of one actor: for each pair it belongs to, the other
    /// actor and the relationship, in increasing order of the other actor.
    pub fn my_relationships(&self, my_data_index: DataIndex) -> (r: MyRelationships)
        requires
            self.wf(),
        ensures
            r.actor() == my_data_index,
            r@ == related(self@, my_data_index),
            actors_increase(r@),
    {
        let mut table: Vec<(DataIndex, Relationship)> = Vec::new();
        let mut i: usize = 0;
        assert(self.table@.take(0) =~= Seq::empty());
        while i < self.table.len()
            invariant
                0 <= i <= self.table@.len(),
                table@ == related(self.table@.take(i as int), my_data_index),
            decreases self.table@.len() - i,
        {
            assert(self.table@.take(i + 1).drop_last() =~= self.table@.take(i as int));
            assert(self.table@.take(i + 1).last() == self.table@[i as int]);
            let (pair, relationship) = self.table[i];
            if let Some(other) = pair.pair_with(my_data_index) {
                table.push((other, relationship));
            }
            i = i + 1;
        }
        proof {
            assert(self.table@.take(self.table@.len() as int) =~= self.table@);
            law_related_increase(self@, my_data_index);
        }
        MyRelationships { my_data_index, table }
    }
}

impl View for MyRelationships {
    type V = Seq<(DataIndex, Relationship)>;

    closed spec fn view(&self) -> Seq<(DataIndex, Relationship)> {
        self.table@
    }
}

impl MyRelationships {
    /// The actor whose relationships these are.
    pub closed spec fn actor(&self) -> DataIndex {
        self.my_data_index
    }

    /// The actor whose relationships these are.
    pub fn my_data_index(&self) -> (r: DataIndex)
        ensures
            r == self.actor(),
    {
        self.my_data_index
    }

    /// The other actors with the relationships to them, in increasing order
    /// of the actors.
    pub fn table(&self) -> (r: &Vec<(DataIndex, Relationship)>)
        ensures
            r@ == self@,
    {
        &self.table
    }
}

} // verus!

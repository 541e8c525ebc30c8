//! The name index of an arena: a map from names to handles, kept as a vector
//! of entries in strictly increasing order of name.

use crate::managed_list::GenericRef;
use crate::names::{
    increasing, lemma_increasing_distinct, lemma_name_before_connected,
    lemma_name_before_irreflexive, lemma_name_before_transitive, name_before, str_before, str_same,
};
use vstd::prelude::*;

verus! {

/// One entry of the index: a name and the handle registered under it.
pub struct IndexEntry<T> {
    name: String,
    handle: GenericRef<T>,
}

/// A map from names to handles that can be walked in the order of the names.
pub struct NameIndex<T> {
    entries: Vec<IndexEntry<T>>,
}

/// The names of the entries, in the entries' order.
pub open spec fn names_of<T>(e: Seq<IndexEntry<T>>) -> Seq<Seq<char>> {
    Seq::new(e.len(), |k: int| e[k].spec_name())
}

impl<T> IndexEntry<T> {
    pub closed spec fn spec_name(self) -> Seq<char> {
        self.name@
    }

    pub closed spec fn spec_handle(self) -> GenericRef<T> {
        self.handle
    }
}

impl<T> NameIndex<T> {
    /// The names in the index, in increasing order.
    pub closed spec fn names(&self) -> Seq<Seq<char>> {
        names_of(self.entries@)
    }

    /// The handles in the index, in the order of their names.
    pub closed spec fn handles(&self) -> Seq<GenericRef<T>> {
        Seq::new(self.entries@.len(), |k: int| self.entries@[k].spec_handle())
    }

    /// The invariant: the names are strictly increasing.
    pub closed spec fn wf(&self) -> bool {
        increasing(self.names())
    }

    /// The place of a name among the entries.
    pub closed spec fn place(&self, name: Seq<char>) -> int {
        choose|k: int| 0 <= k < self.names().len() && self.names()[k] == name
    }

    /// The index as a map from names to handles.
    pub closed spec fn map(&self) -> Map<Seq<char>, GenericRef<T>> {
        Map::new(|n: Seq<char>| self.names().contains(n), |n: Seq<char>| self.handles()[self.place(n)])
    }

    /// How the ordered entries and the map relate: the two sequences are of one
    /// length, the names increase, and the map holds exactly the entries.
    pub proof fn lemma_entries(&self)
        requires
            self.wf(),
        ensures
            self.names().len() == self.handles().len(),
            increasing(self.names()),
            forall|k: int|
                0 <= k < self.names().len() ==> self.map().contains_key(#[trigger] self.names()[k])
                    && self.map()[self.names()[k]] == self.handles()[k],
            forall|n: Seq<char>| #[trigger]
                self.map().contains_key(n) ==> self.names().contains(n),
    {
        assert forall|k: int| 0 <= k < self.names().len() implies self.map().contains_key(
            #[trigger] self.names()[k],
        ) && self.map()[self.names()[k]] == self.handles()[k] by {
            let n = self.names()[k];
            assert(self.names().contains(n));
            lemma_increasing_distinct(self.names(), k, self.place(n));
        }
    }

    /// An empty index.
    pub fn new() -> (r: Self)
        ensures
            r.wf(),
            r.map() == Map::<Seq<char>, GenericRef<T>>::empty(),
            r.names().len() == 0,
    {
        let r = NameIndex { entries: Vec::new() };
        assert(r.map() =~= Map::<Seq<char>, GenericRef<T>>::empty());
        r
    }

    /// The number of entries.
    pub fn len(&self) -> (r: usize)
        ensures
            r == self.names().len(),
    {
        self.entries.len()
    }

    /// The name of the entry at place `k`.
    pub fn name_at(&self, k: usize) -> (r: &str)
        requires
            k < self.names().len(),
        ensures
            r@ == self.names()[k as int],
    {
        self.entries[k].name.as_str()
    }

    /// The handle of the entry at place `k`.
    pub fn handle_at(&self, k: usize) -> (r: GenericRef<T>)
        requires
            k < self.names().len(),
        ensures
            r == self.handles()[k as int],
    {
        self.entries[k].handle
    }

    /// Finds the place where `name` stands or would have to stand: the first
    /// place whose name does not come before `name`.
    fn search(&self, name: &str) -> (r: (bool, usize))
        requires
            self.wf(),
        ensures
            r.1 <= self.names().len(),
            forall|k: int| 0 <= k < r.1 ==> name_before(#[trigger] self.names()[k], name@),
            forall|k: int|
                r.1 <= k < self.names().len() ==> !name_before(#[trigger] self.names()[k], name@),
            r.0 == (r.1 < self.names().len() && self.names()[r.1 as int] == name@),
            r.0 == self.names().contains(name@),
            r.0 == self.map().contains_key(name@),
            r.0 ==> self.map()[name@] == self.handles()[r.1 as int],
    {
        let mut lo: usize = 0;
        let mut hi: usize = self.entries.len();
        while lo < hi
            invariant
                self.wf(),
                0 <= lo <= hi <= self.names().len(),
                self.names().len() == self.entries@.len(),
                forall|k: int| 0 <= k < lo ==> name_before(#[trigger] self.names()[k], name@),
                forall|k: int|
                    hi <= k < self.names().len() ==> !name_before(
                        #[trigger] self.names()[k],
                        name@,
                    ),
            decreases hi - lo,
        {
            let mid: usize = lo + (hi - lo) / 2;
            if str_before(self.entries[mid].name.as_str(), name) {
                proof {
                    assert forall|k: int| 0 <= k < mid + 1 implies name_before(
                        #[trigger] self.names()[k],
                        name@,
                    ) by {
                        if k < mid {
                            lemma_name_before_transitive(
                                self.names()[k],
                                self.names()[mid as int],
                                name@,
                            );
                        }
                    }
                }
                lo = mid + 1;
            } else {
                proof {
                    assert forall|k: int| mid <= k < self.names().len() implies !name_before(
                        #[trigger] self.names()[k],
                        name@,
                    ) by {
                        if mid < k && name_before(self.names()[k], name@) {
                            lemma_name_before_transitive(
                                self.names()[mid as int],
                                self.names()[k],
                                name@,
                            );
                        }
                    }
                }
                hi = mid;
            }
        }
        let found = lo < self.entries.len() && str_same(self.entries[lo].name.as_str(), name);
        proof {
            if self.names().contains(name@) {
                let k = choose|k: int| 0 <= k < self.names().len() && self.names()[k] == name@;
                lemma_name_before_irreflexive(name@);
                if k > lo {
                    assert(name_before(self.names()[lo as int], self.names()[k]));
                }
                assert(k == lo);
            }
            if found {
                assert(self.names()[lo as int] == name@);
                assert(self.names().contains(name@));
                lemma_increasing_distinct(self.names(), lo as int, self.place(name@));
            }
        }
        (found, lo)
    }

    /// Whether a handle is registered under `name`.
    pub fn contains_key(&self, name: &str) -> (r: bool)
        requires
            self.wf(),
        ensures
            r == self.map().contains_key(name@),
    {
        self.search(name).0
    }

    /// The handle registered under `name`, if any.
    pub fn get(&self, name: &str) -> (r: Option<GenericRef<T>>)
        requires
            self.wf(),
        ensures
            r == (if self.map().contains_key(name@) {
                Some(self.map()[name@])
            } else {
                None
            }),
    {
        let (found, k) = self.search(name);
        if found {
            Some(self.entries[k].handle)
        } else {
            None
        }
    }

    /// Registers `handle` under `name`, which must be free.
    pub fn insert(&mut self, name: String, handle: GenericRef<T>)
        requires
            old(self).wf(),
            !old(self).map().contains_key(name@),
        ensures
            final(self).wf(),
            final(self).map() == old(self).map().insert(name@, handle),
    {
        let (_found, k) = self.search(name.as_str());
        let ghost n = name@;
        let ghost before = self.names();
        proof {
            if k < before.len() {
                lemma_name_before_connected(before[k as int], n);
            }
        }
        self.entries.insert(k, IndexEntry { name, handle });
        proof {
            let after = self.names();
            assert(after =~= before.insert(k as int, n));
            assert(self.handles() =~= old(self).handles().insert(k as int, handle));
            assert forall|i: int, j: int| 0 <= i < j < after.len() implies name_before(
                after[i],
                after[j],
            ) by {
                if j == k {
                    assert(after[i] == before[i]);
                } else if i == k {
                    assert(after[j] == before[j - 1]);
                    if j - 1 > k {
                        lemma_name_before_transitive(n, before[k as int], before[j - 1]);
                    }
                } else {
                    let oi = if i < k { i } else { i - 1 };
                    let oj = if j < k { j } else { j - 1 };
                    assert(after[i] == before[oi] && after[j] == before[oj]);
                }
            }
            assert forall|m: Seq<char>| self.names().contains(m) <==> (m == n || before.contains(
                m,
            )) by {
                if self.names().contains(m) {
                    let i = choose|i: int| 0 <= i < after.len() && after[i] == m;
                    if i != k {
                        let oi = if i < k { i } else { i - 1 };
                        assert(before[oi] == m);
                    }
                }
                if before.contains(m) {
                    let oi = choose|i: int| 0 <= i < before.len() && before[i] == m;
                    let i = if oi < k { oi } else { oi + 1 };
                    assert(after[i] == m);
                }
                if m == n {
                    assert(after[k as int] == m);
                }
            }
            assert forall|m: Seq<char>| self.names().contains(m) implies #[trigger] self.map()[m]
                == old(self).map().insert(n, handle)[m] by {
                let i = self.place(m);
                if m == n {
                    lemma_increasing_distinct(after, i, k as int);
                } else {
                    assert(i != k);
                    let oi = if i < k { i } else { i - 1 };
                    assert(before[oi] == m);
                    lemma_increasing_distinct(before, oi, old(self).place(m));
                }
            }
            assert(self.map() =~= old(self).map().insert(n, handle));
        }
    }

    /// Takes out the entry of `name`, if there is one.
    pub fn remove(&mut self, name: &str)
        requires
            old(self).wf(),
        ensures
            final(self).wf(),
            final(self).map() == old(self).map().remove(name@),
    {
        let (found, k) = self.search(name);
        if found {
            let ghost n = name@;
            let ghost before = self.names();
            self.entries.remove(k);
            proof {
                let after = self.names();
                assert(after =~= before.remove(k as int));
                assert(self.handles() =~= old(self).handles().remove(k as int));
                assert forall|i: int, j: int| 0 <= i < j < after.len() implies name_before(
                    after[i],
                    after[j],
                ) by {
                    let oi = if i < k { i } else { i + 1 };
                    let oj = if j < k { j } else { j + 1 };
                    assert(after[i] == before[oi] && after[j] == before[oj]);
                }
                assert forall|m: Seq<char>| self.names().contains(m) <==> (m != n
                    && before.contains(m)) by {
                    if self.names().contains(m) {
                        let i = choose|i: int| 0 <= i < after.len() && after[i] == m;
                        let oi = if i < k { i } else { i + 1 };
                        assert(before[oi] == m);
                        if m == n {
                            lemma_increasing_distinct(before, oi, k as int);
                        }
                    }
                    if m != n && before.contains(m) {
                        let oi = choose|i: int| 0 <= i < before.len() && before[i] == m;
                        let i = if oi < k { oi } else { oi - 1 };
                        assert(after[i] == m);
                    }
                }
                assert forall|m: Seq<char>| self.names().contains(m) implies #[trigger] self.map()[m]
                    == old(self).map().remove(n)[m] by {
                    let i = self.place(m);
                    let oi = if i < k { i } else { i + 1 };
                    assert(before[oi] == m);
                    lemma_increasing_distinct(before, oi, old(self).place(m));
                }
                assert(self.map() =~= old(self).map().remove(n));
            }
        } else {
            assert(self.map() =~= old(self).map().remove(name@));
        }
    }
}

} // verus!

//! A list of distinct strings with the state of the form that edits it.

use crate::app_display::{NewStringStatus, NewStringStatusView};
use crate::names::{
    chars_opt, chars_ref_opt, clone_opt_string, clone_strings, same_strings, str_same,
    strings_view,
};
use vstd::prelude::*;
use vstd::std_specs::cmp::PartialEqSpecImpl;

verus! {

/// Whether `x` stands at place `i` of `s` and nowhere before it.
pub open spec fn first_place<A>(s: Seq<A>, x: A, i: int) -> bool {
    0 <= i < s.len() && s[i] == x && forall|j: int| 0 <= j < i ==> s[j] != x
}

/// `s` without the item at place `i`, the last item moved into the gap.
pub open spec fn swap_removed<A>(s: Seq<A>, i: int) -> Seq<A> {
    s.update(i, s.last()).drop_last()
}

/// `s` without the first occurrence of `x`, the last item moved into the gap;
/// `s` itself where `x` does not occur.
pub open spec fn without_first<A>(s: Seq<A>, x: A) -> Seq<A> {
    if s.contains(x) {
        swap_removed(s, choose|i: int| first_place(s, x, i))
    } else {
        s
    }
}

/// A value has at most one first place.
pub proof fn lemma_first_place_unique<A>(s: Seq<A>, x: A, i: int, j: int)
    requires
        first_place(s, x, i),
        first_place(s, x, j),
    ensures
        i == j,
{
}

/// A list of strings, and beside it what the form that edits the list keeps
/// between two frames: the entry under way and the item under the pointer.
/// Two lists are equal when they hold the same strings in the same order.
pub struct StringList {
    list: Vec<String>,
    new: NewStringStatus,
    hovered: Option<String>,
}

/// A string list as a mathematical value.
pub struct StringListView {
    pub list: Seq<Seq<char>>,
    pub new: NewStringStatusView,
    pub hovered: Option<Seq<char>>,
}

impl View for StringList {
    type V = StringListView;

    closed spec fn view(&self) -> StringListView {
        StringListView {
            list: strings_view(self.list@),
            new: self.new@,
            hovered: chars_opt(self.hovered),
        }
    }
}

impl Clone for StringList {
    fn clone(&self) -> (r: Self)
        ensures
            r@ == self@,
    {
        StringList {
            list: clone_strings(&self.list),
            new: self.new.clone(),
            hovered: clone_opt_string(&self.hovered),
        }
    }
}

impl Default for StringList {
    /// The empty list, nothing entered and nothing pointed at.
    fn default() -> (r: Self)
        ensures
            r@ == (StringListView {
                list: Seq::empty(),
                new: NewStringStatusView::NoItem,
                hovered: None,
            }),
    {
        let r = StringList { list: Vec::new(), new: NewStringStatus::NoItem, hovered: None };
        assert(r@.list =~= Seq::empty());
        r
    }
}

impl PartialEq for StringList {
    /// Whether two lists hold the same strings in the same order.
    fn eq(&self, other: &Self) -> (r: bool) {
        same_strings(&self.list, &other.list)
    }
}

impl PartialEqSpecImpl for StringList {
    open spec fn obeys_eq_spec() -> bool {
        true
    }

    open spec fn eq_spec(&self, other: &Self) -> bool {
        self@.list == other@.list
    }
}

impl StringList {
    /// A list of the given strings, nothing entered and nothing pointed at.
    pub fn from_list(input_list: Vec<String>) -> (r: Self)
        ensures
            r@ == (StringListView {
                list: strings_view(input_list@),
                new: NewStringStatusView::NoItem,
                hovered: None,
            }),
    {
        StringList { list: input_list, new: NewStringStatus::NoItem, hovered: None }
    }

    /// The strings.
    pub fn list(&self) -> (r: &Vec<String>)
        ensures
            strings_view(r@) == self@.list,
    {
        &self.list
    }

    /// Whether the list holds `item`.
    fn holds(&self, item: &str) -> (r: bool)
        ensures
            r == self@.list.contains(item@),
    {
        let mut i: usize = 0;
        while i < self.list.len()
            invariant
                0 <= i <= self.list@.len(),
                forall|j: int| 0 <= j < i ==> strings_view(self.list@)[j] != item@,
            decreases self.list@.len() - i,
        {
            if str_same(self.list[i].as_str(), item) {
                assert(strings_view(self.list@)[i as int] == item@);
                return true;
            }
            i = i + 1;
        }
        false
    }

    /// Appends `item` unless the list holds it already.
    pub fn push(&mut self, item: String)
        ensures
            final(self)@ == (StringListView {
                list: if old(self)@.list.contains(item@) {
                    old(self)@.list
                } else {
                    old(self)@.list.push(item@)
                },
                ..old(self)@
            }),
    {
        if !self.holds(item.as_str()) {
            self.list.push(item);
            assert(self@.list =~= old(self)@.list.push(item@));
        }
    }

    /// Takes out the first occurrence of `item_name`, moving the last string
    /// into its place. Nothing changes where the list does not hold it.
    pub fn swap_remove(&mut self, item_name: &str)
        ensures
            final(self)@ == (StringListView {
                list: without_first(old(self)@.list, item_name@),
                ..old(self)@
            }),
    {
        let mut i: usize = 0;
        while i < self.list.len()
            invariant
                self == old(self),
                0 <= i <= self.list@.len(),
                forall|j: int| 0 <= j < i ==> strings_view(self.list@)[j] != item_name@,
            decreases self.list@.len() - i,
        {
            if str_same(self.list[i].as_str(), item_name) {
                proof {
                    let s = old(self)@.list;
                    assert(s[i as int] == item_name@);
                    assert(first_place(s, item_name@, i as int));
                    let c = choose|c: int| first_place(s, item_name@, c);
                    lemma_first_place_unique(s, item_name@, i as int, c);
                }
                self.list.swap_remove(i);
                assert(self@.list =~= swap_removed(old(self)@.list, i as int));
                return ;
            }
            i = i + 1;
        }
    }

    /// The state of the entry field, to be read and changed in place.
    pub fn new_name(&mut self) -> (r: &mut NewStringStatus)
        ensures
            (*r)@ == old(self)@.new,
            final(self)@ == (StringListView { new: (*final(r))@, ..old(self)@ }),
    {
        &mut self.new
    }

    /// The string under the pointer, if any.
    pub fn hovered_name(&self) -> (r: Option<&str>)
        ensures
            chars_ref_opt(r) == self@.hovered,
    {
        match &self.hovered {
            Some(s) => Some(s.as_str()),
            None => None,
        }
    }

    /// Sets the state of the entry field.
    pub fn set_new(&mut self, name: NewStringStatus)
        ensures
            final(self)@ == (StringListView { new: name@, ..old(self)@ }),
    {
        self.new = name;
    }

    /// Sets the string under the pointer.
    pub fn set_hovered(&mut self, name: Option<String>)
        ensures
            final(self)@ == (StringListView { hovered: chars_opt(name), ..old(self)@ }),
    {
        self.hovered = name;
    }
}

} // verus!

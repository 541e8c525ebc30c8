//! The queue of commands: the one waiting to be carried out, and the inverses
//! of those that were.

use crate::action::{actions_view, ActionNode, ActionView};
use crate::app_data::{apply_node, AppData};
use vstd::prelude::*;

verus! {

/// One pending sequence of commands, the stack of inverses that undo what was
/// carried out, and a stack of sequences that were carried out.
pub struct TodoUndo {
    todo: Option<ActionNode>,
    undo: Vec<ActionNode>,
    done: Vec<ActionNode>,
}

/// The queue as a mathematical value.
pub struct TodoUndoView {
    pub todo: Option<Seq<ActionView>>,
    pub undo: Seq<Seq<ActionView>>,
    pub done: Seq<Seq<ActionView>>,
}

/// The sequences of commands of a stack as mathematical values.
pub open spec fn nodes_view(nodes: Seq<ActionNode>) -> Seq<Seq<ActionView>> {
    Seq::new(nodes.len(), |i: int| actions_view(nodes[i]@))
}

impl View for TodoUndo {
    type V = TodoUndoView;

    closed spec fn view(&self) -> TodoUndoView {
        TodoUndoView {
            todo: match self.todo {
                Some(node) => Some(actions_view(node@)),
                None => None,
            },
            undo: nodes_view(self.undo@),
            done: nodes_view(self.done@),
        }
    }
}

impl Default for TodoUndo {
    /// Nothing pending, nothing to undo, nothing done.
    fn default() -> (r: Self)
        ensures
            r@ == (TodoUndoView { todo: None, undo: Seq::empty(), done: Seq::empty() }),
    {
        let r = TodoUndo { todo: None, undo: Vec::new(), done: Vec::new() };
        assert(r@.undo =~= Seq::empty() && r@.done =~= Seq::empty());
        r
    }
}

impl TodoUndo {
    /// Takes the pending sequence out of the queue, which then has none.
    pub fn todo(&mut self) -> (r: Option<ActionNode>)
        ensures
            final(self)@ == (TodoUndoView { todo: None, ..old(self)@ }),
            match r {
                Some(node) => old(self)@.todo == Some(actions_view(node@)),
                None => old(self)@.todo is None,
            },
    {
        self.todo.take()
    }

    /// Makes `actions` the pending sequence and empties the stack of what
    /// was done. A sequence that was pending is dropped and never carried out.
    pub fn add_todo(&mut self, actions: ActionNode)
        ensures
            final(self)@ == (TodoUndoView {
                todo: Some(actions_view(actions@)),
                done: Seq::empty(),
                ..old(self)@
            }),
    {
        self.todo = Some(actions);
        self.done.clear();
        assert(self@.done =~= Seq::empty());
    }

    /// Pushes a sequence that was carried out.
    pub fn add_done(&mut self, actions: ActionNode)
        ensures
            final(self)@ == (TodoUndoView {
                done: old(self)@.done.push(actions_view(actions@)),
                ..old(self)@
            }),
    {
        self.done.push(actions);
        assert(self@.done =~= old(self)@.done.push(actions_view(actions@)));
    }

    /// Pushes the inverse of a sequence that was carried out.
    pub fn add_undo(&mut self, actions: ActionNode)
        ensures
            final(self)@ == (TodoUndoView {
                undo: old(self)@.undo.push(actions_view(actions@)),
                ..old(self)@
            }),
    {
        self.undo.push(actions);
        assert(self@.undo =~= old(self)@.undo.push(actions_view(actions@)));
    }

    /// Drops the pending sequence.
    pub fn clear_todo(&mut self)
        ensures
            final(self)@ == (TodoUndoView { todo: None, ..old(self)@ }),
    {
        self.todo = None;
    }

    /// Empties the stack of what was done.
    pub fn clear_done(&mut self)
        ensures
            final(self)@ == (TodoUndoView { done: Seq::empty(), ..old(self)@ }),
    {
        self.done.clear();
        assert(self@.done =~= Seq::empty());
    }

    /// Empties the stack of inverses.
    pub fn clear_undo(&mut self)
        ensures
            final(self)@ == (TodoUndoView { undo: Seq::empty(), ..old(self)@ }),
    {
        self.undo.clear();
        assert(self@.undo =~= Seq::empty());
    }

    /// Carries out the pending sequence, if there is one, on `data`, and
    /// pushes its inverse on the stack of inverses. The queue then has nothing
    /// pending.
    pub fn run_todo(&mut self, data: &mut AppData)
        requires
            old(data).wf(),
        ensures
            final(data).wf(),
            final(data).loaded_from() == old(data).loaded_from(),
            final(data).sortings() == old(data).sortings(),
            match old(self)@.todo {
                Some(actions) => {
                    &&& final(data)@ == apply_node(old(data)@, actions).0
                    &&& final(self)@ == (TodoUndoView {
                        todo: None,
                        undo: old(self)@.undo.push(apply_node(old(data)@, actions).1),
                        ..old(self)@
                    })
                },
                None => final(data)@ == old(data)@ && final(self)@ == old(self)@,
            },
    {
        if let Some(todo) = self.todo() {
            let undo = data.do_action(&todo);
            self.add_undo(undo);
        }
    }
}

} // verus!

use vstd::prelude::*;

use crate::sql::{SELECT_ALL_TODOS, SELECT_COMPLETED_TODOS, SELECT_NOT_COMPLETED_TODOS};

verus! {

/// Which todos a listing selects, by completion state.
#[derive(Debug, Clone, Copy, PartialEq, Eq, Structural)]
pub enum TodosFilter {
    All,
    Completed,
    NotCompleted,
}

impl TodosFilter {
    /// Whether a todo with the given completion state passes this filter.
    pub open spec fn admits(self, completed: bool) -> bool {
        match self {
            TodosFilter::All => true,
            TodosFilter::Completed => completed,
            TodosFilter::NotCompleted => !completed,
        }
    }

    /// Executable form of `admits`.
    pub fn accepts(&self, completed: bool) -> (r: bool)
        ensures
            r == self.admits(completed),
    {
        match self {
            TodosFilter::All => true,
            TodosFilter::Completed => completed,
            TodosFilter::NotCompleted => !completed,
        }
    }

    /// The query that lists the todos passing this filter from the store.
    pub fn select_query(&self) -> (r: &'static str)
        ensures
            r@ == match self {
                TodosFilter::All => SELECT_ALL_TODOS@,
                TodosFilter::Completed => SELECT_COMPLETED_TODOS@,
                TodosFilter::NotCompleted => SELECT_NOT_COMPLETED_TODOS@,
            },
    {
        match self {
            TodosFilter::All => SELECT_ALL_TODOS,
            TodosFilter::Completed => SELECT_COMPLETED_TODOS,
            TodosFilter::NotCompleted => SELECT_NOT_COMPLETED_TODOS,
        }
    }
}

/// One task. `id` is the 128-bit value of its UUID.
#[derive(Debug, Clone)]
pub struct Todo {
    pub id: u128,
    pub content: String,
    pub completed: bool,
}

impl Todo {
    /// A field-for-field copy.
    pub fn duplicate(&self) -> (r: Todo)
        ensures
            r == *self,
    {
        Todo { id: self.id, content: self.content.clone(), completed: self.completed }
    }
}

/// The todos of `todos` that pass `filter`, in their original order.
pub open spec fn selected(todos: Seq<Todo>, filter: TodosFilter) -> Seq<Todo> {
    todos.filter(|t: Todo| filter.admits(t.completed))
}

/// Copies out the todos that pass `filter`, keeping their order.
pub fn filter_todos(todos: &[Todo], filter: TodosFilter) -> (r: Vec<Todo>)
    ensures
        r@ == selected(todos@, filter),
{
    let mut out: Vec<Todo> = Vec::with_capacity(todos.len());
    let mut i: usize = 0;
    while i < todos.len()
        invariant
            i <= todos@.len(),
            out@ == selected(todos@.subrange(0, i as int), filter),
        decreases todos@.len() - i,
    {
        let todo = &todos[i];
        proof {
            let pred = |t: Todo| filter.admits(t.completed);
            assert(todos@.subrange(0, i + 1) =~= todos@.subrange(0, i as int).push(*todo));
            todos@.subrange(0, i as int).lemma_filter_push(*todo, pred);
        }
        if filter.accepts(todo.completed) {
            out.push(todo.duplicate());
        }
        i = i + 1;
    }
    assert(todos@.subrange(0, todos@.len() as int) =~= todos@);
    out
}

} // verus!

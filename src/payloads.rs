use vstd::prelude::*;

use crate::todos::TodosFilter;

verus! {

/// The query of a listing: which todos to return.
#[derive(Debug, Clone, Copy, PartialEq, Eq, Structural)]
pub struct TodosFilterRequest {
    pub filter: TodosFilter,
}

impl Default for TodosFilterRequest {
    /// A listing with no query lists every todo.
    fn default() -> (r: Self)
        ensures
            r.filter == TodosFilter::All,
    {
        Self { filter: TodosFilter::All }
    }
}

/// The body of a creation: the new todo's text.
#[derive(Debug, Clone, PartialEq, Eq)]
pub struct NewTodoRequest {
    pub content: String,
}

/// The body of a completion change: the state to set.
#[derive(Debug, Clone, Copy, PartialEq, Eq, Structural)]
pub struct TodoCompletedRequest {
    pub completed: bool,
}

} // verus!

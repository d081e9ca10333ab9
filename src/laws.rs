use vstd::prelude::*;

use crate::store::{completion_set, has_id, ids_unique, with_completion};
use crate::todos::{selected, Todo, TodosFilter};

verus! {

/// A listing under `filter` holds exactly the stored todos that pass it: each
/// of them, and nothing else.
pub proof fn lemma_selection_is_exact(todos: Seq<Todo>, filter: TodosFilter)
    ensures
        forall|t: Todo|
            #[trigger] selected(todos, filter).contains(t) <==> (todos.contains(t)
                && filter.admits(t.completed)),
{
    let pred = |t: Todo| filter.admits(t.completed);
    assert forall|t: Todo| #[trigger] selected(todos, filter).contains(t) <==> (todos.contains(t)
        && filter.admits(t.completed)) by {
        if selected(todos, filter).contains(t) {
            todos.lemma_filter_contains_rev(pred, t);
            let k = choose|k: int| 0 <= k < todos.filter(pred).len() && todos.filter(pred)[k] == t;
            todos.lemma_filter_pred(pred, k);
        }
        if todos.contains(t) && filter.admits(t.completed) {
            let k = choose|k: int| 0 <= k < todos.len() && todos[k] == t;
            todos.lemma_filter_contains(pred, k);
        }
    }
}

/// After a todo is created under an identifier not yet in use, an unfiltered
/// listing holds it with its content and not completed, and identifiers stay
/// unique.
pub proof fn lemma_created_todo_is_listed(todos: Seq<Todo>, id: u128, content: String)
    requires
        ids_unique(todos),
        !has_id(todos, id),
    ensures
        selected(todos.push(Todo { id, content, completed: false }), TodosFilter::All).contains(
            Todo { id, content, completed: false },
        ),
        ids_unique(todos.push(Todo { id, content, completed: false })),
{
    let t = Todo { id, content, completed: false };
    let after = todos.push(t);
    lemma_selection_is_exact(after, TodosFilter::All);
    assert(after[todos.len() as int] == t);
    assert forall|i: int, j: int|
        0 <= i < after.len() && 0 <= j < after.len() && i != j implies #[trigger] after[i].id
        != #[trigger] after[j].id by {
        if i < todos.len() && j < todos.len() {
            assert(after[i] == todos[i] && after[j] == todos[j]);
        } else if i < todos.len() {
            assert(after[i] == todos[i]);
        } else {
            assert(after[j] == todos[j]);
        }
    }
}

/// The filter that selects todos whose completion state is `completed`.
pub open spec fn filter_for(completed: bool) -> TodosFilter {
    if completed {
        TodosFilter::Completed
    } else {
        TodosFilter::NotCompleted
    }
}

/// Setting the completion state of a stored todo puts it in the listing of
/// todos with that state.
pub proof fn lemma_completion_is_listed(todos: Seq<Todo>, id: u128, completed: bool)
    requires
        has_id(todos, id),
    ensures
        has_id(selected(with_completion(todos, id, completed), filter_for(completed)), id),
{
    let k = choose|k: int| 0 <= k < todos.len() && #[trigger] todos[k].id == id;
    let after = with_completion(todos, id, completed);
    let t = completion_set(todos[k], id, completed);
    assert(after[k] == t);
    let pred = |t: Todo| filter_for(completed).admits(t.completed);
    after.lemma_filter_contains(pred, k);
    let sel = selected(after, filter_for(completed));
    let w = choose|w: int| 0 <= w < sel.len() && sel[w] == t;
    assert(sel[w].id == id);
}

} // verus!

use vstd::prelude::*;

use crate::errors::{Error, ErrorKind};
use crate::ids::{new_todo_id, RANDOM_VERSION_VARIANT, VERSION_VARIANT_MASK};
use crate::todos::{filter_todos, selected, Todo, TodosFilter};

verus! {

/// Whether some todo of `todos` has identifier `id`.
pub open spec fn has_id(todos: Seq<Todo>, id: u128) -> bool {
    exists|i: int| 0 <= i < todos.len() && #[trigger] todos[i].id == id
}

/// No two todos share an identifier.
pub open spec fn ids_unique(todos: Seq<Todo>) -> bool {
    forall|i: int, j: int|
        0 <= i < todos.len() && 0 <= j < todos.len() && i != j ==> #[trigger] todos[i].id
            != #[trigger] todos[j].id
}

/// No stored identifier carries the bits of a random (version 4) UUID, so a
/// freshly drawn identifier cannot collide with any of them.
pub open spec fn holds_no_random_id(todos: Seq<Todo>) -> bool {
    forall|i: int|
        0 <= i < todos.len() ==> #[trigger] todos[i].id & VERSION_VARIANT_MASK
            != RANDOM_VERSION_VARIANT
}

/// `t` with its completion state set to `completed` when it has identifier `id`.
pub open spec fn completion_set(t: Todo, id: u128, completed: bool) -> Todo {
    if t.id == id {
        Todo { id: t.id, content: t.content, completed }
    } else {
        t
    }
}

/// The todos after setting the completion state of the one with identifier `id`.
pub open spec fn with_completion(todos: Seq<Todo>, id: u128, completed: bool) -> Seq<Todo> {
    todos.map_values(|t: Todo| completion_set(t, id, completed))
}

/// The todos without the one with identifier `id`.
pub open spec fn without_id(todos: Seq<Todo>, id: u128) -> Seq<Todo> {
    todos.filter(|t: Todo| t.id != id)
}


/// The todos kept in memory, in insertion order, with unique identifiers.
pub struct TodoStore {
    todos: Vec<Todo>,
}

impl View for TodoStore {
    type V = Seq<Todo>;

    closed spec fn view(&self) -> Seq<Todo> {
        self.todos@
    }
}

proof fn lemma_filter_keeps_unique(todos: Seq<Todo>, pred: spec_fn(Todo) -> bool)
    requires
        ids_unique(todos),
    ensures
        ids_unique(todos.filter(pred)),
    decreases todos.len(),
{
    reveal(Seq::filter);
    if todos.len() > 0 {
        let rest = todos.drop_last();
        let last = todos.last();
        assert(ids_unique(rest));
        lemma_filter_keeps_unique(rest, pred);
        if pred(last) {
            let sub = rest.filter(pred);
            assert forall|k: int| 0 <= k < sub.len() implies sub[k].id != last.id by {
                rest.lemma_filter_contains_rev(pred, sub[k]);
                let w = choose|w: int| 0 <= w < rest.len() && rest[w] == sub[k];
                assert(todos[w] == rest[w]);
                assert(todos[todos.len() - 1] == last);
            }
            assert(todos.filter(pred) == sub.push(last));
        }
    }
}

impl TodoStore {
    pub open spec fn wf(&self) -> bool {
        ids_unique(self@)
    }

    /// An empty store.
    pub fn new() -> (r: TodoStore)
        ensures
            r@ == Seq::<Todo>::empty(),
            r.wf(),
    {
        TodoStore { todos: Vec::new() }
    }

    /// Every todo in store order.
    pub fn todos(&self) -> (r: &Vec<Todo>)
        ensures
            r@ == self@,
    {
        &self.todos
    }

    /// The todos that pass `filter`, in store order.
    pub fn select_filtered(&self, filter: TodosFilter) -> (r: Vec<Todo>)
        ensures
            r@ == selected(self@, filter),
    {
        filter_todos(self.todos.as_slice(), filter)
    }

    /// Whether a todo with identifier `id` is stored.
    pub fn contains_id(&self, id: u128) -> (r: bool)
        ensures
            r == has_id(self@, id),
    {
        let mut i: usize = 0;
        while i < self.todos.len()
            invariant
                i <= self@.len(),
                forall|k: int| 0 <= k < i ==> #[trigger] self@[k].id != id,
            decreases self@.len() - i,
        {
            if self.todos[i].id == id {
                return true;
            }
            i = i + 1;
        }
        false
    }

    /// Adds a not-completed todo under identifier `id`; refuses an identifier
    /// already in use.
    pub fn insert_with_id(&mut self, id: u128, content: String) -> (r: Result<(), Error>)
        requires
            old(self).wf(),
        ensures
            final(self).wf(),
            r is Ok <==> !has_id(old(self)@, id),
            r is Ok ==> final(self)@ == old(self)@.push(
                Todo { id, content, completed: false },
            ),
            r is Err ==> final(self)@ == old(self)@ && r->Err_0.kind == ErrorKind::Store,
    {
        if self.contains_id(id) {
            return Err(Error::with_text(ErrorKind::Store, "todo identifier already in use"));
        }
        let ghost before = self@;
        self.todos.push(Todo { id, content, completed: false });
        assert(ids_unique(self@)) by {
            assert forall|i: int, j: int|
                0 <= i < self@.len() && 0 <= j < self@.len() && i != j implies
                #[trigger] self@[i].id != #[trigger] self@[j].id by {
                if i < before.len() && j < before.len() {
                    assert(self@[i] == before[i] && self@[j] == before[j]);
                } else if i < before.len() {
                    assert(self@[i] == before[i]);
                } else {
                    assert(self@[j] == before[j]);
                }
            }
        }
        Ok(())
    }

    /// Adds a not-completed todo under a freshly generated identifier and
    /// returns that identifier.
    pub fn insert(&mut self, content: String) -> (r: Result<u128, Error>)
        requires
            old(self).wf(),
        ensures
            final(self).wf(),
            holds_no_random_id(old(self)@) ==> r is Ok,
            r is Ok ==> !has_id(old(self)@, r->Ok_0) && final(self)@ == old(self)@.push(
                Todo { id: r->Ok_0, content, completed: false },
            ),
            r is Err ==> final(self)@ == old(self)@ && r->Err_0.kind == ErrorKind::Store,
    {
        let id = new_todo_id();
        match self.insert_with_id(id, content) {
            Ok(()) => Ok(id),
            Err(e) => Err(e),
        }
    }

    /// Sets the completion state of the todo with identifier `id`; reports
    /// not-found, and changes nothing, when there is none.
    pub fn set_completion(&mut self, id: u128, completed: bool) -> (r: Result<(), Error>)
        requires
            old(self).wf(),
        ensures
            final(self).wf(),
            r is Ok <==> has_id(old(self)@, id),
            r is Ok ==> final(self)@ == with_completion(old(self)@, id, completed),
            r is Err ==> final(self)@ == old(self)@ && r->Err_0.kind == ErrorKind::NotFound,
    {
        let mut out: Vec<Todo> = Vec::with_capacity(self.todos.len());
        let mut found = false;
        let mut i: usize = 0;
        while i < self.todos.len()
            invariant
                i <= self.todos@.len(),
                out@ == with_completion(self.todos@.subrange(0, i as int), id, completed),
                found == has_id(self.todos@.subrange(0, i as int), id),
            decreases self.todos@.len() - i,
        {
            let todo = &self.todos[i];
            proof {
                let pre = self.todos@.subrange(0, i as int);
                let post = self.todos@.subrange(0, i + 1);
                assert(post =~= pre.push(*todo));
                assert(with_completion(post, id, completed) =~= with_completion(pre, id, completed).push(
                    completion_set(*todo, id, completed),
                ));
                if has_id(post, id) {
                    let w = choose|w: int| 0 <= w < post.len() && #[trigger] post[w].id == id;
                    if w < i {
                        assert(pre[w] == post[w]);
                    }
                }
                if has_id(pre, id) {
                    let w = choose|w: int| 0 <= w < pre.len() && #[trigger] pre[w].id == id;
                    assert(post[w] == pre[w]);
                }
                assert(post[i as int] == *todo);
            }
            if todo.id == id {
                found = true;
                out.push(Todo { id: todo.id, content: todo.content.clone(), completed });
            } else {
                out.push(todo.duplicate());
            }
            i = i + 1;
        }
        assert(self.todos@.subrange(0, self@.len() as int) =~= self@);
        if !found {
            return Err(Error::with_text(ErrorKind::NotFound, "todo not found"));
        }
        let ghost before = self@;
        self.todos = out;
        assert(ids_unique(self@)) by {
            assert forall|a: int, b: int|
                0 <= a < self@.len() && 0 <= b < self@.len() && a != b implies
                #[trigger] self@[a].id != #[trigger] self@[b].id by {
                assert(self@[a].id == before[a].id);
                assert(self@[b].id == before[b].id);
            }
        }
        Ok(())
    }

    /// Deletes the todo with identifier `id`; reports not-found, and changes
    /// nothing, when there is none.
    pub fn remove(&mut self, id: u128) -> (r: Result<(), Error>)
        requires
            old(self).wf(),
        ensures
            final(self).wf(),
            r is Ok <==> has_id(old(self)@, id),
            r is Ok ==> final(self)@ == without_id(old(self)@, id),
            r is Err ==> final(self)@ == old(self)@ && r->Err_0.kind == ErrorKind::NotFound,
    {
        let mut out: Vec<Todo> = Vec::with_capacity(self.todos.len());
        let mut found = false;
        let mut i: usize = 0;
        while i < self.todos.len()
            invariant
                i <= self.todos@.len(),
                out@ == without_id(self.todos@.subrange(0, i as int), id),
                found == has_id(self.todos@.subrange(0, i as int), id),
            decreases self.todos@.len() - i,
        {
            let todo = &self.todos[i];
            proof {
                let pre = self.todos@.subrange(0, i as int);
                let post = self.todos@.subrange(0, i + 1);
                assert(post =~= pre.push(*todo));
                pre.lemma_filter_push(*todo, |t: Todo| t.id != id);
                if has_id(post, id) {
                    let w = choose|w: int| 0 <= w < post.len() && #[trigger] post[w].id == id;
                    if w < i {
                        assert(pre[w] == post[w]);
                    }
                }
                if has_id(pre, id) {
                    let w = choose|w: int| 0 <= w < pre.len() && #[trigger] pre[w].id == id;
                    assert(post[w] == pre[w]);
                }
                assert(post[i as int] == *todo);
            }
            if todo.id == id {
                found = true;
            } else {
                out.push(todo.duplicate());
            }
            i = i + 1;
        }
        assert(self.todos@.subrange(0, self@.len() as int) =~= self@);
        if !found {
            return Err(Error::with_text(ErrorKind::NotFound, "todo not found"));
        }
        proof {
            lemma_filter_keeps_unique(self@, |t: Todo| t.id != id);
        }
        self.todos = out;
        Ok(())
    }
}

} // verus!

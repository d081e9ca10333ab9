use vstd::prelude::*;

use crate::auth::{auth, AuthGate, Credentials};
use crate::errors::{Error, ErrorKind};
use crate::ids::{parse_todo_id, parsed_uuid};
use crate::payloads::{NewTodoRequest, TodoCompletedRequest, TodosFilterRequest};
use crate::store::{has_id, holds_no_random_id, with_completion, without_id, TodoStore};
use crate::todos::{selected, Todo, TodosFilter};

verus! {

/// A request to a protected route, as it arrives: identifiers still text.
#[derive(Debug, Clone)]
pub enum Request {
    /// `GET /todos`, with or without a query.
    ListTodos(Option<TodosFilterRequest>),
    /// `POST /todos/new`.
    CreateTodo(NewTodoRequest),
    /// `PUT /todos/{id}/set-completion`.
    SetTodoCompletion(String, TodoCompletedRequest),
    /// `DELETE /todos/{id}/remove`.
    RemoveTodo(String),
}

/// A validated request, ready to run against the store.
#[derive(Debug, Clone)]
pub enum Command {
    List(TodosFilter),
    Create(String),
    SetCompletion(u128, bool),
    Remove(u128),
}

/// What a request ends in.
#[derive(Debug, Clone)]
pub enum Reply {
    /// A listing, sent with status 200.
    Todos(Vec<Todo>),
    /// A mutation that took effect, sent with status 204 and no body.
    NoContent,
    /// A failure, sent with its kind's status.
    Failed(Error),
}

impl Reply {
    pub open spec fn status(&self) -> u16 {
        match self {
            Reply::Todos(_) => 200,
            Reply::NoContent => 204,
            Reply::Failed(e) => e.kind.status(),
        }
    }

    /// The HTTP status that carries this reply.
    pub fn status_code(&self) -> (r: u16)
        ensures
            r == self.status(),
    {
        match self {
            Reply::Todos(_) => 200,
            Reply::NoContent => 204,
            Reply::Failed(e) => e.status_code(),
        }
    }
}

/// The filter a listing asks for; no query means every todo.
pub open spec fn requested_filter(query: Option<TodosFilterRequest>) -> TodosFilter {
    match query {
        Some(q) => q.filter,
        None => TodosFilter::All,
    }
}

/// The command a request stands for, given what its identifier text parses to
/// (`None` when it is malformed or the body is empty).
pub open spec fn command_of(request: Request) -> Option<Command> {
    match request {
        Request::ListTodos(query) => Some(Command::List(requested_filter(query))),
        Request::CreateTodo(body) => if body.content@.len() == 0 {
            None
        } else {
            Some(Command::Create(body.content))
        },
        Request::SetTodoCompletion(text, body) => match parsed_uuid(text@) {
            Some(id) => Some(Command::SetCompletion(id, body.completed)),
            None => None,
        },
        Request::RemoveTodo(text) => match parsed_uuid(text@) {
            Some(id) => Some(Command::Remove(id)),
            None => None,
        },
    }
}

/// Checks a request's identifier and body and turns it into a command.
pub fn validate(request: Request) -> (r: Result<Command, Error>)
    ensures
        match command_of(request) {
            Some(c) => r == Ok::<Command, Error>(c),
            None => r is Err && r->Err_0.kind == ErrorKind::Validation,
        },
{
    match request {
        Request::ListTodos(query) => {
            let filter = match query {
                Some(q) => q.filter,
                None => TodosFilterRequest::default().filter,
            };
            Ok(Command::List(filter))
        },
        Request::CreateTodo(body) => {
            if body.content.as_str().unicode_len() == 0 {
                Err(Error::with_text(ErrorKind::Validation, "todo content is empty"))
            } else {
                Ok(Command::Create(body.content))
            }
        },
        Request::SetTodoCompletion(text, body) => {
            let id = parse_todo_id(text.as_str())?;
            Ok(Command::SetCompletion(id, body.completed))
        },
        Request::RemoveTodo(text) => {
            let id = parse_todo_id(text.as_str())?;
            Ok(Command::Remove(id))
        },
    }
}

/// How running `command` on a store holding `before` may end, with the store
/// then holding `after` and the request answered with `reply`.
pub open spec fn executed(before: Seq<Todo>, command: Command, after: Seq<Todo>, reply: Reply) -> bool {
    match command {
        Command::List(filter) => after == before && reply is Todos && reply->Todos_0@ == selected(
            before,
            filter,
        ),
        Command::Create(content) => (holds_no_random_id(before) ==> reply is NoContent) && match reply {
            Reply::NoContent => exists|id: u128|
                !has_id(before, id) && after == before.push(
                    Todo { id, content, completed: false },
                ),
            Reply::Failed(e) => e.kind == ErrorKind::Store && after == before,
            Reply::Todos(_) => false,
        },
        Command::SetCompletion(id, completed) => if has_id(before, id) {
            reply is NoContent && after == with_completion(before, id, completed)
        } else {
            reply is Failed && reply->Failed_0.kind == ErrorKind::NotFound && after == before
        },
        Command::Remove(id) => if has_id(before, id) {
            reply is NoContent && after == without_id(before, id)
        } else {
            reply is Failed && reply->Failed_0.kind == ErrorKind::NotFound && after == before
        },
    }
}

/// Runs a validated command against the store.
pub fn execute(store: &mut TodoStore, command: Command) -> (r: Reply)
    requires
        old(store).wf(),
    ensures
        final(store).wf(),
        executed(old(store)@, command, final(store)@, r),
{
    match command {
        Command::List(filter) => Reply::Todos(store.select_filtered(filter)),
        Command::Create(content) => match store.insert(content) {
            Ok(_) => Reply::NoContent,
            Err(e) => Reply::Failed(e),
        },
        Command::SetCompletion(id, completed) => match store.set_completion(id, completed) {
            Ok(()) => Reply::NoContent,
            Err(e) => Reply::Failed(e),
        },
        Command::Remove(id) => match store.remove(id) {
            Ok(()) => Reply::NoContent,
            Err(e) => Reply::Failed(e),
        },
    }
}

/// Answers a request to a protected route: credentials are checked before anything else,
/// then the identifier and body, then the store. A refused or malformed request leaves
/// the store as it was.
pub fn handle(
    store: &mut TodoStore,
    gate: &AuthGate,
    credentials: Option<&Credentials>,
    request: Request,
) -> (r: Reply)
    requires
        old(store).wf(),
    ensures
        final(store).wf(),
        !gate.admits(
            match credentials {
                Some(c) => Some(*c),
                None => None,
            },
        ) ==> final(store)@ == old(store)@ && r is Failed && r->Failed_0.kind
            == ErrorKind::Unauthorized,
        gate.admits(
            match credentials {
                Some(c) => Some(*c),
                None => None,
            },
        ) ==> match command_of(request) {
            Some(c) => executed(old(store)@, c, final(store)@, r),
            None => final(store)@ == old(store)@ && r is Failed && r->Failed_0.kind
                == ErrorKind::Validation,
        },
{
    if let Err(e) = auth(gate, credentials) {
        return Reply::Failed(e);
    }
    match validate(request) {
        Ok(command) => execute(store, command),
        Err(e) => Reply::Failed(e),
    }
}

/// Reads the outcome of an update or delete that addressed one todo from the
/// number of rows it touched: none means the todo does not exist.
pub fn mutation_outcome(rows_affected: u64) -> (r: Result<(), Error>)
    ensures
        r is Ok <==> rows_affected > 0,
        r is Err ==> r->Err_0.kind == ErrorKind::NotFound,
{
    if rows_affected == 0 {
        Err(Error::with_text(ErrorKind::NotFound, "todo not found"))
    } else {
        Ok(())
    }
}

} // verus!

use todo_service::auth::{auth, AuthGate, Credentials};
use todo_service::errors::ErrorKind;
use todo_service::handlers::{execute, handle, mutation_outcome, validate, Command, Reply, Request};
use todo_service::ids::{new_todo_id, parse_todo_id, RANDOM_VERSION_VARIANT, VERSION_VARIANT_MASK};
use todo_service::migrations::{next_step, plan_migrations, SchemaChange, LATEST_VERSION};
use todo_service::payloads::{NewTodoRequest, TodoCompletedRequest, TodosFilterRequest};
use todo_service::sql::{CREATE_TODOS_TABLE, SELECT_ALL_TODOS, SELECT_COMPLETED_TODOS, SELECT_NOT_COMPLETED_TODOS};
use todo_service::store::TodoStore;
use todo_service::todos::{filter_todos, Todo, TodosFilter};

fn todo(id: u128, content: &str, completed: bool) -> Todo {
    Todo { id, content: content.to_string(), completed }
}

fn admin() -> Credentials {
    Credentials { username: "admin".to_string(), password: "admin".to_string() }
}

fn listed(reply: Reply) -> Vec<Todo> {
    match reply {
        Reply::Todos(todos) => todos,
        other => panic!("expected a listing, got {:?}", other),
    }
}

fn contents(todos: &[Todo]) -> Vec<(u128, String, bool)> {
    todos.iter().map(|t| (t.id, t.content.clone(), t.completed)).collect()
}

fn list(store: &mut TodoStore, filter: Option<TodosFilter>) -> Vec<Todo> {
    let gate = AuthGate::fixed();
    let query = filter.map(|filter| TodosFilterRequest { filter });
    listed(handle(store, &gate, Some(&admin()), Request::ListTodos(query)))
}

fn create(store: &mut TodoStore, content: &str) -> u16 {
    let gate = AuthGate::fixed();
    let request = Request::CreateTodo(NewTodoRequest { content: content.to_string() });
    handle(store, &gate, Some(&admin()), request).status_code()
}

fn hyphenated(id: u128) -> String {
    let h = format!("{:032x}", id);
    format!("{}-{}-{}-{}-{}", &h[0..8], &h[8..12], &h[12..16], &h[16..20], &h[20..32])
}

#[test]
fn filter_todos_selects_by_completion() {
    let todos = vec![todo(1, "a", false), todo(2, "b", true), todo(3, "c", false)];
    assert_eq!(contents(&filter_todos(&todos, TodosFilter::All)), contents(&todos));
    assert_eq!(
        contents(&filter_todos(&todos, TodosFilter::Completed)),
        vec![(2, "b".to_string(), true)]
    );
    assert_eq!(
        contents(&filter_todos(&todos, TodosFilter::NotCompleted)),
        vec![(1, "a".to_string(), false), (3, "c".to_string(), false)]
    );
    assert!(filter_todos(&[], TodosFilter::Completed).is_empty());
}

#[test]
fn insert_then_list_all_shows_new_todo() {
    let mut store = TodoStore::new();
    let id = store.insert("write tests".to_string()).unwrap();
    let all = store.select_filtered(TodosFilter::All);
    assert_eq!(contents(&all), vec![(id, "write tests".to_string(), false)]);
    let other = store.insert("write more".to_string()).unwrap();
    assert_ne!(id, other);
}

#[test]
fn insert_with_used_id_is_a_store_error() {
    let mut store = TodoStore::new();
    store.insert_with_id(7, "first".to_string()).unwrap();
    let err = store.insert_with_id(7, "second".to_string()).unwrap_err();
    assert_eq!(err.kind, ErrorKind::Store);
    assert_eq!(err.status_code(), 500);
    assert_eq!(contents(store.todos()), vec![(7, "first".to_string(), false)]);
}

#[test]
fn completion_moves_todo_between_listings() {
    let mut store = TodoStore::new();
    store.insert_with_id(1, "x".to_string()).unwrap();
    store.insert_with_id(2, "y".to_string()).unwrap();
    store.set_completion(1, true).unwrap();
    assert_eq!(contents(&store.select_filtered(TodosFilter::Completed)), vec![(1, "x".to_string(), true)]);
    store.set_completion(1, false).unwrap();
    assert!(store.select_filtered(TodosFilter::Completed).is_empty());
    assert_eq!(store.select_filtered(TodosFilter::NotCompleted).len(), 2);
    // setting the state a todo already has still counts as found
    store.set_completion(2, false).unwrap();
}

#[test]
fn unknown_id_is_not_found_for_completion_and_removal() {
    let mut store = TodoStore::new();
    store.insert_with_id(1, "x".to_string()).unwrap();
    assert_eq!(store.set_completion(9, true).unwrap_err().kind, ErrorKind::NotFound);
    assert_eq!(store.remove(9).unwrap_err().kind, ErrorKind::NotFound);
    assert_eq!(contents(store.todos()), vec![(1, "x".to_string(), false)]);
    store.remove(1).unwrap();
    assert!(store.todos().is_empty());
    assert_eq!(store.remove(1).unwrap_err().kind, ErrorKind::NotFound);
}

#[test]
fn completed_listing_holds_only_the_completed_todo() {
    let mut store = TodoStore::new();
    let gate = AuthGate::fixed();
    assert_eq!(create(&mut store, "a"), 204);
    assert_eq!(create(&mut store, "b"), 204);
    let b = list(&mut store, Some(TodosFilter::All)).into_iter().find(|t| t.content == "b").unwrap();
    let request = Request::SetTodoCompletion(hyphenated(b.id), TodoCompletedRequest { completed: true });
    assert_eq!(handle(&mut store, &gate, Some(&admin()), request).status_code(), 204);
    let done = list(&mut store, Some(TodosFilter::Completed));
    assert_eq!(done.len(), 1);
    assert_eq!(done[0].content, "b");
    assert!(done[0].completed);
}

#[test]
fn delete_of_unknown_id_is_404_and_changes_nothing() {
    let mut store = TodoStore::new();
    let gate = AuthGate::fixed();
    create(&mut store, "keep me");
    let before = contents(&list(&mut store, Some(TodosFilter::All)));
    let request = Request::RemoveTodo("550e8400-e29b-41d4-a716-446655440000".to_string());
    assert_eq!(handle(&mut store, &gate, Some(&admin()), request).status_code(), 404);
    assert_eq!(contents(&list(&mut store, Some(TodosFilter::All))), before);
}

#[test]
fn missing_or_wrong_credentials_are_401_and_change_nothing() {
    let mut store = TodoStore::new();
    let gate = AuthGate::fixed();
    create(&mut store, "a");
    let before = contents(store.todos());
    let wrong = Credentials { username: "admin".to_string(), password: "guess".to_string() };
    let requests = vec![
        Request::ListTodos(None),
        Request::CreateTodo(NewTodoRequest { content: "b".to_string() }),
        Request::SetTodoCompletion(hyphenated(before[0].0), TodoCompletedRequest { completed: true }),
        Request::RemoveTodo(hyphenated(before[0].0)),
    ];
    for request in requests {
        assert_eq!(handle(&mut store, &gate, None, request.clone()).status_code(), 401);
        assert_eq!(handle(&mut store, &gate, Some(&wrong), request).status_code(), 401);
    }
    assert_eq!(contents(store.todos()), before);
}

#[test]
fn listing_without_query_lists_everything() {
    let mut store = TodoStore::new();
    create(&mut store, "a");
    assert_eq!(list(&mut store, None).len(), 1);
    assert_eq!(TodosFilterRequest::default().filter, TodosFilter::All);
}

#[test]
fn malformed_requests_are_validation_errors() {
    let mut store = TodoStore::new();
    let gate = AuthGate::fixed();
    let bad_id = Request::RemoveTodo("not-a-uuid".to_string());
    assert_eq!(handle(&mut store, &gate, Some(&admin()), bad_id).status_code(), 400);
    let empty = Request::CreateTodo(NewTodoRequest { content: String::new() });
    assert_eq!(handle(&mut store, &gate, Some(&admin()), empty).status_code(), 400);
    assert!(store.todos().is_empty());
}

#[test]
fn validate_turns_requests_into_commands() {
    let text = "a1a2a3a4-b1b2-c1c2-d1d2-d3d4d5d6d7d8".to_string();
    match validate(Request::RemoveTodo(text.clone())).unwrap() {
        Command::Remove(id) => assert_eq!(id, 0xa1a2a3a4b1b2c1c2d1d2d3d4d5d6d7d8),
        other => panic!("unexpected {:?}", other),
    }
    match validate(Request::SetTodoCompletion(text, TodoCompletedRequest { completed: true })).unwrap() {
        Command::SetCompletion(id, true) => assert_eq!(id, 0xa1a2a3a4b1b2c1c2d1d2d3d4d5d6d7d8),
        other => panic!("unexpected {:?}", other),
    }
    match validate(Request::ListTodos(Some(TodosFilterRequest { filter: TodosFilter::NotCompleted }))).unwrap() {
        Command::List(TodosFilter::NotCompleted) => {}
        other => panic!("unexpected {:?}", other),
    }
}

#[test]
fn execute_reports_each_outcome() {
    let mut store = TodoStore::new();
    assert!(matches!(execute(&mut store, Command::Create("a".to_string())), Reply::NoContent));
    let id = store.todos()[0].id;
    assert!(matches!(execute(&mut store, Command::SetCompletion(id, true)), Reply::NoContent));
    assert_eq!(listed(execute(&mut store, Command::List(TodosFilter::Completed))).len(), 1);
    assert!(matches!(execute(&mut store, Command::Remove(id)), Reply::NoContent));
    assert_eq!(execute(&mut store, Command::Remove(id)).status_code(), 404);
}

#[test]
fn parse_todo_id_reads_uuid_text() {
    assert_eq!(
        parse_todo_id("a1a2a3a4-b1b2-c1c2-d1d2-d3d4d5d6d7d8").unwrap(),
        0xa1a2a3a4b1b2c1c2d1d2d3d4d5d6d7d8
    );
    assert_eq!(parse_todo_id("a1a2a3a4b1b2c1c2d1d2d3d4d5d6d7d8").unwrap(), 0xa1a2a3a4b1b2c1c2d1d2d3d4d5d6d7d8);
    assert_eq!(parse_todo_id("").unwrap_err().kind, ErrorKind::Validation);
    assert_eq!(parse_todo_id("a1a2a3a4-b1b2").unwrap_err().kind, ErrorKind::Validation);
}

#[test]
fn new_ids_are_random_version_four() {
    let a = new_todo_id();
    let b = new_todo_id();
    assert_eq!(a & VERSION_VARIANT_MASK, RANDOM_VERSION_VARIANT);
    assert_eq!(b & VERSION_VARIANT_MASK, RANDOM_VERSION_VARIANT);
    assert_ne!(a, b);
}

#[test]
fn gate_admits_only_its_pair() {
    let gate = AuthGate::fixed();
    assert!(gate.authorize(Some(&admin())));
    assert!(!gate.authorize(None));
    let wrong = Credentials { username: "root".to_string(), password: "admin".to_string() };
    assert!(!gate.authorize(Some(&wrong)));
    assert!(auth(&gate, Some(&admin())).is_ok());
    let err = auth(&gate, Some(&wrong)).unwrap_err();
    assert_eq!(err.kind, ErrorKind::Unauthorized);
    assert_eq!(err.status_code(), 401);
    let custom = AuthGate::new("alice".to_string(), "s3cret".to_string());
    let alice = Credentials { username: "alice".to_string(), password: "s3cret".to_string() };
    assert!(custom.authorize(Some(&alice)));
    assert!(!custom.authorize(Some(&admin())));
}

#[test]
fn pristine_store_runs_every_step() {
    let plan = plan_migrations(None);
    assert!(plan.initialize_marker);
    assert_eq!(plan.steps.len(), 1);
    assert_eq!(plan.steps[0].change, SchemaChange::CreateTodosTable);
    assert_eq!(plan.steps[0].version, 1);
    assert_eq!(plan.final_version, LATEST_VERSION);
    assert_eq!(plan.steps[0].change.statement(), CREATE_TODOS_TABLE);
}

#[test]
fn store_at_version_zero_is_migrated() {
    let plan = plan_migrations(Some(0));
    assert!(!plan.initialize_marker);
    assert_eq!(plan.steps.len(), 1);
    assert_eq!(plan.final_version, 1);
}

#[test]
fn migrated_store_is_left_alone() {
    let first = plan_migrations(None);
    let again = plan_migrations(Some(first.final_version));
    assert!(!again.initialize_marker);
    assert!(again.steps.is_empty());
    assert_eq!(again.final_version, first.final_version);
    let ahead = plan_migrations(Some(5));
    assert!(ahead.steps.is_empty());
    assert_eq!(ahead.final_version, 5);
    assert!(next_step(1).is_none());
}

#[test]
fn status_codes_follow_the_error_taxonomy() {
    assert_eq!(ErrorKind::Validation.status_code(), 400);
    assert_eq!(ErrorKind::NotFound.status_code(), 404);
    assert_eq!(ErrorKind::Unauthorized.status_code(), 401);
    assert_eq!(ErrorKind::Store.status_code(), 500);
    assert_eq!(ErrorKind::Timeout.status_code(), 503);
    assert_eq!(Reply::NoContent.status_code(), 204);
    assert_eq!(Reply::Todos(Vec::new()).status_code(), 200);
}

#[test]
fn row_counts_decide_not_found() {
    assert!(mutation_outcome(1).is_ok());
    assert!(mutation_outcome(3).is_ok());
    assert_eq!(mutation_outcome(0).unwrap_err().kind, ErrorKind::NotFound);
}

#[test]
fn each_filter_has_its_query() {
    assert_eq!(TodosFilter::All.select_query(), SELECT_ALL_TODOS);
    assert_eq!(TodosFilter::Completed.select_query(), SELECT_COMPLETED_TODOS);
    assert_eq!(TodosFilter::NotCompleted.select_query(), SELECT_NOT_COMPLETED_TODOS);
    assert!(SELECT_COMPLETED_TODOS.ends_with("completed = 1"));
}

#[test]
fn insert_succeeds_when_no_stored_id_looks_random() {
    let mut store = TodoStore::new();
    store.insert_with_id(7, "fixed id".to_string()).unwrap();
    let id = store.insert("drawn id".to_string()).unwrap();
    assert_eq!(id & VERSION_VARIANT_MASK, RANDOM_VERSION_VARIANT);
    assert!(matches!(execute(&mut store, Command::Create("another".to_string())), Reply::NoContent));
    assert_eq!(store.todos().len(), 3);
}

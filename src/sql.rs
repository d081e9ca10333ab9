use vstd::prelude::*;

verus! {

/// Creates the table that holds the migration marker.
pub const CREATE_MIGRATIONS_TABLE: &'static str =
    "CREATE TABLE IF NOT EXISTS migrations (version INTEGER NOT NULL)";

/// Reads the migration marker.
pub const SELECT_MIGRATION_VERSION: &'static str = "SELECT version FROM migrations";

/// Writes the marker of a pristine store.
pub const INSERT_PRISTINE_MARKER: &'static str = "INSERT INTO migrations VALUES (0)";

/// Moves the marker to the version bound as its one parameter.
pub const UPDATE_MIGRATION_VERSION: &'static str = "UPDATE migrations SET version = ?";

/// Creates the todos table.
pub const CREATE_TODOS_TABLE: &'static str =
    "CREATE TABLE IF NOT EXISTS todos (id BLOB PRIMARY KEY NOT NULL, content TEXT NOT NULL, completed BOOLEAN NOT NULL)";

/// Lists every todo.
pub const SELECT_ALL_TODOS: &'static str = "SELECT id, content, completed FROM todos";

/// Lists the completed todos.
pub const SELECT_COMPLETED_TODOS: &'static str =
    "SELECT id, content, completed FROM todos WHERE completed = 1";

/// Lists the todos not yet completed.
pub const SELECT_NOT_COMPLETED_TODOS: &'static str =
    "SELECT id, content, completed FROM todos WHERE completed = 0";

/// Adds a todo; binds identifier, content and completion state in that order.
pub const INSERT_TODO: &'static str = "INSERT INTO todos VALUES (?, ?, ?)";

/// Sets a todo's completion state; binds the state, then the identifier.
pub const UPDATE_TODO_COMPLETION: &'static str = "UPDATE todos SET completed = ? WHERE id = ?";

/// Deletes a todo; binds its identifier.
pub const DELETE_TODO: &'static str = "DELETE FROM todos WHERE id = ?";

} // verus!

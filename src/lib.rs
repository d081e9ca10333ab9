//! A small persisted task-list service: the todo model, its repository
//! operations, schema migration planning, the credential gate and the
//! composition of requests into replies.

pub mod todos;
pub mod errors;
pub mod ids;
pub mod store;
pub mod laws;
pub mod sql;
pub mod migrations;
pub mod payloads;
pub mod auth;
pub mod handlers;

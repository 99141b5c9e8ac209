//! A verified core for a todo-list CRUD service.
//!
//! The library holds the domain model, field validation, the semantics of
//! the backing `todos` table, the per-request handler pipelines, and the
//! translation of internal errors to HTTP status codes and client-facing
//! messages. Process wiring, the HTTP server and the real datastore live
//! outside the library and call into it with plain values.

pub mod clock;
pub mod errors;
pub mod handlers;
pub mod ident;
pub mod models;
pub mod store;

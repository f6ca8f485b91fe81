//! Verified core of a small task-tracking web service: request validation,
//! the authorization-header rules, the task status vocabulary, pagination
//! arithmetic, slug and identifier generation, and the shape of the rows that
//! the service stores.  The HTTP server and the database driver live in `app/`.

pub mod error;
pub mod text;
pub mod models;
pub mod utils;
pub mod db;
pub mod password;
pub mod handlers;
pub mod middleware;
pub mod account;

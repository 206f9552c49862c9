//! Request logic of a small todo-list web service with accounts and sessions.
//!
//! The crate holds what the service decides: how a session cookie is read
//! and written, when a session is still valid, how a registration or a login
//! proceeds, which error reaches the client and with which status, and what a
//! new todo item looks like. The server (routing, database, templates) drives
//! these functions and performs the actions they return.

pub mod errors;
pub mod token;
pub mod cookies;
pub mod time;
pub mod models;
pub mod ids;
pub mod credentials;
pub mod auth;
pub mod sessions;
pub mod todos;

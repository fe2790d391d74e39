//! Request handling for two small JSON services: an in-memory todo list and a
//! mock users API.
//!
//! The handlers here are plain functions from request values to a status and a
//! body; transport, locking and serialisation belong to the caller.

pub mod ident;
pub mod status;
pub mod store;
pub mod todo;
pub mod users;

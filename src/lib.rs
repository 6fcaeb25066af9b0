//! Identity, authorization and task-lifecycle rules of a multi-user task tracker.
//!
//! The storage engine and the HTTP surface live outside this crate: the functions
//! here take what was read from the store (or from the network) as plain values
//! and return what is to be written or answered.

pub mod config;
pub mod credentials;
pub mod errors;
pub mod estimate;
pub mod guard;
pub mod models;
pub mod tasks;
pub mod text;
pub mod tokens;
pub mod users;

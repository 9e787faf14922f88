//! A directory of employees, stores, locations and ranks that lives in a
//! document store: which references an employee may hold, what an update
//! keeps and what it clears, and when an operation fails.
//!
//! The library decides and never talks to a database. An operation is
//! started on a [`session::MongoDB`], which answers with a
//! [`protocol::Step`]: a [`protocol::Request`] for the caller to perform
//! against the store, or the finished result. The caller hands the store's
//! [`protocol::Reply`] to [`session::MongoDB::resume`] and gets the next step.
//!
//! - [`key`]: the store's keys and their textual form.
//! - [`schema`]: the documents and the inputs of the operations.
//! - [`protocol`]: requests, replies, results and errors.
//! - [`transition`]: the operations as a transition system over values.
//! - [`session`]: the executable session, which computes that system.
//! - [`backend`]: a model of the store, and what an operation comes to when
//!   it is run against it.
//! - [`laws`]: what holds of every operation, whatever the store holds.

pub mod backend;
pub mod key;
pub mod laws;
pub mod protocol;
pub mod schema;
pub mod session;
pub mod transition;

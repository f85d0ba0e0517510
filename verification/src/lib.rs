//! Session and cache rules of a desktop client that follows a user's pull
//! requests on a code-hosting service.
//!
//! The crate performs no input or output. Each operation is cut at the points
//! where the outside world is consulted: the caller asks the remote service or
//! the embedded database, and hands the answer to a function of this crate,
//! which decides what it means and what is to be done next.
//!
//! - `db`: the handle on the database, and the steps that set the database up.
//! - `gh`: the session manager, with the transaction that sets the active
//!   credential.
//! - `sql`: the statements and queries that are sent to the database.
//! - `tables`: the two tables behind the session, as mathematical values, and
//!   what the statements mean on them.
//! - `errors`: the error kinds.

pub mod db;
pub mod errors;
pub mod gh;
pub mod sql;
pub mod tables;

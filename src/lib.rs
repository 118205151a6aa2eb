//! Decision logic for running blocking database work from asynchronous code.
//!
//! The blocking calls themselves (checking out a connection, beginning,
//! committing or rolling back a transaction, running a query) happen outside
//! this library, on a thread where blocking is safe. What is decided here is
//! which call comes next and what the caller finally receives.
use vstd::prelude::*;

pub mod connection;
pub mod run;
pub mod transaction;

verus! {

} // verus!

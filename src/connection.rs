//! The connection surface that callers implement.
use vstd::prelude::*;

verus! {

/// A connection on which a batch of SQL statements can be issued without
/// blocking the asynchronous scheduler.
///
/// `Conn` is the blocking client connection that the implementation holds;
/// `ConnErr` is the error it reports. An implementation runs the batch on a
/// thread where blocking is safe and returns what the blocking client
/// returned for it.
pub trait AsyncSimpleConnection<Conn, ConnErr> {
    /// Runs `query`, which may hold several statements, and reports whether
    /// it succeeded.
    fn batch_execute_async(&self, query: &str) -> Result<(), ConnErr>;
}

} // verus!

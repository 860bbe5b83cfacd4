//! Identifiers for prepared statements.
//!
//! Prepared statements belong to a connection, so each connection keeps its
//! own table of them; this id names one slot in such a table.

use vstd::prelude::*;

verus! {

/// The id of a prepared statement, handed out once per statement text and
/// valid across the pool's connections.
#[derive(Clone, Copy, Debug, PartialEq, Eq, PartialOrd, Ord, Hash)]
pub struct PGStatementId(usize);

impl PGStatementId {
    /// The slot this id names.
    pub closed spec fn id_spec(&self) -> usize {
        self.0
    }

    pub fn new(id: usize) -> (r: PGStatementId)
        ensures
            r.id_spec() == id,
    {
        PGStatementId(id)
    }

    pub fn value(&self) -> (r: usize)
        ensures
            r == self.id_spec(),
    {
        self.0
    }
}

} // verus!

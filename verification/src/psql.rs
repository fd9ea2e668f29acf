//! The per-invocation state of the query tool: the connection descriptor and
//! the SQL text, each supplied once by the host before the query runs.

use vstd::prelude::*;

verus! {

/// One invocation's arguments. Both fields start unset; the host fills them
/// from its argument model, and a query may only run once both are present.
pub struct Psql {
    /// The connection descriptor, passed verbatim to the database client.
    pub conn: Option<String>,
    /// The SQL text of the parameterless query.
    pub query: Option<String>,
}

impl Psql {
    /// Creates the state with neither argument set.
    pub fn new() -> (p: Psql)
        ensures
            p.conn is None,
            p.query is None,
    {
        Psql { conn: None, query: None }
    }

    /// Whether both arguments are present, so that a query may run.
    pub fn ready(&self) -> (b: bool)
        ensures
            b == (self.conn is Some && self.query is Some),
    {
        self.conn.is_some() && self.query.is_some()
    }
}

} // verus!

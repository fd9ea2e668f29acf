//! The failure taxonomy of one query invocation.
//!
//! Every fatal failure — opening the connection, preparing the query, or
//! executing it — is converted to a single labeled, user-facing message. A
//! per-cell coercion miss is not an error and never appears here: it
//! resolves to an absent value inside the row mapper.

use vstd::prelude::*;
use vstd::string::StringExecFns;

verus! {

/// A fatal failure of one invocation, carrying the database client's own
/// description. Exactly one failure is surfaced per failed invocation, and
/// none of them is retried.
#[derive(Clone, Debug, PartialEq, Eq)]
pub enum QueryError {
    /// The network connection could not be established, authentication
    /// failed, or the server rejected the connection descriptor.
    Connection(String),
    /// The SQL text was invalid or referenced unknown objects.
    Prepare(String),
    /// The server rejected the query at run time.
    Execution(String),
}

/// Mathematical model of a failure: its class and its description.
pub enum ErrorModel {
    Connection(Seq<char>),
    Prepare(Seq<char>),
    Execution(Seq<char>),
}

impl View for QueryError {
    type V = ErrorModel;

    open spec fn view(&self) -> ErrorModel {
        match self {
            QueryError::Connection(d) => ErrorModel::Connection(d@),
            QueryError::Prepare(d) => ErrorModel::Prepare(d@),
            QueryError::Execution(d) => ErrorModel::Execution(d@),
        }
    }
}

/// The single user-facing message of a failure: its class label followed by
/// the client's description.
pub open spec fn message_model(e: ErrorModel) -> Seq<char> {
    match e {
        ErrorModel::Connection(d) => "connection error: "@ + d,
        ErrorModel::Prepare(d) => "prepare error: "@ + d,
        ErrorModel::Execution(d) => "execution error: "@ + d,
    }
}

impl QueryError {
    /// Renders the failure as its single user-facing message.
    pub fn message(&self) -> (m: String)
        ensures
            m@ == message_model(self@),
    {
        match self {
            QueryError::Connection(d) => String::from_str("connection error: ").concat(d.as_str()),
            QueryError::Prepare(d) => String::from_str("prepare error: ").concat(d.as_str()),
            QueryError::Execution(d) => String::from_str("execution error: ").concat(d.as_str()),
        }
    }
}

} // verus!

//! Maps the result set of a parameterless PostgreSQL query to a sequence of
//! generic, column-name-keyed records.
//!
//! The crate centres on a verified per-column type-dispatch table: every cell
//! of every returned row is coerced, by the column's wire type, into one of a
//! small fixed set of generic value kinds, with unsupported or undecodable
//! cells resolving to an absent value rather than an error.

pub mod error;
pub mod laws;
pub mod mapper;
pub mod pg;
pub mod psql;
pub mod record;
pub mod value;

//! A small object-relational mapper, as far as it can be proved: the schema
//! of a record type, the options of a query and their combination, the text
//! of every statement, and the rule by which an operation on a table fails
//! or yields its statement. Opening a database, running a statement and
//! turning rows into records are left to the caller.

pub mod order;
pub mod query;
pub mod query_laws;
pub mod schema;
pub mod sql;
pub mod table;
pub mod text;

pub use crate::sql::{OptVec, QueryOption, Sql};

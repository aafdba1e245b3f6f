//! Access to a single local SQLite file: listing the rows of a named table as
//! structured records, and deleting a row that matches a name/value pair.

pub mod statement;
pub mod error;
pub mod record;
pub mod sqlite;
pub mod connection;

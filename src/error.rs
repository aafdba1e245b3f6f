//! The failures of the accessor, kept apart by kind.

use vstd::prelude::*;
use vstd::string::*;

verus! {

/// Why an operation on the database failed.
#[derive(Debug)]
pub enum DbError {
    /// The storage engine reported a failure.
    Rusqlite(rusqlite::Error),
    /// No database file stands at the given path.
    NotFound(String),
    /// The schema holds no table of the given name.
    TableNotFound(String),
    /// A result did not have the shape that its statement promises.
    Serialization(String),
    /// The operation needs a connection and none has been opened.
    NotConnected,
}

/// The message of an error other than one of the storage engine.
pub open spec fn message_of(e: DbError) -> Seq<char>
    recommends
        !(e is Rusqlite),
{
    match e {
        DbError::NotFound(p) => "File not found: "@ + p@,
        DbError::TableNotFound(t) => "Table not found: "@ + t@,
        DbError::Serialization(m) => "Serialization error: "@ + m@,
        DbError::NotConnected => "Database not connected"@,
        DbError::Rusqlite(_) => Seq::empty(),
    }
}

impl DbError {
    /// The human-readable message that callers receive for this error.
    pub fn message(&self) -> (r: String)
        ensures
            !(*self is Rusqlite) ==> r@ == message_of(*self),
            *self matches DbError::Rusqlite(e) ==> exists|d: String|
                #[trigger] to_string_from_display_ensures::<rusqlite::Error>(&e, d) && r@
                    == "Database error: "@ + d@,
    {
        match self {
            DbError::Rusqlite(e) => {
                let mut s = String::from_str("Database error: ");
                let detail = e.to_string();
                s.append(detail.as_str());
                s
            },
            DbError::NotFound(p) => {
                let mut s = String::from_str("File not found: ");
                s.append(p.as_str());
                s
            },
            DbError::TableNotFound(t) => {
                let mut s = String::from_str("Table not found: ");
                s.append(t.as_str());
                s
            },
            DbError::Serialization(m) => {
                let mut s = String::from_str("Serialization error: ");
                s.append(m.as_str());
                s
            },
            DbError::NotConnected => String::from_str("Database not connected"),
        }
    }
}

} // verus!

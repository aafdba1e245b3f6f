//! The accessor: the one connection to the database file, opened at most once,
//! and the two operations on it.

use vstd::prelude::*;
use vstd::string::*;
use crate::error::DbError;
use crate::record::{CellValue, Row, texts, check_table, column_names, assemble_rows, removed_any};
use crate::sqlite::{path_exists, open_connection, query_cells, execute, cell_of};
use crate::statement::{
    lookup_sql,
    columns_sql,
    select_sql,
    delete_sql,
    lookup_statement,
    columns_statement,
    select_statement,
    delete_statement,
};

verus! {

/// A statement sent to the storage engine: its text and its bound parameters.
pub type Sent = (Seq<char>, Seq<Seq<char>>);

/// The statements that reading table `t` sends, in order: the schema lookup,
/// the column introspection and the full scan.
pub open spec fn read_plan(t: Seq<char>) -> Seq<Sent> {
    seq![(lookup_sql(), seq![t]), (columns_sql(t), Seq::empty()), (select_sql(t), Seq::empty())]
}

/// Holder of at most one open connection. Exclusive access to it is had
/// through `&mut`; a caller that shares it between threads puts it behind a lock.
pub struct DbConnection {
    conn: Option<rusqlite::Connection>,
    opens: Ghost<nat>,
    sent: Ghost<Seq<Sent>>,
}

/// How the connection may change in an operation that ensures it is open:
/// an open connection is kept as it is; otherwise it is opened once, or the
/// accessor is left untouched.
pub open spec fn open_effect(before: DbConnection, after: DbConnection) -> bool {
    &&& before.opened() ==> after.opened() && after.open_count() == before.open_count()
        && after.connection() == before.connection()
    &&& !before.opened() && after.opened() ==> after.open_count() == before.open_count() + 1
    &&& !after.opened() ==> after == before
}

/// Every row has exactly the keys `cols`, in that order, each with its cell.
pub open spec fn keyed_by(rows: Seq<Row>, cols: Seq<Seq<char>>) -> bool {
    forall|i: int| 0 <= i < rows.len() ==> (#[trigger] rows[i]).keys() == cols && rows[i].wf()
}

/// What reading table `t` sends and returns, where `before` and `after` are the
/// statements sent before and after the read: a prefix of the plan is sent, and
/// the whole plan only when rows come back, each keyed by the same columns.
pub open spec fn read_effect(
    before: Seq<Sent>,
    after: Seq<Sent>,
    t: Seq<char>,
    r: Result<Vec<Row>, DbError>,
) -> bool {
    &&& exists|k: int| 1 <= k <= 3 && after == before + #[trigger] read_plan(t).take(k)
    &&& r matches Err(DbError::TableNotFound(n)) ==> n@ == t && after == before.push(
        read_plan(t)[0],
    )
    &&& r matches Ok(rows) ==> after == before + read_plan(t) && exists|cols: Seq<Seq<char>>|
        #[trigger] keyed_by(rows@, cols)
    &&& r matches Err(e) ==> !(e is NotConnected) && !(e is NotFound)
}

impl DbConnection {
    /// A connection has been opened.
    pub closed spec fn opened(&self) -> bool {
        self.conn is Some
    }

    /// How many times a database file has been opened by this accessor.
    pub closed spec fn open_count(&self) -> nat {
        self.opens@
    }

    /// The open connection, if any.
    pub closed spec fn connection(&self) -> Option<rusqlite::Connection> {
        self.conn
    }

    /// Every statement sent to the storage engine so far, in order: each query
    /// and deletion is recorded by the one helper that also sends it.
    pub closed spec fn statements(&self) -> Seq<Sent> {
        self.sent@
    }

    /// An accessor with no connection.
    pub fn new() -> (r: Self)
        ensures
            !r.opened(),
            r.open_count() == 0,
            r.statements() == Seq::<Sent>::empty(),
    {
        DbConnection { conn: None, opens: Ghost(0), sent: Ghost(Seq::empty()) }
    }

    /// Whether a connection is open.
    pub fn is_open(&self) -> (r: bool)
        ensures
            r == self.opened(),
    {
        self.conn.is_some()
    }

    /// Ensures a connection, given whether the file at `path` is present: an
    /// open connection is kept, an absent file is refused, a present one is opened.
    pub fn open_if_present(&mut self, path: &str, present: bool) -> (r: Result<(), DbError>)
        ensures
            old(self).opened() ==> r is Ok && *final(self) == *old(self),
            !old(self).opened() && !present ==> (r matches Err(DbError::NotFound(p)) && p@
                == path@) && *final(self) == *old(self),
            !old(self).opened() && present ==> match r {
                Ok(_) => final(self).opened() && final(self).open_count() == old(self).open_count()
                    + 1 && final(self).statements() == old(self).statements(),
                Err(e) => e is Rusqlite && *final(self) == *old(self),
            },
    {
        if self.conn.is_some() {
            return Ok(());
        }
        if !present {
            return Err(DbError::NotFound(String::from_str(path)));
        }
        match open_connection(path) {
            Ok(c) => {
                self.conn = Some(c);
                self.opens = Ghost(self.opens@ + 1);
                Ok(())
            },
            Err(e) => Err(DbError::Rusqlite(e)),
        }
    }

    /// Ensures a connection to the database file at `path`, opening it only if
    /// none is open yet and only if the file exists.
    pub fn open(&mut self, path: &str) -> (r: Result<(), DbError>)
        ensures
            open_effect(*old(self), *final(self)),
            r is Ok <==> final(self).opened(),
            final(self).statements() == old(self).statements(),
            r matches Err(e) ==> (e is Rusqlite || (e matches DbError::NotFound(p) && p@ == path@)),
    {
        if self.conn.is_some() {
            return Ok(());
        }
        let present = path_exists(path);
        self.open_if_present(path, present)
    }

    /// Lists every row of `table_name` on the open connection.
    pub fn read_table(&mut self, table_name: &str) -> (r: Result<Vec<Row>, DbError>)
        ensures
            final(self).opened() == old(self).opened(),
            final(self).open_count() == old(self).open_count(),
            final(self).connection() == old(self).connection(),
            !old(self).opened() ==> (r matches Err(DbError::NotConnected)) && *final(self) == *old(
                self,
            ),
            old(self).opened() ==> read_effect(
                old(self).statements(),
                final(self).statements(),
                table_name@,
                r,
            ),
    {
        let conn = match &self.conn {
            Some(c) => c,
            None => {
                return Err(DbError::NotConnected);
            },
        };
        let ghost start = self.sent@;
        let ghost plan = read_plan(table_name@);
        let lookup_sql_text = lookup_statement();
        let mut lookup_params: Vec<String> = Vec::new();
        lookup_params.push(String::from_str(table_name));
        proof {
            assert(texts(lookup_params@) =~= seq![table_name@]);
        }
        let lookup = send_query(conn, &mut self.sent, &lookup_sql_text, &lookup_params, 1);
        proof {
            assert(self.sent@ =~= start + plan.take(1));
        }
        let lookup = match lookup {
            Ok(v) => v,
            Err(e) => {
                return Err(DbError::Rusqlite(e));
            },
        };
        let lookup_cells = cells_of(&lookup);
        match check_table(table_name, &lookup_cells) {
            Ok(()) => {},
            Err(e) => {
                return Err(e);
            },
        }
        let no_params: Vec<String> = Vec::new();
        let info_sql = columns_statement(table_name);
        proof {
            assert(texts(no_params@) =~= Seq::<Seq<char>>::empty());
        }
        let info = send_query(conn, &mut self.sent, &info_sql, &no_params, 2);
        proof {
            assert(self.sent@ =~= start + plan.take(2));
        }
        let info = match info {
            Ok(v) => v,
            Err(e) => {
                return Err(DbError::Rusqlite(e));
            },
        };
        let info_cells = cells_of(&info);
        let columns = match column_names(&info_cells) {
            Ok(c) => c,
            Err(e) => {
                return Err(e);
            },
        };
        let scan_sql = select_statement(table_name);
        let scanned = send_query(conn, &mut self.sent, &scan_sql, &no_params, columns.len());
        proof {
            assert(self.sent@ =~= start + plan.take(3));
            assert(plan.take(3) =~= plan);
        }
        let scanned = match scanned {
            Ok(v) => v,
            Err(e) => {
                return Err(DbError::Rusqlite(e));
            },
        };
        let rows = assemble_rows(&columns, cells_of(&scanned));
        proof {
            if rows is Ok {
                let out = rows->Ok_0;
                assert(keyed_by(out@, texts(columns@)));
            }
        }
        rows
    }

    /// Ensures a connection, given whether the file at `path` is present, then
    /// lists every row of `table_name`: an open connection is kept, an absent
    /// file is refused, a present one is opened before the read.
    pub fn read_if_present(&mut self, path: &str, present: bool, table_name: &str) -> (r: Result<
        Vec<Row>,
        DbError,
    >)
        ensures
            open_effect(*old(self), *final(self)),
            r matches Err(e) ==> !(e is NotConnected),
            old(self).opened() ==> read_effect(
                old(self).statements(),
                final(self).statements(),
                table_name@,
                r,
            ),
            !old(self).opened() && !present ==> (r matches Err(DbError::NotFound(p)) && p@
                == path@) && *final(self) == *old(self),
            !old(self).opened() && present && !final(self).opened() ==> (r matches Err(e)
                && e is Rusqlite) && *final(self) == *old(self),
            !old(self).opened() && present && final(self).opened() ==> final(self).open_count()
                == old(self).open_count() + 1 && read_effect(
                old(self).statements(),
                final(self).statements(),
                table_name@,
                r,
            ),
    {
        match self.open_if_present(path, present) {
            Ok(()) => {},
            Err(e) => {
                return Err(e);
            },
        }
        self.read_table(table_name)
    }

    /// Ensures a connection to the file at `path`, then lists every row of
    /// `table_name`. Whether the file exists is asked only when no connection
    /// is open yet.
    pub fn get_table_data(&mut self, path: &str, table_name: &str) -> (r: Result<
        Vec<Row>,
        DbError,
    >)
        ensures
            open_effect(*old(self), *final(self)),
            r is Ok ==> final(self).opened(),
            r matches Err(e) ==> !(e is NotConnected),
            !final(self).opened() ==> (r matches Err(e) && (e is Rusqlite || (e matches DbError::NotFound(p) && p@ == path@))),
            (r matches Err(DbError::NotFound(p))) ==> *final(self) == *old(self),
            final(self).opened() ==> read_effect(
                old(self).statements(),
                final(self).statements(),
                table_name@,
                r,
            ),
    {
        let present = if self.conn.is_some() {
            true
        } else {
            path_exists(path)
        };
        self.read_if_present(path, present, table_name)
    }

    /// Deletes from `table_name` the rows whose `name` column equals `name` and
    /// whose `value` column equals `value`, on the connection opened earlier.
    /// Returns whether any row was removed.
    pub fn delete_record(&mut self, table_name: &str, name: &str, value: &str) -> (r: Result<
        bool,
        DbError,
    >)
        ensures
            final(self).opened() == old(self).opened(),
            final(self).open_count() == old(self).open_count(),
            final(self).connection() == old(self).connection(),
            !old(self).opened() ==> (r matches Err(DbError::NotConnected)) && *final(self) == *old(
                self,
            ),
            old(self).opened() ==> final(self).statements() == old(self).statements().push(
                (delete_sql(table_name@), seq![name@, value@]),
            ),
            old(self).opened() ==> r is Ok || (r matches Err(e) && e is Rusqlite),
    {
        let conn = match &self.conn {
            Some(c) => c,
            None => {
                return Err(DbError::NotConnected);
            },
        };
        let sql = delete_statement(table_name);
        let mut params: Vec<String> = Vec::new();
        params.push(String::from_str(name));
        params.push(String::from_str(value));
        proof {
            assert(texts(params@) =~= seq![name@, value@]);
        }
        match send_execute(conn, &mut self.sent, &sql, &params) {
            Ok(changes) => Ok(removed_any(changes)),
            Err(e) => Err(DbError::Rusqlite(e)),
        }
    }
}

/// Records the query `sql` with its `params` in `log`, and sends that same query.
fn send_query(
    conn: &rusqlite::Connection,
    log: &mut Ghost<Seq<Sent>>,
    sql: &String,
    params: &Vec<String>,
    width: usize,
) -> (r: Result<Vec<Vec<rusqlite::types::Value>>, rusqlite::Error>)
    ensures
        final(log)@ == old(log)@.push((sql@, texts(params@))),
        r matches Ok(rows) ==> forall|i: int| 0 <= i < rows.len() ==> #[trigger] rows[i].len() == width,
{
    *log = Ghost(log@.push((sql@, texts(params@))));
    query_cells(conn, sql.as_str(), params, width)
}

/// Records the statement `sql` with its `params` in `log`, and runs that same
/// statement.
fn send_execute(
    conn: &rusqlite::Connection,
    log: &mut Ghost<Seq<Sent>>,
    sql: &String,
    params: &Vec<String>,
) -> (r: Result<usize, rusqlite::Error>)
    ensures
        final(log)@ == old(log)@.push((sql@, texts(params@))),
{
    *log = Ghost(log@.push((sql@, texts(params@))));
    execute(conn, sql.as_str(), params)
}

/// Converts every cell of a result, keeping its shape.
fn cells_of(raw: &Vec<Vec<rusqlite::types::Value>>) -> (r: Vec<Vec<CellValue>>)
    ensures
        r.len() == raw.len(),
        forall|i: int| 0 <= i < r.len() ==> #[trigger] r[i].len() == raw[i].len(),
{
    let mut out: Vec<Vec<CellValue>> = Vec::new();
    let mut i: usize = 0;
    while i < raw.len()
        invariant
            i <= raw.len(),
            out.len() == i,
            forall|k: int| 0 <= k < i ==> #[trigger] out[k].len() == raw[k].len(),
        decreases raw.len() - i,
    {
        let source = &raw[i];
        let mut row: Vec<CellValue> = Vec::new();
        let mut j: usize = 0;
        while j < source.len()
            invariant
                j <= source.len(),
                row.len() == j,
            decreases source.len() - j,
        {
            row.push(cell_of(&source[j]));
            j = j + 1;
        }
        out.push(row);
        i = i + 1;
    }
    out
}

/// Two reads that both succeed open the database file at most once between
/// them: exactly once where no connection was open before the first, and not
/// at all otherwise; the second keeps the connection that the first left.
pub proof fn lemma_reads_open_once(s0: DbConnection, s1: DbConnection, s2: DbConnection)
    requires
        open_effect(s0, s1),
        s1.opened(),
        open_effect(s1, s2),
        s2.opened(),
    ensures
        s2.open_count() == s0.open_count() + if s0.opened() {
            0nat
        } else {
            1nat
        },
        s2.connection() == s1.connection(),
{
}

} // verus!

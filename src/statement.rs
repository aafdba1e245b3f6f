//! SQL text sent to the storage engine. Table names are always written as
//! quoted identifiers, so a caller-supplied name can never be read as SQL.

use vstd::prelude::*;
use vstd::string::*;

verus! {

/// The text standing for one character inside a double-quoted identifier:
/// a double quote is doubled, every other character stands for itself.
pub open spec fn escaped_char(c: char) -> Seq<char> {
    if c == '"' {
        seq!['"', '"']
    } else {
        seq![c]
    }
}

/// The body of a double-quoted identifier for `s`.
pub open spec fn escaped(s: Seq<char>) -> Seq<char>
    decreases s.len(),
{
    if s.len() == 0 {
        Seq::empty()
    } else {
        escaped(s.drop_last()) + escaped_char(s.last())
    }
}

/// `s` written as a double-quoted SQL identifier.
pub open spec fn quoted(s: Seq<char>) -> Seq<char> {
    seq!['"'] + escaped(s) + seq!['"']
}

/// The schema lookup: how many tables carry the name bound to its parameter.
pub open spec fn lookup_sql() -> Seq<char> {
    "SELECT COUNT(*) FROM sqlite_master WHERE type='table' AND name = ?"@
}

/// The column introspection of table `t`.
pub open spec fn columns_sql(t: Seq<char>) -> Seq<char> {
    "PRAGMA table_info("@ + quoted(t) + ")"@
}

/// The full scan of table `t`.
pub open spec fn select_sql(t: Seq<char>) -> Seq<char> {
    "SELECT * FROM "@ + quoted(t)
}

/// The deletion from table `t` of the rows whose `name` and `value` columns
/// equal the two bound parameters.
pub open spec fn delete_sql(t: Seq<char>) -> Seq<char> {
    "DELETE FROM "@ + quoted(t) + " WHERE name = ? AND value = ?"@
}

/// Writes `name` as a double-quoted identifier, doubling every double quote in it.
pub fn quote_identifier(name: &str) -> (r: String)
    ensures
        r@ == quoted(name@),
{
    proof {
        reveal_strlit("\"");
    }
    let n = name.unicode_len();
    let mut out = String::from_str("\"");
    let mut i: usize = 0;
    while i < n
        invariant
            i <= n,
            n == name@.len(),
            out@ == seq!['"'] + escaped(name@.take(i as int)),
        decreases n - i,
    {
        let c = name.get_char(i);
        let ghost before = out@;
        if c == '"' {
            proof {
                reveal_strlit("\"\"");
            }
            out.append("\"\"");
        } else {
            out.append(name.substring_char(i, i + 1));
        }
        proof {
            let next = name@.take(i + 1);
            assert(next.drop_last() =~= name@.take(i as int));
            assert(next.last() == c);
            assert(name@.subrange(i as int, i + 1) =~= seq![c]);
            assert(escaped(next) == escaped(name@.take(i as int)) + escaped_char(c));
            assert(out@ =~= before + escaped_char(c));
            assert(out@ =~= seq!['"'] + escaped(next));
        }
        i = i + 1;
    }
    assert(name@.take(n as int) =~= name@);
    proof {
        reveal_strlit("\"");
    }
    out.append("\"");
    out
}

/// The schema lookup statement.
pub fn lookup_statement() -> (r: String)
    ensures
        r@ == lookup_sql(),
{
    String::from_str("SELECT COUNT(*) FROM sqlite_master WHERE type='table' AND name = ?")
}

/// The column introspection statement for `table`.
pub fn columns_statement(table: &str) -> (r: String)
    ensures
        r@ == columns_sql(table@),
{
    let mut s = String::from_str("PRAGMA table_info(");
    let q = quote_identifier(table);
    s.append(q.as_str());
    s.append(")");
    s
}

/// The full scan statement for `table`.
pub fn select_statement(table: &str) -> (r: String)
    ensures
        r@ == select_sql(table@),
{
    let mut s = String::from_str("SELECT * FROM ");
    let q = quote_identifier(table);
    s.append(q.as_str());
    s
}

/// The name/value deletion statement for `table`.
pub fn delete_statement(table: &str) -> (r: String)
    ensures
        r@ == delete_sql(table@),
{
    let mut s = String::from_str("DELETE FROM ");
    let q = quote_identifier(table);
    s.append(q.as_str());
    s.append(" WHERE name = ? AND value = ?");
    s
}

} // verus!

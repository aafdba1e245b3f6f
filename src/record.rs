//! Cells, rows and the marshaling of query results into records.

use vstd::prelude::*;
use vstd::string::*;
use crate::error::DbError;

verus! {

/// One stored value, tagged with its storage type.
#[derive(Debug, PartialEq)]
pub enum CellValue {
    Null,
    Integer(i64),
    /// A double, carried as its IEEE-754 bit pattern so that no precision is lost.
    Real(u64),
    Text(String),
    Blob(Vec<u8>),
}

/// The views of a sequence of strings.
pub open spec fn texts(s: Seq<String>) -> Seq<Seq<char>> {
    s.map_values(|x: String| x@)
}

/// One result row: its column names, in schema order, each with its cell.
#[derive(Debug)]
pub struct Row {
    columns: Vec<String>,
    cells: Vec<CellValue>,
}

impl Row {
    /// The column names of the row, in schema order.
    pub closed spec fn keys(&self) -> Seq<Seq<char>> {
        texts(self.columns@)
    }

    /// The cells of the row, one for each key and in the same order.
    pub closed spec fn values(&self) -> Seq<CellValue> {
        self.cells@
    }

    /// Every key has its cell.
    pub open spec fn wf(&self) -> bool {
        self.keys().len() == self.values().len()
    }

    /// The column names, in schema order.
    pub fn columns(&self) -> (r: &Vec<String>)
        ensures
            texts(r@) == self.keys(),
    {
        &self.columns
    }

    /// The cells, in schema order.
    pub fn cells(&self) -> (r: &Vec<CellValue>)
        ensures
            r@ == self.values(),
    {
        &self.cells
    }
}

/// The number that the schema lookup counted, where its result has that shape.
pub open spec fn counted(lookup: Seq<Vec<CellValue>>) -> Option<i64> {
    if lookup.len() > 0 && lookup[0]@.len() > 0 && lookup[0]@[0] is Integer {
        Some(lookup[0]@[0]->Integer_0)
    } else {
        None
    }
}

/// Decides from the schema lookup's result whether `table` exists.
pub fn check_table(table: &str, lookup: &Vec<Vec<CellValue>>) -> (r: Result<(), DbError>)
    ensures
        r is Ok <==> (counted(lookup@) is Some && counted(lookup@) != Some(0i64)),
        counted(lookup@) == Some(0i64) ==> (r matches Err(DbError::TableNotFound(t)) && t@
            == table@),
        counted(lookup@) is None ==> r matches Err(DbError::Serialization(_)),
{
    if lookup.len() > 0 && lookup[0].len() > 0 {
        match &lookup[0][0] {
            CellValue::Integer(n) => {
                if *n == 0 {
                    Err(DbError::TableNotFound(String::from_str(table)))
                } else {
                    Ok(())
                }
            },
            _ => Err(DbError::Serialization(String::from_str("the table count is not an integer"))),
        }
    } else {
        Err(DbError::Serialization(String::from_str("the table lookup returned no count")))
    }
}

/// Every row of a column introspection result names its column as text in
/// its second cell.
pub open spec fn names_are_text(info: Seq<Vec<CellValue>>) -> bool {
    forall|i: int| 0 <= i < info.len() ==> #[trigger] info[i]@.len() > 1 && info[i]@[1] is Text
}

/// Takes the column names, in order, from a column introspection result.
pub fn column_names(info: &Vec<Vec<CellValue>>) -> (r: Result<Vec<String>, DbError>)
    ensures
        r is Ok <==> names_are_text(info@),
        r matches Ok(names) ==> names.len() == info.len() && forall|i: int|
            0 <= i < info.len() ==> #[trigger] names[i]@ == info@[i]@[1]->Text_0@,
        r is Err ==> r matches Err(DbError::Serialization(_)),
{
    let mut names: Vec<String> = Vec::new();
    let mut i: usize = 0;
    while i < info.len()
        invariant
            i <= info.len(),
            names.len() == i,
            names_are_text(info@.take(i as int)),
            forall|k: int| 0 <= k < i ==> #[trigger] names[k]@ == info@[k]@[1]->Text_0@,
        decreases info.len() - i,
    {
        if info[i].len() < 2 {
            return Err(DbError::Serialization(String::from_str("a column description is too short")));
        }
        match &info[i][1] {
            CellValue::Text(s) => {
                names.push(s.clone());
            },
            _ => {
                return Err(DbError::Serialization(String::from_str("a column name is not text")));
            },
        }
        proof {
            assert forall|k: int| 0 <= k < i + 1 implies #[trigger] info@.take(i + 1)[k]@.len() > 1
                && info@.take(i + 1)[k]@[1] is Text by {
                if k < i {
                    assert(info@.take(i as int)[k] == info@[k]);
                }
            }
        }
        i = i + 1;
    }
    assert(info@.take(info.len() as int) =~= info@);
    Ok(names)
}

/// Every result row has exactly one cell for each column.
pub open spec fn rows_fit(width: nat, rows: Seq<Vec<CellValue>>) -> bool {
    forall|i: int| 0 <= i < rows.len() ==> #[trigger] rows[i]@.len() == width
}

/// Pairs each result row with the column names, keeping the order of the rows
/// and of the columns.
pub fn assemble_rows(columns: &Vec<String>, rows: Vec<Vec<CellValue>>) -> (r: Result<Vec<Row>, DbError>)
    ensures
        r is Ok <==> rows_fit(columns.len() as nat, rows@),
        r matches Ok(out) ==> out.len() == rows.len() && forall|i: int|
            0 <= i < out.len() ==> (#[trigger] out[i]).keys() == texts(columns@) && out[i].values()
                == rows@[i]@ && out[i].wf(),
        r is Err ==> r matches Err(DbError::Serialization(_)),
{
    let mut out: Vec<Row> = Vec::new();
    let ghost all = rows@;
    for cells in it: rows
        invariant
            it.seq() == all,
            out.len() == it.index(),
            rows_fit(columns.len() as nat, all.take(it.index() as int)),
            forall|k: int|
                0 <= k < out.len() ==> (#[trigger] out[k]).keys() == texts(columns@) && out[k].values()
                    == all[k]@,
    {
        if cells.len() != columns.len() {
            return Err(DbError::Serialization(String::from_str("a row does not fit its columns")));
        }
        let row = Row { columns: columns.clone(), cells };
        proof {
            assert(texts(row.columns@) =~= texts(columns@));
        }
        out.push(row);
    }
    assert(all.take(all.len() as int) =~= all);
    Ok(out)
}

/// Whether a deletion that changed `changes` rows removed anything.
pub fn removed_any(changes: usize) -> (r: bool)
    ensures
        r == (changes > 0),
{
    changes > 0
}

} // verus!

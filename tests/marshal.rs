use webdata_access::error::DbError;
use webdata_access::record::{assemble_rows, check_table, column_names, removed_any, CellValue};
use webdata_access::statement::{
    columns_statement, delete_statement, lookup_statement, quote_identifier, select_statement,
};

fn text(s: &str) -> CellValue {
    CellValue::Text(s.to_string())
}

#[test]
fn quoting_doubles_inner_quotes() {
    assert_eq!(quote_identifier("credentials"), "\"credentials\"");
    assert_eq!(quote_identifier("a\"b"), "\"a\"\"b\"");
    assert_eq!(quote_identifier(""), "\"\"");
    assert_eq!(quote_identifier("é\"\""), "\"é\"\"\"\"\"");
}

#[test]
fn statements_quote_the_table() {
    assert_eq!(
        lookup_statement(),
        "SELECT COUNT(*) FROM sqlite_master WHERE type='table' AND name = ?"
    );
    assert_eq!(columns_statement("t x"), "PRAGMA table_info(\"t x\")");
    assert_eq!(select_statement("autofill"), "SELECT * FROM \"autofill\"");
    assert_eq!(
        delete_statement("credentials"),
        "DELETE FROM \"credentials\" WHERE name = ? AND value = ?"
    );
}

#[test]
fn zero_count_is_table_not_found() {
    match check_table("logins", &vec![vec![CellValue::Integer(0)]]) {
        Err(DbError::TableNotFound(t)) => assert_eq!(t, "logins"),
        other => panic!("unexpected result: {:?}", other),
    }
    assert!(check_table("logins", &vec![vec![CellValue::Integer(1)]]).is_ok());
}

#[test]
fn malformed_count_is_serialization_error() {
    assert!(matches!(check_table("t", &vec![]), Err(DbError::Serialization(_))));
    assert!(matches!(check_table("t", &vec![vec![text("1")]]), Err(DbError::Serialization(_))));
}

#[test]
fn column_names_take_the_second_cell() {
    let info = vec![
        vec![CellValue::Integer(0), text("name")],
        vec![CellValue::Integer(1), text("value")],
    ];
    assert_eq!(column_names(&info).unwrap(), vec!["name".to_string(), "value".to_string()]);
    let bad = vec![vec![CellValue::Integer(0), CellValue::Null]];
    assert!(matches!(column_names(&bad), Err(DbError::Serialization(_))));
    let short = vec![vec![CellValue::Integer(0)]];
    assert!(matches!(column_names(&short), Err(DbError::Serialization(_))));
}

#[test]
fn assembled_rows_keep_order() {
    let columns = vec!["a".to_string(), "b".to_string()];
    let rows = assemble_rows(
        &columns,
        vec![vec![CellValue::Integer(1), CellValue::Null], vec![text("x"), CellValue::Blob(vec![9])]],
    )
    .unwrap();
    assert_eq!(rows.len(), 2);
    assert_eq!(rows[0].columns(), &columns);
    assert_eq!(rows[1].columns(), &columns);
    assert_eq!(rows[0].cells(), &vec![CellValue::Integer(1), CellValue::Null]);
    assert_eq!(rows[1].cells(), &vec![text("x"), CellValue::Blob(vec![9])]);
}

#[test]
fn row_of_wrong_width_is_serialization_error() {
    let columns = vec!["a".to_string(), "b".to_string()];
    assert!(matches!(
        assemble_rows(&columns, vec![vec![CellValue::Integer(1)]]),
        Err(DbError::Serialization(_))
    ));
}

#[test]
fn removed_any_counts_changes() {
    assert!(!removed_any(0));
    assert!(removed_any(1));
    assert!(removed_any(3));
}

#[test]
fn error_messages() {
    assert_eq!(DbError::NotFound("/x/Web Data".to_string()).message(), "File not found: /x/Web Data");
    assert_eq!(DbError::TableNotFound("t".to_string()).message(), "Table not found: t");
    assert_eq!(DbError::Serialization("m".to_string()).message(), "Serialization error: m");
    assert_eq!(DbError::NotConnected.message(), "Database not connected");
}

//! The address of the database, the schema script and the errors of opening.

use quiz_history::session::schema_statements;
use quiz_history::setup::{
    database_url, opening_failed, schema_script, Opening, DATABASE_FILE, SCRIPT_DESCRIPTION,
};
use quiz_history::{ErrorKind, Statement, StoreError};

#[test]
fn address_wraps_the_path() {
    assert_eq!(database_url("/data/app/quintry.db"), "sqlite:/data/app/quintry.db?mode=rwc");
    assert_eq!(database_url(""), "sqlite:?mode=rwc");
    assert_eq!(DATABASE_FILE, "quintry.db");
}

#[test]
fn schema_statements_in_order() {
    assert_eq!(
        schema_statements(),
        vec![
            Statement::CreateHistoryTable,
            Statement::CreateDateIndex,
            Statement::CreateDifficultyIndex,
            Statement::CreateResultsTable,
            Statement::CreatePortIndex,
        ]
    );
}

#[test]
fn script_is_every_schema_statement_with_its_separator() {
    let expected = format!(
        "{};\n{};\n{};\n{};\n{};\n",
        Statement::CreateHistoryTable.sql(),
        Statement::CreateDateIndex.sql(),
        Statement::CreateDifficultyIndex.sql(),
        Statement::CreateResultsTable.sql(),
        Statement::CreatePortIndex.sql()
    );
    assert_eq!(schema_script(), expected);
    assert!(schema_script().starts_with("CREATE TABLE IF NOT EXISTS quiz_history ("));
    assert!(schema_script().ends_with("ON quiz_results(port, is_correct);\n"));
    assert_eq!(SCRIPT_DESCRIPTION, "create quiz_history and quiz_results tables");
}

#[test]
fn opening_errors_are_initialization_errors() {
    assert_eq!(
        opening_failed(Opening::Locate, "no home"),
        StoreError {
            kind: ErrorKind::Initialization,
            message: "Failed to get app data dir: no home".to_string()
        }
    );
    assert_eq!(
        opening_failed(Opening::Prepare, "read-only"),
        StoreError {
            kind: ErrorKind::Initialization,
            message: "Failed to create app data dir: read-only".to_string()
        }
    );
    assert_eq!(
        opening_failed(Opening::Connect, ""),
        StoreError {
            kind: ErrorKind::Initialization,
            message: "Failed to connect to database: ".to_string()
        }
    );
}

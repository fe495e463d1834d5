use algovault::backend::BackendReply;
use algovault::error::{ErrorKind, Operation};
use algovault::lifecycle::StartPlan;
use algovault::outcome::{classify_rejection, read_reply, Executed};
use algovault::run::RunId;
use algovault::table::Table;

fn persons() -> Table {
    Table::new("persons".to_string(), Vec::new()).unwrap()
}

fn done(rows_affected: u64, last_insert_rowid: i64) -> BackendReply {
    BackendReply::Done { rows_affected, last_insert_rowid }
}

fn rejected(message: &str) -> BackendReply {
    BackendReply::Rejected { message: message.to_string() }
}

fn unreachable(message: &str) -> BackendReply {
    BackendReply::Unreachable { message: message.to_string() }
}

#[test]
fn a_supplied_identifier_is_accepted_and_nothing_is_inserted() {
    let id = RunId::from_u128(42);
    match persons().start_run(Some(id)) {
        StartPlan::Accepted { id: accepted } => assert_eq!(accepted, id),
        other => panic!("unexpected plan: {:?}", other),
    }
}

#[test]
fn without_an_identifier_a_fresh_run_is_to_be_inserted() {
    match persons().start_run(None) {
        StartPlan::Insert { id, statement, run_id, created_at } => {
            assert_eq!(statement, "INSERT INTO persons (run_id, created_at) VALUES (?, ?)");
            assert_eq!(run_id, id.hyphenated());
            assert_eq!(run_id.len(), 36);
            assert_eq!(run_id.as_bytes()[14], b'4');
            assert_eq!(created_at.len(), 19);
            assert_eq!(&created_at[2..3], "/");
        },
        other => panic!("unexpected plan: {:?}", other),
    }
}

#[test]
fn an_insert_plan_carries_what_it_was_given() {
    let id = RunId::from_u128(0xa1a2a3a4b1b2c1c2d1d2d3d4d5d6d7d8);
    match persons().insert_plan(id, "01/01/1970 00:00:00".to_string()) {
        StartPlan::Insert { id: planned, statement, run_id, created_at } => {
            assert_eq!(planned, id);
            assert_eq!(statement, "INSERT INTO persons (run_id, created_at) VALUES (?, ?)");
            assert_eq!(run_id, "a1a2a3a4-b1b2-c1c2-d1d2-d3d4d5d6d7d8");
            assert_eq!(created_at, "01/01/1970 00:00:00");
        },
        other => panic!("unexpected plan: {:?}", other),
    }
}

#[test]
fn an_executed_insert_starts_the_run() {
    let id = RunId::from_u128(42);
    assert_eq!(persons().finish_start_run(id, &done(1, 1)).unwrap(), id);
}

#[test]
fn a_refused_insert_is_an_insert_error() {
    let id = RunId::from_u128(42);
    let e = persons().finish_start_run(id, &rejected("no such table: persons")).unwrap_err();
    assert_eq!(e.kind, ErrorKind::Insert);
    assert_eq!(e.operation, Operation::StartRun);
    assert_eq!(e.table, "persons");
    assert_eq!(e.detail, "no such table: persons");
    assert_eq!(e.message(), "Could not start run in table: persons (no such table: persons)");
}

#[test]
fn an_insert_into_a_table_without_its_reserved_columns_is_a_schema_error() {
    let id = RunId::from_u128(42);
    let reply = rejected("table persons has no such column: created_at");
    let e = persons().finish_start_run(id, &reply).unwrap_err();
    assert_eq!(e.kind, ErrorKind::Schema);
    assert_eq!(e.operation, Operation::StartRun);
}

#[test]
fn an_insert_that_cannot_reach_the_backend_is_a_connection_error() {
    let id = RunId::from_u128(42);
    let e = persons().finish_start_run(id, &unreachable("pool timed out")).unwrap_err();
    assert_eq!(e.kind, ErrorKind::Connection);
    assert_eq!(e.operation, Operation::StartRun);
    assert_eq!(e.detail, "pool timed out");
}

#[test]
fn creation_succeeds_when_the_statement_was_executed() {
    assert!(persons().finish_create(&done(0, 0)).is_ok());
}

#[test]
fn a_refused_creation_is_a_schema_error() {
    let e = persons().finish_create(&rejected("near \"(\": syntax error")).unwrap_err();
    assert_eq!(e.kind, ErrorKind::Schema);
    assert_eq!(e.operation, Operation::CreateTable);
    assert_eq!(e.table, "persons");
    assert_eq!(e.message(), "Could not create table: persons (near \"(\": syntax error)");
    let e = persons().finish_create(&unreachable("gone")).unwrap_err();
    assert_eq!(e.kind, ErrorKind::Connection);
}

#[test]
fn adding_a_column_reports_the_rows_affected() {
    assert_eq!(persons().finish_add_column(&done(0, 0)).unwrap(), 0);
    assert_eq!(persons().finish_add_column(&done(5, 9)).unwrap(), 5);
}

#[test]
fn adding_a_column_that_exists_is_told_apart_from_other_failures() {
    let e = persons().finish_add_column(&rejected("duplicate column name: a")).unwrap_err();
    assert_eq!(e.kind, ErrorKind::DuplicateColumn);
    assert_eq!(e.operation, Operation::AddColumn);
    let e = persons().finish_add_column(&rejected("no such table: persons")).unwrap_err();
    assert_eq!(e.kind, ErrorKind::Schema);
    let e = persons().finish_add_column(&unreachable("duplicate column name: a")).unwrap_err();
    assert_eq!(e.kind, ErrorKind::Connection);
}

#[test]
fn rejections_are_classified_by_operation_and_message() {
    assert_eq!(classify_rejection(Operation::CreateTable, "duplicate column"), ErrorKind::Schema);
    assert_eq!(classify_rejection(Operation::Describe, "x"), ErrorKind::Schema);
    assert_eq!(
        classify_rejection(Operation::AddColumn, "duplicate column name: a"),
        ErrorKind::DuplicateColumn
    );
    assert_eq!(classify_rejection(Operation::AddColumn, "x"), ErrorKind::Schema);
    assert_eq!(classify_rejection(Operation::StartRun, "x"), ErrorKind::Insert);
    assert_eq!(classify_rejection(Operation::StartRun, "no such column: a"), ErrorKind::Schema);
    assert_eq!(classify_rejection(Operation::SetField, "no such column: a"), ErrorKind::Update);
    assert_eq!(classify_rejection(Operation::Configure, "x"), ErrorKind::Configuration);
}

#[test]
fn an_executed_statement_is_read_with_its_counts() {
    let read = read_reply("persons", Operation::SetField, &done(1, 12)).unwrap();
    assert_eq!(read, Executed { rows_affected: 1, last_insert_rowid: 12 });
}

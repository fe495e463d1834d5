use algovault::column::{ColType, Column};
use algovault::error::{ErrorKind, Operation};
use algovault::run::RunId;
use algovault::table::{is_reserved, join_declarations, reserved, Table};

fn column(name: &str, dtype: ColType) -> Column {
    Column { name: name.to_string(), dtype }
}

fn persons() -> Table {
    Table::new("persons".to_string(), vec![column("first_name", ColType::Text)]).unwrap()
}

#[test]
fn create_statement_lists_reserved_columns_then_known_columns() {
    assert_eq!(
        persons().create_statement(),
        "CREATE TABLE IF NOT EXISTS persons (run_id TEXT, created_at TEXT, last_modified TEXT, \
         completed_at TEXT, first_name TEXT)"
    );
}

#[test]
fn create_statement_without_known_columns_has_the_reserved_ones_only() {
    let t = Table::new("runs".to_string(), Vec::new()).unwrap();
    assert_eq!(
        t.create_statement(),
        "CREATE TABLE IF NOT EXISTS runs (run_id TEXT, created_at TEXT, last_modified TEXT, \
         completed_at TEXT)"
    );
}

#[test]
fn create_statement_renders_each_kind_by_its_storage_type() {
    let t = Table::new(
        "m".to_string(),
        vec![column("loss", ColType::Real), column("tag", ColType::Category)],
    )
    .unwrap();
    assert_eq!(
        t.create_statement(),
        "CREATE TABLE IF NOT EXISTS m (run_id TEXT, created_at TEXT, last_modified TEXT, \
         completed_at TEXT, loss REAL, tag TEXT)"
    );
}

#[test]
fn create_statement_is_the_same_every_time() {
    let t = persons();
    assert_eq!(t.create_statement(), t.create_statement());
}

#[test]
fn insert_statement_binds_identifier_and_creation_time() {
    assert_eq!(
        persons().insert_statement(),
        "INSERT INTO persons (run_id, created_at) VALUES (?, ?)"
    );
}

#[test]
fn update_statement_sets_the_field_and_stamps_the_row() {
    let run = RunId::from_u128(0xa1a2a3a4b1b2c1c2d1d2d3d4d5d6d7d8);
    assert_eq!(
        persons().update_statement(run, "first_name", "Evan", "14/11/2023 22:13:20"),
        "UPDATE persons SET first_name = 'Evan', last_modified = '14/11/2023 22:13:20' WHERE \
         run_id = 'a1a2a3a4-b1b2-c1c2-d1d2-d3d4d5d6d7d8';"
    );
}

#[test]
fn add_column_statement_always_adds_text() {
    assert_eq!(
        persons().add_column_statement("last_name"),
        "ALTER TABLE persons ADD last_name TEXT"
    );
}

#[test]
fn describe_statement_names_the_table() {
    assert_eq!(persons().describe_statement(), "pragma table_info(persons)");
    let other = Table::new("pets".to_string(), Vec::new()).unwrap();
    assert_eq!(other.describe_statement(), "pragma table_info(pets)");
}

#[test]
fn join_declarations_separates_by_comma_and_space() {
    assert_eq!(join_declarations(&Vec::new()), "");
    assert_eq!(join_declarations(&vec![column("a", ColType::Text)]), "a TEXT");
    assert_eq!(
        join_declarations(&vec![column("a", ColType::Text), column("b", ColType::Real)]),
        "a TEXT, b REAL"
    );
}

#[test]
fn the_reserved_columns_are_four_in_their_order() {
    let r = reserved();
    let names: Vec<&str> = r.iter().map(|c| c.name.as_str()).collect();
    assert_eq!(names, vec!["run_id", "created_at", "last_modified", "completed_at"]);
    assert_eq!(r[0].dtype, ColType::Uuid);
    assert_eq!(r[1].dtype, ColType::Time);
    assert_eq!(r[2].dtype, ColType::Time);
    assert_eq!(r[3].dtype, ColType::Time);
}

#[test]
fn reserved_names_are_recognised_exactly() {
    assert!(is_reserved(&"run_id".to_string()));
    assert!(is_reserved(&"created_at".to_string()));
    assert!(is_reserved(&"last_modified".to_string()));
    assert!(is_reserved(&"completed_at".to_string()));
    assert!(!is_reserved(&"first_name".to_string()));
    assert!(!is_reserved(&"RUN_ID".to_string()));
    assert!(!is_reserved(&"run_id ".to_string()));
    assert!(!is_reserved(&"".to_string()));
}

#[test]
fn a_table_keeps_its_name_and_columns() {
    let t = persons();
    assert_eq!(t.name(), "persons");
    assert_eq!(t.columns().len(), 1);
    assert_eq!(t.columns()[0].name, "first_name");
    assert_eq!(t.columns()[0].dtype, ColType::Text);
    let all = t.all_columns();
    assert_eq!(all.len(), 5);
    assert_eq!(all[4].name, "first_name");
}

#[test]
fn a_reserved_column_name_is_a_configuration_error() {
    let made = Table::new(
        "persons".to_string(),
        vec![
            column("first_name", ColType::Text),
            column("created_at", ColType::Time),
            column("run_id", ColType::Uuid),
        ],
    );
    let e = made.unwrap_err();
    assert_eq!(e.kind, ErrorKind::Configuration);
    assert_eq!(e.operation, Operation::Configure);
    assert_eq!(e.table, "persons");
    assert_eq!(e.detail, "created_at");
    assert_eq!(e.message(), "Could not configure table: persons (created_at)");
}

#[test]
fn duplicate_known_columns_are_left_to_the_backend() {
    let made = Table::new(
        "persons".to_string(),
        vec![column("first_name", ColType::Text), column("first_name", ColType::Text)],
    );
    assert!(made.is_ok());
}

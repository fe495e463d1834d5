use algovault::column::{to_sqlite, ColType, Column};

fn column(name: &str, dtype: ColType) -> Column {
    Column { name: name.to_string(), dtype }
}

#[test]
fn text_column_is_declared_as_text() {
    assert_eq!(to_sqlite(&column("first_name", ColType::Text)), "first_name TEXT");
}

#[test]
fn real_column_is_declared_as_real() {
    assert_eq!(to_sqlite(&column("score", ColType::Real)), "score REAL");
}

#[test]
fn time_uuid_and_category_columns_are_declared_as_text() {
    assert_eq!(to_sqlite(&column("seen_at", ColType::Time)), "seen_at TEXT");
    assert_eq!(to_sqlite(&column("owner", ColType::Uuid)), "owner TEXT");
    assert_eq!(to_sqlite(&column("group", ColType::Category)), "group TEXT");
}

#[test]
fn only_real_maps_to_the_numeric_storage_type() {
    assert_eq!(ColType::Text.sqlite_type(), "TEXT");
    assert_eq!(ColType::Real.sqlite_type(), "REAL");
    assert_eq!(ColType::Time.sqlite_type(), "TEXT");
    assert_eq!(ColType::Uuid.sqlite_type(), "TEXT");
    assert_eq!(ColType::Category.sqlite_type(), "TEXT");
}

#[test]
fn a_column_with_an_empty_name_keeps_the_separating_space() {
    assert_eq!(to_sqlite(&column("", ColType::Real)), " REAL");
}

#[test]
fn cloning_a_column_keeps_name_and_kind() {
    let c = column("first_name", ColType::Category);
    let d = c.clone();
    assert_eq!(d.name, "first_name");
    assert_eq!(d.dtype, ColType::Category);
}

use vstd::prelude::*;
use crate::column::{column_decl_text, to_sqlite, ColType, Column, ColumnView};
use crate::error::{ErrorKind, Operation, StoreError, StoreErrorView};
use crate::run::{hyphenated_text, RunId};
use crate::text::same_text;

verus! {

/// The four column names that every table has by itself.
pub open spec fn is_reserved_name(name: Seq<char>) -> bool {
    name == "run_id"@ || name == "created_at"@ || name == "last_modified"@ || name
        == "completed_at"@
}

/// The reserved columns, in the order in which a table declares them.
pub open spec fn reserved_columns() -> Seq<ColumnView> {
    seq![
        ColumnView { name: "run_id"@, dtype: ColType::Uuid },
        ColumnView { name: "created_at"@, dtype: ColType::Time },
        ColumnView { name: "last_modified"@, dtype: ColType::Time },
        ColumnView { name: "completed_at"@, dtype: ColType::Time },
    ]
}

/// The contents of a vector of columns.
pub open spec fn column_views(columns: Seq<Column>) -> Seq<ColumnView> {
    Seq::new(columns.len(), |i: int| columns[i]@)
}

/// No column has a reserved name.
pub open spec fn no_reserved_names(columns: Seq<ColumnView>) -> bool {
    forall|i: int| 0 <= i < columns.len() ==> !is_reserved_name(#[trigger] columns[i].name)
}

/// The column declarations, separated by a comma and a space.
pub open spec fn joined_declarations(columns: Seq<ColumnView>) -> Seq<char>
    decreases columns.len(),
{
    if columns.len() == 0 {
        Seq::empty()
    } else if columns.len() == 1 {
        column_decl_text(columns[0].name, columns[0].dtype)
    } else {
        joined_declarations(columns.drop_last()) + ", "@ + column_decl_text(
            columns.last().name,
            columns.last().dtype,
        )
    }
}

/// The mathematical content of a `Table`: its name and its known columns.
pub struct TableView {
    pub name: Seq<char>,
    pub columns: Seq<ColumnView>,
}

/// The statement that creates a table unless it exists: the reserved
/// columns first, then the known columns.
pub open spec fn create_table_text(t: TableView) -> Seq<char> {
    "CREATE TABLE IF NOT EXISTS "@ + t.name + " ("@ + joined_declarations(
        reserved_columns() + t.columns,
    ) + ")"@
}

/// The statement that inserts the row of a new run; the identifier and the
/// creation time are bound to its two parameters.
pub open spec fn insert_run_text(table: Seq<char>) -> Seq<char> {
    "INSERT INTO "@ + table + " (run_id, created_at) VALUES (?, ?)"@
}

/// The statement that writes one field of one run and stamps the row.
pub open spec fn update_field_text(
    table: Seq<char>,
    key: Seq<char>,
    value: Seq<char>,
    now: Seq<char>,
    run: Seq<char>,
) -> Seq<char> {
    "UPDATE "@ + table + " SET "@ + key + " = '"@ + value + "', last_modified = '"@ + now
        + "' WHERE run_id = '"@ + run + "';"@
}

/// The statement that adds a column; a column added later always holds text.
pub open spec fn add_column_text(table: Seq<char>, column: Seq<char>) -> Seq<char> {
    "ALTER TABLE "@ + table + " ADD "@ + column + " TEXT"@
}

/// The statement that asks the backend for the table's live columns.
pub open spec fn describe_text(table: Seq<char>) -> Seq<char> {
    "pragma table_info("@ + table + ")"@
}

/// Whether a name is one of the reserved column names.
pub fn is_reserved(name: &String) -> (reserved: bool)
    ensures
        reserved == is_reserved_name(name@),
{
    same_text(name, "run_id") || same_text(name, "created_at") || same_text(name, "last_modified")
        || same_text(name, "completed_at")
}

/// The reserved columns as values.
pub fn reserved() -> (columns: Vec<Column>)
    ensures
        column_views(columns@) == reserved_columns(),
{
    let mut columns: Vec<Column> = Vec::new();
    columns.push(Column { name: "run_id".to_owned(), dtype: ColType::Uuid });
    columns.push(Column { name: "created_at".to_owned(), dtype: ColType::Time });
    columns.push(Column { name: "last_modified".to_owned(), dtype: ColType::Time });
    columns.push(Column { name: "completed_at".to_owned(), dtype: ColType::Time });
    assert(column_views(columns@) =~= reserved_columns());
    columns
}

/// Joining one more declaration onto a list that is not empty.
proof fn lemma_join_step(columns: Seq<ColumnView>, n: int)
    requires
        0 <= n < columns.len(),
    ensures
        joined_declarations(columns.subrange(0, n + 1)) == if n == 0 {
            column_decl_text(columns[0].name, columns[0].dtype)
        } else {
            joined_declarations(columns.subrange(0, n)) + ", "@ + column_decl_text(
                columns[n].name,
                columns[n].dtype,
            )
        },
{
    let head = columns.subrange(0, n + 1);
    assert(head.last() == columns[n]);
    assert(head.drop_last() =~= columns.subrange(0, n));
}

/// Renders the declarations of the columns, separated by a comma and a
/// space.
pub fn join_declarations(columns: &Vec<Column>) -> (text: String)
    ensures
        text@ == joined_declarations(column_views(columns@)),
{
    let ghost views = column_views(columns@);
    let mut text = String::new();
    let mut i: usize = 0;
    while i < columns.len()
        invariant
            i <= columns.len(),
            views == column_views(columns@),
            text@ == joined_declarations(views.subrange(0, i as int)),
        decreases columns.len() - i,
    {
        proof {
            lemma_join_step(views, i as int);
        }
        if i > 0 {
            text.append(", ");
        }
        let declaration = to_sqlite(&columns[i]);
        text.append(declaration.as_str());
        i = i + 1;
    }
    assert(views.subrange(0, i as int) =~= views);
    text
}

/// One logical table of runs: its name and the columns the client knows.
/// None of the known columns has a reserved name.
#[derive(Debug)]
pub struct Table {
    name: String,
    columns: Vec<Column>,
}

impl View for Table {
    type V = TableView;

    closed spec fn view(&self) -> TableView {
        TableView { name: self.name@, columns: column_views(self.columns@) }
    }
}

impl Table {
    #[verifier::type_invariant]
    spec fn holds_no_reserved_name(self) -> bool {
        no_reserved_names(column_views(self.columns@))
    }

    /// A table with the given name and known columns. A column whose name
    /// is reserved is a configuration error, reported with the first such
    /// name.
    pub fn new(name: String, columns: Vec<Column>) -> (made: Result<Table, StoreError>)
        ensures
            made is Ok <==> no_reserved_names(column_views(columns@)),
            match made {
                Ok(table) => table@ == (TableView {
                    name: name@,
                    columns: column_views(columns@),
                }),
                Err(e) => exists|i: int|
                    {
                        &&& 0 <= i < columns.len()
                        &&& is_reserved_name(#[trigger] columns[i].name@)
                        &&& no_reserved_names(column_views(columns@).subrange(0, i))
                        &&& e@ == (StoreErrorView {
                            kind: ErrorKind::Configuration,
                            operation: Operation::Configure,
                            table: name@,
                            detail: columns[i].name@,
                        })
                    },
            },
    {
        let ghost views = column_views(columns@);
        let mut i: usize = 0;
        while i < columns.len()
            invariant
                i <= columns.len(),
                views == column_views(columns@),
                no_reserved_names(views.subrange(0, i as int)),
            decreases columns.len() - i,
        {
            if is_reserved(&columns[i].name) {
                assert(views[i as int].name == columns[i as int].name@);
                return Err(
                    StoreError::new(
                        ErrorKind::Configuration,
                        Operation::Configure,
                        name.as_str(),
                        columns[i].name.as_str(),
                    ),
                );
            }
            assert forall|j: int| 0 <= j < i + 1 implies !is_reserved_name(
                #[trigger] views.subrange(0, i + 1)[j].name,
            ) by {
                if j < i {
                    assert(views.subrange(0, i as int)[j] == views[j]);
                }
            }
            i = i + 1;
        }
        assert(views.subrange(0, i as int) =~= views);
        Ok(Table { name, columns })
    }

    /// The table's name.
    pub fn name(&self) -> (name: &String)
        ensures
            name@ == self@.name,
    {
        &self.name
    }

    /// The columns the client knows, none of them reserved.
    pub fn columns(&self) -> (columns: &Vec<Column>)
        ensures
            column_views(columns@) == self@.columns,
            no_reserved_names(self@.columns),
    {
        proof {
            use_type_invariant(self);
        }
        &self.columns
    }

    /// The reserved columns followed by the known columns.
    pub fn all_columns(&self) -> (all: Vec<Column>)
        ensures
            column_views(all@) == reserved_columns() + self@.columns,
    {
        let mut all = reserved();
        let mut i: usize = 0;
        while i < self.columns.len()
            invariant
                i <= self.columns.len(),
                column_views(all@) == reserved_columns() + column_views(self.columns@).subrange(
                    0,
                    i as int,
                ),
            decreases self.columns.len() - i,
        {
            let ghost before = column_views(all@);
            all.push(self.columns[i].clone());
            assert(column_views(all@) =~= before.push(self.columns[i as int]@));
            assert(column_views(self.columns@).subrange(0, i + 1) =~= column_views(
                self.columns@,
            ).subrange(0, i as int).push(self.columns[i as int]@));
            i = i + 1;
        }
        assert(column_views(self.columns@).subrange(0, i as int) =~= column_views(self.columns@));
        all
    }

    /// The statement that creates the table unless it exists.
    pub fn create_statement(&self) -> (q: String)
        ensures
            q@ == create_table_text(self@),
    {
        let all = self.all_columns();
        let declarations = join_declarations(&all);
        let mut q = "CREATE TABLE IF NOT EXISTS ".to_owned();
        q.append(self.name.as_str());
        q.append(" (");
        q.append(declarations.as_str());
        q.append(")");
        q
    }

    /// The statement that inserts the row of a new run.
    pub fn insert_statement(&self) -> (q: String)
        ensures
            q@ == insert_run_text(self@.name),
    {
        let mut q = "INSERT INTO ".to_owned();
        q.append(self.name.as_str());
        q.append(" (run_id, created_at) VALUES (?, ?)");
        q
    }

    /// The statement that sets the field `key` of the run to `value` and
    /// `last_modified` to `now`.
    pub fn update_statement(&self, run: RunId, key: &str, value: &str, now: &str) -> (q: String)
        ensures
            q@ == update_field_text(self@.name, key@, value@, now@, hyphenated_text(run.value)),
    {
        update_statement(self.name.as_str(), run, key, value, now)
    }

    /// The statement that adds the column `column` to the table.
    pub fn add_column_statement(&self, column: &str) -> (q: String)
        ensures
            q@ == add_column_text(self@.name, column@),
    {
        add_column_statement(self.name.as_str(), column)
    }

    /// The statement that asks for the table's live columns.
    pub fn describe_statement(&self) -> (q: String)
        ensures
            q@ == describe_text(self@.name),
    {
        let mut q = "pragma table_info(".to_owned();
        q.append(self.name.as_str());
        q.append(")");
        q
    }
}

/// The statement that sets the field `key` of the run to `value` and
/// `last_modified` to `now`, in the table named `table`.
pub fn update_statement(table: &str, run: RunId, key: &str, value: &str, now: &str) -> (q: String)
    ensures
        q@ == update_field_text(table@, key@, value@, now@, hyphenated_text(run.value)),
{
    let id = run.hyphenated();
    let mut q = "UPDATE ".to_owned();
    q.append(table);
    q.append(" SET ");
    q.append(key);
    q.append(" = '");
    q.append(value);
    q.append("', last_modified = '");
    q.append(now);
    q.append("' WHERE run_id = '");
    q.append(id.as_str());
    q.append("';");
    q
}

/// The statement that adds the column `column` to the table named `table`.
pub fn add_column_statement(table: &str, column: &str) -> (q: String)
    ensures
        q@ == add_column_text(table@, column@),
{
    let mut q = "ALTER TABLE ".to_owned();
    q.append(table);
    q.append(" ADD ");
    q.append(column);
    q.append(" TEXT");
    q
}

} // verus!

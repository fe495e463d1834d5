use vstd::prelude::*;
use crate::backend::{indicates_duplicate_column, indicates_missing_column, ReplyView};
use crate::evolve::{Phase, SetCallView};
use crate::table::{is_reserved_name, TableView};

verus! {

/// The backend's table as the store takes it to behave: whether it was
/// created, which columns it has besides the reserved ones, and for each
/// run the fields that were written. Every statement is executed as a
/// whole or not at all.
pub struct Backend {
    pub created: bool,
    pub columns: Set<Seq<char>>,
    pub rows: Map<u128, Map<Seq<char>, Seq<char>>>,
}

/// The statements that the store sends, by what they ask for.
pub enum Command {
    Create { columns: Seq<Seq<char>> },
    Insert { run: u128, created_at: Seq<char> },
    Update { run: u128, key: Seq<char>, value: Seq<char>, now: Seq<char> },
    AddColumn { column: Seq<char> },
}

/// How the backend answers a statement, apart from the wording of a
/// refusal.
pub enum Answer {
    Executed { rows_affected: nat },
    NoTable,
    MissingColumn,
    DuplicateColumn,
}

/// A backend in which nothing was created yet.
pub open spec fn empty_backend() -> Backend {
    Backend { created: false, columns: Set::empty(), rows: Map::empty() }
}

/// The table has the column, reserved or added.
pub open spec fn has_column(b: Backend, column: Seq<char>) -> bool {
    is_reserved_name(column) || b.columns.contains(column)
}

/// The names in a list of declared columns.
pub open spec fn declared_names(columns: Seq<Seq<char>>) -> Set<Seq<char>> {
    Set::new(|name: Seq<char>| columns.contains(name))
}

/// The backend's answer to a statement.
pub open spec fn answer(b: Backend, command: Command) -> Answer {
    match command {
        Command::Create { columns } => Answer::Executed { rows_affected: 0 },
        Command::Insert { run, created_at } => if b.created {
            Answer::Executed { rows_affected: 1 }
        } else {
            Answer::NoTable
        },
        Command::Update { run, key, value, now } => if !b.created {
            Answer::NoTable
        } else if !has_column(b, key) {
            Answer::MissingColumn
        } else if b.rows.dom().contains(run) {
            Answer::Executed { rows_affected: 1 }
        } else {
            Answer::Executed { rows_affected: 0 }
        },
        Command::AddColumn { column } => if !b.created {
            Answer::NoTable
        } else if has_column(b, column) {
            Answer::DuplicateColumn
        } else {
            Answer::Executed { rows_affected: 0 }
        },
    }
}

/// The backend after a statement. A statement that is refused changes
/// nothing; creating a table that exists changes nothing; an update
/// touches the one row of its run, if there is one.
pub open spec fn after(b: Backend, command: Command) -> Backend {
    if !(answer(b, command) is Executed) {
        b
    } else {
        match command {
            Command::Create { columns } => if b.created {
                b
            } else {
                Backend { created: true, columns: b.columns + declared_names(columns), rows: b.rows }
            },
            Command::Insert { run, created_at } => Backend {
                rows: b.rows.insert(run, map!["created_at"@ => created_at]),
                ..b
            },
            Command::Update { run, key, value, now } => if b.rows.dom().contains(run) {
                Backend {
                    rows: b.rows.insert(
                        run,
                        b.rows[run].insert(key, value).insert("last_modified"@, now),
                    ),
                    ..b
                }
            } else {
                b
            },
            Command::AddColumn { column } => Backend { columns: b.columns.insert(column), ..b },
        }
    }
}

/// The backend after a list of statements, one after the other.
pub open spec fn after_all(b: Backend, commands: Seq<Command>) -> Backend
    decreases commands.len(),
{
    if commands.len() == 0 {
        b
    } else {
        after(after_all(b, commands.drop_last()), commands.last())
    }
}

/// A reply that the backend may give for an answer: an executed statement
/// reports the rows it affected, and the message of a refusal names its
/// reason.
pub open spec fn reply_agrees(reply: ReplyView, expected: Answer) -> bool {
    match expected {
        Answer::Executed { rows_affected } => reply matches ReplyView::Done {
            rows_affected: reported,
            ..
        } && reported == rows_affected,
        Answer::NoTable => reply is Rejected,
        Answer::MissingColumn => reply matches ReplyView::Rejected { message }
            && indicates_missing_column(message),
        Answer::DuplicateColumn => reply matches ReplyView::Rejected { message }
            && indicates_duplicate_column(message),
    }
}

/// What the statement of `create_statement` asks for.
pub open spec fn create_command(table: TableView) -> Command {
    Command::Create { columns: Seq::new(table.columns.len(), |i: int| table.columns[i].name) }
}

/// What the statement in flight of a field write asks for.
pub open spec fn command_of(call: SetCallView) -> Command {
    match call.phase {
        Phase::AddColumn => Command::AddColumn { column: call.key },
        _ => Command::Update { run: call.run, key: call.key, value: call.value, now: call.now },
    }
}

} // verus!

use vstd::prelude::*;

verus! {

/// What went wrong, by the kind of failure.
#[derive(Clone, Copy, Debug, PartialEq, Eq, Structural)]
pub enum ErrorKind {
    /// A caller-supplied column name equals a reserved column name.
    Configuration,
    /// The backend refused a schema statement for a reason other than the
    /// column being there already.
    Schema,
    /// The backend refused to add a column because it exists already.
    DuplicateColumn,
    /// The backend refused to insert the row of a new run.
    Insert,
    /// The backend refused a field write, after any retry that applied.
    Update,
    /// The backend could not be reached or no connection was to be had.
    Connection,
}

/// The operation during which an error arose.
#[derive(Clone, Copy, Debug, PartialEq, Eq, Structural)]
pub enum Operation {
    Configure,
    CreateTable,
    Describe,
    AddColumn,
    StartRun,
    SetField,
}

/// An error of the store: its kind, the operation and table it arose in,
/// and the backend's message or the offending name.
#[derive(Debug)]
pub struct StoreError {
    pub kind: ErrorKind,
    pub operation: Operation,
    pub table: String,
    pub detail: String,
}

/// The mathematical content of a `StoreError`.
pub struct StoreErrorView {
    pub kind: ErrorKind,
    pub operation: Operation,
    pub table: Seq<char>,
    pub detail: Seq<char>,
}

impl View for StoreError {
    type V = StoreErrorView;

    open spec fn view(&self) -> StoreErrorView {
        StoreErrorView {
            kind: self.kind,
            operation: self.operation,
            table: self.table@,
            detail: self.detail@,
        }
    }
}

impl Clone for StoreError {
    fn clone(&self) -> (copy: Self)
        ensures
            copy@ == self@,
    {
        StoreError {
            kind: self.kind,
            operation: self.operation,
            table: self.table.clone(),
            detail: self.detail.clone(),
        }
    }
}

/// How an operation is named in an error's text.
pub open spec fn operation_phrase(operation: Operation) -> Seq<char> {
    match operation {
        Operation::Configure => "Could not configure table"@,
        Operation::CreateTable => "Could not create table"@,
        Operation::Describe => "Could not describe table"@,
        Operation::AddColumn => "Could not add column to table"@,
        Operation::StartRun => "Could not start run in table"@,
        Operation::SetField => "Could not set field in table"@,
    }
}

/// The text of an error: the operation's phrase, a colon, the table, and
/// the detail in parentheses.
pub open spec fn error_text(e: StoreErrorView) -> Seq<char> {
    operation_phrase(e.operation) + ": "@ + e.table + " ("@ + e.detail + ")"@
}

impl Operation {
    /// The phrase that names this operation in an error's text.
    pub fn phrase(&self) -> (s: &'static str)
        ensures
            s@ == operation_phrase(*self),
    {
        match self {
            Operation::Configure => "Could not configure table",
            Operation::CreateTable => "Could not create table",
            Operation::Describe => "Could not describe table",
            Operation::AddColumn => "Could not add column to table",
            Operation::StartRun => "Could not start run in table",
            Operation::SetField => "Could not set field in table",
        }
    }
}

impl StoreError {
    /// An error of the given kind with its context.
    pub fn new(kind: ErrorKind, operation: Operation, table: &str, detail: &str) -> (e: StoreError)
        ensures
            e@ == (StoreErrorView { kind, operation, table: table@, detail: detail@ }),
    {
        StoreError { kind, operation, table: table.to_owned(), detail: detail.to_owned() }
    }

    /// The error as one line of text.
    pub fn message(&self) -> (s: String)
        ensures
            s@ == error_text(self@),
    {
        let mut s = self.operation.phrase().to_owned();
        s.append(": ");
        s.append(self.table.as_str());
        s.append(" (");
        s.append(self.detail.as_str());
        s.append(")");
        s
    }
}

} // verus!

use vstd::prelude::*;
use crate::backend::{
    indicates_duplicate_column, indicates_missing_column, is_duplicate_column, is_missing_column,
    BackendReply, ReplyView,
};
use crate::error::{ErrorKind, Operation, StoreError, StoreErrorView};
use crate::table::Table;

verus! {

/// What a statement left behind when the backend executed it.
#[derive(Clone, Copy, Debug, PartialEq, Eq, Structural)]
pub struct Executed {
    pub rows_affected: u64,
    pub last_insert_rowid: i64,
}

/// The kind of error that a refused statement of an operation amounts to.
/// A column that exists already is told apart from other schema failures,
/// and a missing column under an insert is a failure of the schema.
pub open spec fn rejection_kind(operation: Operation, message: Seq<char>) -> ErrorKind {
    match operation {
        Operation::Configure => ErrorKind::Configuration,
        Operation::CreateTable => ErrorKind::Schema,
        Operation::Describe => ErrorKind::Schema,
        Operation::AddColumn => if indicates_duplicate_column(message) {
            ErrorKind::DuplicateColumn
        } else {
            ErrorKind::Schema
        },
        Operation::StartRun => if indicates_missing_column(message) {
            ErrorKind::Schema
        } else {
            ErrorKind::Insert
        },
        Operation::SetField => ErrorKind::Update,
    }
}

/// What a backend reply means for an operation on a table: the statement's
/// effect, or the error with the operation and the table as its context.
pub open spec fn reply_outcome(table: Seq<char>, operation: Operation, reply: ReplyView) -> Result<
    Executed,
    StoreErrorView,
> {
    match reply {
        ReplyView::Done { rows_affected, last_insert_rowid } => Ok(
            Executed { rows_affected, last_insert_rowid },
        ),
        ReplyView::Rejected { message } => Err(
            StoreErrorView {
                kind: rejection_kind(operation, message),
                operation,
                table,
                detail: message,
            },
        ),
        ReplyView::Unreachable { message } => Err(
            StoreErrorView { kind: ErrorKind::Connection, operation, table, detail: message },
        ),
    }
}

/// The view of a result whose error is a `StoreError`.
pub open spec fn result_view<T>(r: Result<T, StoreError>) -> Result<T, StoreErrorView> {
    match r {
        Ok(v) => Ok(v),
        Err(e) => Err(e@),
    }
}

/// Classifies the message of a refused statement.
pub fn classify_rejection(operation: Operation, message: &str) -> (kind: ErrorKind)
    ensures
        kind == rejection_kind(operation, message@),
{
    match operation {
        Operation::Configure => ErrorKind::Configuration,
        Operation::CreateTable => ErrorKind::Schema,
        Operation::Describe => ErrorKind::Schema,
        Operation::AddColumn => if is_duplicate_column(message) {
            ErrorKind::DuplicateColumn
        } else {
            ErrorKind::Schema
        },
        Operation::StartRun => if is_missing_column(message) {
            ErrorKind::Schema
        } else {
            ErrorKind::Insert
        },
        Operation::SetField => ErrorKind::Update,
    }
}

/// Reads a backend reply for an operation on the table named `table`.
pub fn read_reply(table: &str, operation: Operation, reply: &BackendReply) -> (outcome: Result<
    Executed,
    StoreError,
>)
    ensures
        result_view(outcome) == reply_outcome(table@, operation, reply@),
{
    match reply {
        BackendReply::Done { rows_affected, last_insert_rowid } => Ok(
            Executed { rows_affected: *rows_affected, last_insert_rowid: *last_insert_rowid },
        ),
        BackendReply::Rejected { message } => Err(
            StoreError::new(
                classify_rejection(operation, message.as_str()),
                operation,
                table,
                message.as_str(),
            ),
        ),
        BackendReply::Unreachable { message } => Err(
            StoreError::new(ErrorKind::Connection, operation, table, message.as_str()),
        ),
    }
}

impl Table {
    /// The result of creating the table, from the backend's reply to the
    /// statement of `create_statement`.
    pub fn finish_create(&self, reply: &BackendReply) -> (done: Result<(), StoreError>)
        ensures
            result_view(done) == match reply_outcome(self@.name, Operation::CreateTable, reply@) {
                Ok(_) => Ok(()),
                Err(e) => Err(e),
            },
    {
        match read_reply(self.name().as_str(), Operation::CreateTable, reply) {
            Ok(_) => Ok(()),
            Err(e) => Err(e),
        }
    }

    /// The result of adding a column, from the backend's reply to the
    /// statement of `add_column_statement`: the number of rows affected.
    pub fn finish_add_column(&self, reply: &BackendReply) -> (done: Result<u64, StoreError>)
        ensures
            result_view(done) == match reply_outcome(self@.name, Operation::AddColumn, reply@) {
                Ok(executed) => Ok(executed.rows_affected),
                Err(e) => Err(e),
            },
    {
        match read_reply(self.name().as_str(), Operation::AddColumn, reply) {
            Ok(executed) => Ok(executed.rows_affected),
            Err(e) => Err(e),
        }
    }
}

} // verus!

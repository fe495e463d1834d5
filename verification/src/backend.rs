use vstd::prelude::*;
use crate::text::{contains_text, occurs_in};

verus! {

/// What the backend answered to one statement.
#[derive(Debug)]
pub enum BackendReply {
    /// The statement was executed.
    Done { rows_affected: u64, last_insert_rowid: i64 },
    /// The backend refused the statement, with its message.
    Rejected { message: String },
    /// The backend could not be reached, or no connection was to be had.
    Unreachable { message: String },
}

/// The mathematical content of a `BackendReply`.
pub enum ReplyView {
    Done { rows_affected: u64, last_insert_rowid: i64 },
    Rejected { message: Seq<char> },
    Unreachable { message: Seq<char> },
}

impl View for BackendReply {
    type V = ReplyView;

    open spec fn view(&self) -> ReplyView {
        match self {
            BackendReply::Done { rows_affected, last_insert_rowid } => ReplyView::Done {
                rows_affected: *rows_affected,
                last_insert_rowid: *last_insert_rowid,
            },
            BackendReply::Rejected { message } => ReplyView::Rejected { message: message@ },
            BackendReply::Unreachable { message } => ReplyView::Unreachable { message: message@ },
        }
    }
}

impl Clone for BackendReply {
    fn clone(&self) -> (copy: Self)
        ensures
            copy@ == self@,
    {
        match self {
            BackendReply::Done { rows_affected, last_insert_rowid } => BackendReply::Done {
                rows_affected: *rows_affected,
                last_insert_rowid: *last_insert_rowid,
            },
            BackendReply::Rejected { message } => BackendReply::Rejected {
                message: message.clone(),
            },
            BackendReply::Unreachable { message } => BackendReply::Unreachable {
                message: message.clone(),
            },
        }
    }
}

/// The message says that a statement named a column the table lacks.
pub open spec fn indicates_missing_column(message: Seq<char>) -> bool {
    occurs_in("no such column"@, message)
}

/// The message says that a column to be added is there already.
pub open spec fn indicates_duplicate_column(message: Seq<char>) -> bool {
    occurs_in("duplicate column"@, message)
}

/// Whether a backend message reports a missing column.
pub fn is_missing_column(message: &str) -> (missing: bool)
    ensures
        missing == indicates_missing_column(message@),
{
    contains_text(message, "no such column")
}

/// Whether a backend message reports that a column exists already.
pub fn is_duplicate_column(message: &str) -> (duplicate: bool)
    ensures
        duplicate == indicates_duplicate_column(message@),
{
    contains_text(message, "duplicate column")
}

} // verus!

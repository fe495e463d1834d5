use vstd::prelude::*;
use crate::backend::{
    indicates_duplicate_column, indicates_missing_column, is_duplicate_column, is_missing_column,
    BackendReply, ReplyView,
};
use crate::clock::{now_as_str, utc_timestamp_text};
use crate::error::{ErrorKind, Operation, StoreError, StoreErrorView};
use crate::outcome::{read_reply, reply_outcome};
use crate::run::{hyphenated_text, RunId};
use crate::table::{
    add_column_statement, add_column_text, is_reserved, is_reserved_name, update_field_text,
    update_statement, Table,
};

verus! {

/// Where one field write stands: which statement it has in flight.
#[derive(Clone, Copy, Debug, PartialEq, Eq, Structural)]
pub enum Phase {
    /// The first attempt of the update.
    Update,
    /// The column was missing: it is being added.
    AddColumn,
    /// The one retry of the same update.
    Retry,
}

/// One field write under way: what it writes, where, and its phase. The
/// field's name is never a reserved column name.
#[derive(Debug)]
pub struct SetCall {
    table: String,
    run: RunId,
    key: String,
    value: String,
    now: String,
    phase: Phase,
}

/// The mathematical content of a `SetCall`.
pub struct SetCallView {
    pub table: Seq<char>,
    pub run: u128,
    pub key: Seq<char>,
    pub value: Seq<char>,
    pub now: Seq<char>,
    pub phase: Phase,
}

impl View for SetCall {
    type V = SetCallView;

    closed spec fn view(&self) -> SetCallView {
        SetCallView {
            table: self.table@,
            run: self.run.value,
            key: self.key@,
            value: self.value@,
            now: self.now@,
            phase: self.phase,
        }
    }
}

/// What a field write has come to after a reply.
#[derive(Debug)]
pub enum SetProgress {
    /// Another statement is to be executed.
    Continue(SetCall),
    /// The write is over: the row id that the backend reported, or the
    /// error.
    Finished(Result<i64, StoreError>),
}

/// The mathematical content of a `SetProgress`.
pub enum SetProgressView {
    Continue(SetCallView),
    Finished(Result<i64, StoreErrorView>),
}

impl View for SetProgress {
    type V = SetProgressView;

    open spec fn view(&self) -> SetProgressView {
        match self {
            SetProgress::Continue(call) => SetProgressView::Continue(call@),
            SetProgress::Finished(Ok(row)) => SetProgressView::Finished(Ok(*row)),
            SetProgress::Finished(Err(e)) => SetProgressView::Finished(Err(e@)),
        }
    }
}

/// The operation that a phase's statement belongs to.
pub open spec fn phase_operation(phase: Phase) -> Operation {
    match phase {
        Phase::AddColumn => Operation::AddColumn,
        _ => Operation::SetField,
    }
}

/// The statement that a field write has in flight: the update in the first
/// attempt and, letter for letter the same, in the retry; the column's
/// addition in between.
pub open spec fn statement_text(call: SetCallView) -> Seq<char> {
    match call.phase {
        Phase::AddColumn => add_column_text(call.table, call.key),
        _ => update_field_text(call.table, call.key, call.value, call.now, hyphenated_text(call.run)),
    }
}

/// The same field write in another phase.
pub open spec fn in_phase(call: SetCallView, phase: Phase) -> SetCallView {
    SetCallView { phase, ..call }
}

/// The lazy column evolution protocol, one reply at a time.
///
/// An executed update ends the write with the row id. A first update that
/// is refused for a missing column leads to the column's addition; any other
/// refusal of an update ends the write with the error. An addition that is
/// executed, or refused because the column exists already, leads to the one
/// retry; any other refusal ends the write with the error. A backend that
/// cannot be reached ends the write at once.
pub open spec fn next_progress(call: SetCallView, reply: ReplyView) -> SetProgressView {
    let failure = reply_outcome(call.table, phase_operation(call.phase), reply);
    match reply {
        ReplyView::Done { rows_affected, last_insert_rowid } => match call.phase {
            Phase::AddColumn => SetProgressView::Continue(in_phase(call, Phase::Retry)),
            _ => SetProgressView::Finished(Ok(last_insert_rowid)),
        },
        ReplyView::Rejected { message } => match call.phase {
            Phase::Update => if indicates_missing_column(message) {
                SetProgressView::Continue(in_phase(call, Phase::AddColumn))
            } else {
                SetProgressView::Finished(Err(failure->Err_0))
            },
            Phase::AddColumn => if indicates_duplicate_column(message) {
                SetProgressView::Continue(in_phase(call, Phase::Retry))
            } else {
                SetProgressView::Finished(Err(failure->Err_0))
            },
            Phase::Retry => SetProgressView::Finished(Err(failure->Err_0)),
        },
        ReplyView::Unreachable { message } => SetProgressView::Finished(Err(failure->Err_0)),
    }
}

/// How many statements a field write in this phase may still execute.
pub open spec fn statements_left(phase: Phase) -> nat {
    match phase {
        Phase::Update => 3,
        Phase::AddColumn => 2,
        Phase::Retry => 1,
    }
}

impl SetCall {
    #[verifier::type_invariant]
    spec fn key_is_not_reserved(self) -> bool {
        !is_reserved_name(self.key@)
    }

    /// The phase the write is in.
    pub fn phase(&self) -> (phase: Phase)
        ensures
            phase == self@.phase,
            !is_reserved_name(self@.key),
    {
        proof {
            use_type_invariant(self);
        }
        self.phase
    }

    /// The run that is written to.
    pub fn run(&self) -> (run: RunId)
        ensures
            run.value == self@.run,
    {
        self.run
    }

    /// The name of the field that is written.
    pub fn key(&self) -> (key: &String)
        ensures
            key@ == self@.key,
            !is_reserved_name(key@),
    {
        proof {
            use_type_invariant(self);
        }
        &self.key
    }

    /// The statement to execute next.
    pub fn statement(&self) -> (q: String)
        ensures
            q@ == statement_text(self@),
    {
        match self.phase {
            Phase::AddColumn => add_column_statement(self.table.as_str(), self.key.as_str()),
            _ => update_statement(
                self.table.as_str(),
                self.run,
                self.key.as_str(),
                self.value.as_str(),
                self.now.as_str(),
            ),
        }
    }

    /// Takes the backend's reply to the statement in flight and says how
    /// the write goes on.
    pub fn advance(self, reply: &BackendReply) -> (progress: SetProgress)
        ensures
            progress@ == next_progress(self@, reply@),
            progress@ matches SetProgressView::Continue(next) ==> statements_left(next.phase)
                < statements_left(self@.phase),
    {
        proof {
            use_type_invariant(&self);
        }
        let operation = match self.phase {
            Phase::AddColumn => Operation::AddColumn,
            _ => Operation::SetField,
        };
        let next = match reply {
            BackendReply::Done { .. } => match self.phase {
                Phase::AddColumn => Some(Phase::Retry),
                _ => None,
            },
            BackendReply::Rejected { message } => match self.phase {
                Phase::Update => if is_missing_column(message.as_str()) {
                    Some(Phase::AddColumn)
                } else {
                    None
                },
                Phase::AddColumn => if is_duplicate_column(message.as_str()) {
                    Some(Phase::Retry)
                } else {
                    None
                },
                Phase::Retry => None,
            },
            BackendReply::Unreachable { .. } => None,
        };
        match next {
            Some(phase) => SetProgress::Continue(
                SetCall {
                    table: self.table,
                    run: self.run,
                    key: self.key,
                    value: self.value,
                    now: self.now,
                    phase,
                },
            ),
            None => match read_reply(self.table.as_str(), operation, reply) {
                Ok(executed) => SetProgress::Finished(Ok(executed.last_insert_rowid)),
                Err(e) => SetProgress::Finished(Err(e)),
            },
        }
    }
}

/// A field write that has not sent anything yet.
pub open spec fn first_attempt(
    table: Seq<char>,
    run: u128,
    key: Seq<char>,
    value: Seq<char>,
    now: Seq<char>,
) -> SetCallView {
    SetCallView { table, run, key, value, now, phase: Phase::Update }
}

/// The error for a field whose name is reserved.
pub open spec fn reserved_key_error(table: Seq<char>, key: Seq<char>) -> StoreErrorView {
    StoreErrorView {
        kind: ErrorKind::Configuration,
        operation: Operation::SetField,
        table,
        detail: key,
    }
}

impl Table {
    /// Begins to write `value` to the field `key` of the run, stamped with
    /// the time `now`. A reserved column name as the field is a
    /// configuration error.
    pub fn begin_set(&self, run: RunId, key: &str, value: &str, now: &str) -> (begun: Result<
        SetCall,
        StoreError,
    >)
        ensures
            match begun {
                Ok(call) => !is_reserved_name(key@) && call@ == first_attempt(
                    self@.name,
                    run.value,
                    key@,
                    value@,
                    now@,
                ),
                Err(e) => is_reserved_name(key@) && e@ == reserved_key_error(self@.name, key@),
            },
    {
        let key = key.to_owned();
        if is_reserved(&key) {
            Err(
                StoreError::new(
                    ErrorKind::Configuration,
                    Operation::SetField,
                    self.name().as_str(),
                    key.as_str(),
                ),
            )
        } else {
            Ok(
                SetCall {
                    table: self.name().clone(),
                    run,
                    key,
                    value: value.to_owned(),
                    now: now.to_owned(),
                    phase: Phase::Update,
                },
            )
        }
    }

    /// Begins to write `value` to the field `key` of the run, stamped with
    /// the current time.
    pub fn set(&self, run: RunId, key: &str, value: &str) -> (begun: Result<SetCall, StoreError>)
        ensures
            match begun {
                Ok(call) => !is_reserved_name(key@) && exists|secs: i64|
                    {
                        &&& #[trigger] utc_timestamp_text(secs) is Some
                        &&& call@ == first_attempt(
                            self@.name,
                            run.value,
                            key@,
                            value@,
                            utc_timestamp_text(secs).unwrap(),
                        )
                    },
                Err(e) => is_reserved_name(key@) && e@ == reserved_key_error(self@.name, key@),
            },
    {
        let now = now_as_str();
        self.begin_set(run, key, value, now.as_str())
    }
}

} // verus!

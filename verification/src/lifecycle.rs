use vstd::prelude::*;
use crate::backend::BackendReply;
use crate::clock::{now_as_str, utc_timestamp_text};
use crate::error::{Operation, StoreError};
use crate::outcome::{read_reply, reply_outcome, result_view};
use crate::run::{hyphenated_text, is_random_id, RunId};
use crate::table::{insert_run_text, Table};

verus! {

/// What starting a run asks of the caller.
#[derive(Debug)]
pub enum StartPlan {
    /// The caller supplied the identifier: it is taken as it is and nothing
    /// is sent to the backend.
    Accepted { id: RunId },
    /// A row is to be inserted: the statement and the values to bind to its
    /// two parameters, the identifier's text and the creation time.
    Insert { id: RunId, statement: String, run_id: String, created_at: String },
}

/// The mathematical content of a `StartPlan`.
pub enum StartPlanView {
    Accepted { id: u128 },
    Insert { id: u128, statement: Seq<char>, run_id: Seq<char>, created_at: Seq<char> },
}

impl View for StartPlan {
    type V = StartPlanView;

    open spec fn view(&self) -> StartPlanView {
        match self {
            StartPlan::Accepted { id } => StartPlanView::Accepted { id: id.value },
            StartPlan::Insert { id, statement, run_id, created_at } => StartPlanView::Insert {
                id: id.value,
                statement: statement@,
                run_id: run_id@,
                created_at: created_at@,
            },
        }
    }
}

/// The plan that inserts the row of the run `id`, created at `created_at`,
/// into the table named `table`.
pub open spec fn insert_plan_of(table: Seq<char>, id: u128, created_at: Seq<char>) -> StartPlanView {
    StartPlanView::Insert {
        id,
        statement: insert_run_text(table),
        run_id: hyphenated_text(id),
        created_at,
    }
}

impl Table {
    /// The plan that inserts the row of a new run with the given identifier
    /// and creation time.
    pub fn insert_plan(&self, id: RunId, created_at: String) -> (plan: StartPlan)
        ensures
            plan@ == insert_plan_of(self@.name, id.value, created_at@),
    {
        StartPlan::Insert {
            id,
            statement: self.insert_statement(),
            run_id: id.hyphenated(),
            created_at,
        }
    }

    /// Starts a run. With an identifier from the caller the run is taken to
    /// exist and no row is inserted. Without one a fresh random identifier
    /// is made and the plan inserts its row, created now.
    pub fn start_run(&self, requested: Option<RunId>) -> (plan: StartPlan)
        ensures
            match requested {
                Some(id) => plan@ == (StartPlanView::Accepted { id: id.value }),
                None => exists|id: u128, secs: i64|
                    {
                        &&& is_random_id(id)
                        &&& #[trigger] utc_timestamp_text(secs) is Some
                        &&& plan@ == #[trigger] insert_plan_of(
                            self@.name,
                            id,
                            utc_timestamp_text(secs).unwrap(),
                        )
                    },
            },
    {
        match requested {
            Some(id) => StartPlan::Accepted { id },
            None => {
                let id = RunId::new_v4();
                let created_at = now_as_str();
                let ghost secs = choose|secs: i64|
                    #[trigger] utc_timestamp_text(secs) == Some(created_at@);
                let plan = self.insert_plan(id, created_at);
                assert(plan@ == insert_plan_of(
                    self@.name,
                    id.value,
                    utc_timestamp_text(secs).unwrap(),
                ));
                plan
            },
        }
    }

    /// The result of starting the run `id`, from the backend's reply to the
    /// insert of its row.
    pub fn finish_start_run(&self, id: RunId, reply: &BackendReply) -> (started: Result<
        RunId,
        StoreError,
    >)
        ensures
            result_view(started) == match reply_outcome(self@.name, Operation::StartRun, reply@) {
                Ok(_) => Ok(id),
                Err(e) => Err(e),
            },
    {
        match read_reply(self.name().as_str(), Operation::StartRun, reply) {
            Ok(_) => Ok(id),
            Err(e) => Err(e),
        }
    }
}

} // verus!
